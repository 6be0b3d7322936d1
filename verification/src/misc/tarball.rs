use vstd::prelude::*;

use crate::misc::looper::Looper;

verus! {

/// The files held by a `.tar.gz` archive, in the order the archive stores them, each as
/// its path and its contents; `None` when the bytes are not a readable archive.
pub uninterp spec fn spec_tar_gz_entries(archive: Seq<u8>) -> Option<Seq<(Seq<u8>, Seq<u8>)>>;

/// The `.tar.gz` archive holding `files` (path and contents), in order; `None` when an
/// archive cannot be made of them.
pub uninterp spec fn spec_tar_gz(files: Seq<(Seq<u8>, Seq<u8>)>) -> Option<Seq<u8>>;

/// Each file's path and contents as sequences of bytes.
pub open spec fn files_view(files: Seq<(Vec<u8>, Vec<u8>)>) -> Seq<(Seq<u8>, Seq<u8>)> {
    files.map_values(|f: (Vec<u8>, Vec<u8>)| (f.0@, f.1@))
}

/// Reads a `.tar.gz` archive with `flate2::read::GzDecoder` and `tar::Archive::entries`,
/// collecting each entry's raw path (`path_bytes`) and contents (`read_to_end`); any
/// error of the two crates gives `None`. Trusted to give the archive's files, named
/// [`spec_tar_gz_entries`].
#[verifier::external_body]
fn tar_gz_entries(archive: &[u8]) -> (r: Option<Vec<(Vec<u8>, Vec<u8>)>>)
    ensures
        match r {
            Some(files) => spec_tar_gz_entries(archive@) == Some(files_view(files@)),
            None => spec_tar_gz_entries(archive@) is None,
        },
{
    let mut archive = tar::Archive::new(flate2::read::GzDecoder::new(archive));
    let mut files = Vec::new();
    for entry in archive.entries().ok()? {
        let mut entry = entry.ok()?;
        let path = entry.path_bytes().into_owned();
        let mut data = Vec::new();
        std::io::Read::read_to_end(&mut entry, &mut data).ok()?;
        files.push((path, data));
    }
    Some(files)
}

/// Builds a tar archive with `tar::Builder` (a GNU header per file, sized to its
/// contents, the path taken as UTF-8 text) and compresses it with
/// `flate2::write::GzEncoder` at the default level; any error of the two crates, or a
/// path that is not UTF-8, gives `None`. Trusted to give the archive named
/// [`spec_tar_gz`].
#[verifier::external_body]
fn tar_gz(files: &[(Vec<u8>, Vec<u8>)]) -> (r: Option<Vec<u8>>)
    ensures
        match r {
            Some(archive) => spec_tar_gz(files_view(files@)) == Some(archive@),
            None => spec_tar_gz(files_view(files@)) is None,
        },
{
    let mut builder = tar::Builder::new(Vec::new());
    for (path, data) in files {
        let mut header = tar::Header::new_gnu();
        header.set_size(data.len() as u64);
        builder.append_data(&mut header, std::str::from_utf8(path).ok()?, &data[..]).ok()?;
    }
    let tar_bytes = builder.into_inner().ok()?;
    let mut gz = flate2::write::GzEncoder::new(Vec::new(), flate2::Compression::default());
    std::io::Write::write_all(&mut gz, &tar_bytes).ok()?;
    gz.finish().ok()
}

/// Why a tarball could not be read through.
#[derive(Debug, Clone, PartialEq, Eq)]
pub enum TarballErr<E> {
    /// The bytes are not a readable `.tar.gz` archive.
    Unreadable,
    /// The callback failed on a file.
    Callback(E),
}

/// `out` is a possible outcome of handing `files` in order to `with_file`, starting with
/// `state`: each call gets the state so far and the next file, not asked to stop; a
/// failing call ends with its error, a call asking to stop ends with its state, and
/// running out of files ends with the state so far.
pub open spec fn runs_to<S, E, F: Fn(Looper<S, (Vec<u8>, Vec<u8>)>) -> Result<Looper<S, (Vec<u8>, Vec<u8>)>, E>>(
    with_file: F,
    files: Seq<(Vec<u8>, Vec<u8>)>,
    state: S,
    out: Result<S, TarballErr<E>>,
) -> bool
    decreases files.len(),
{
    if files.len() == 0 {
        out == Ok::<S, TarballErr<E>>(state)
    } else {
        exists|res: Result<Looper<S, (Vec<u8>, Vec<u8>)>, E>|
            #[trigger] call_ensures(with_file, (Looper { state, value: files[0], stop_early: false },), res)
                && match res {
                Err(e) => out == Err::<S, TarballErr<E>>(TarballErr::Callback(e)),
                Ok(l) => if l.stop_early {
                    out == Ok::<S, TarballErr<E>>(l.state)
                } else {
                    runs_to(with_file, files.drop_first(), l.state, out)
                },
            }
    }
}

/// Decompress a tarball (.tar.gz), handing each file (its path and contents) in order to
/// `with_file`, with the state so far, until it fails or asks to stop early.
pub fn tarball_decompress<
    S,
    E,
    F: Fn(Looper<S, (Vec<u8>, Vec<u8>)>) -> Result<Looper<S, (Vec<u8>, Vec<u8>)>, E>,
>(archive: &[u8], state: S, with_file: F) -> (r: Result<S, TarballErr<E>>)
    requires
        forall|l: Looper<S, (Vec<u8>, Vec<u8>)>| call_requires(with_file, (l,)),
    ensures
        spec_tar_gz_entries(archive@) is None ==> r == Err::<S, TarballErr<E>>(TarballErr::Unreadable),
        spec_tar_gz_entries(archive@) is Some ==> exists|files: Seq<(Vec<u8>, Vec<u8>)>|
            files_view(files) == spec_tar_gz_entries(archive@)->0 && #[trigger] runs_to(
                with_file,
                files,
                state,
                r,
            ),
{
    let mut remaining = match tar_gz_entries(archive) {
        Some(files) => files,
        None => {
            return Err(TarballErr::Unreadable);
        },
    };
    let ghost all = remaining@;
    let mut cur = state;
    while remaining.len() > 0
        invariant
            spec_tar_gz_entries(archive@) == Some(files_view(all)),
            forall|l: Looper<S, (Vec<u8>, Vec<u8>)>| call_requires(with_file, (l,)),
            forall|out: Result<S, TarballErr<E>>|
                runs_to(with_file, remaining@, cur, out) ==> #[trigger] runs_to(with_file, all, state, out),
        decreases remaining.len(),
    {
        let ghost before = remaining@;
        let ghost cur_before = cur;
        let file = remaining.remove(0);
        let looper = Looper::new(cur, file);
        let ghost looper_in = looper;
        let res = with_file(looper);
        proof {
            assert(remaining@ =~= before.drop_first());
            assert(looper_in == Looper { state: cur_before, value: before[0], stop_early: false });
            assert(call_ensures(with_file, (looper_in,), res));
        }
        match res {
            Err(e) => {
                let r = Err(TarballErr::Callback(e));
                proof {
                    assert(runs_to(with_file, before, cur_before, r));
                    assert(runs_to(with_file, all, state, r));
                }
                return r;
            },
            Ok(l) => {
                let Looper { state: next_state, value: _, stop_early } = l;
                if stop_early {
                    let r = Ok(next_state);
                    proof {
                        assert(runs_to(with_file, before, cur_before, r));
                        assert(runs_to(with_file, all, state, r));
                    }
                    return r;
                }
                proof {
                    assert forall|out: Result<S, TarballErr<E>>|
                        runs_to(with_file, remaining@, next_state, out) implies #[trigger] runs_to(
                        with_file,
                        all,
                        state,
                        out,
                    ) by {
                        assert(runs_to(with_file, before, cur_before, out));
                    }
                }
                cur = next_state;
            },
        }
    }
    let r = Ok(cur);
    proof {
        assert(runs_to(with_file, remaining@, cur, r));
        assert(runs_to(with_file, all, state, r));
    }
    r
}

/// Compress files (each a path and its contents) into a tarball (.tar.gz): the archive
/// named [`spec_tar_gz`], or `None` when one cannot be made of them.
pub fn tarball_compress(files: &[(Vec<u8>, Vec<u8>)]) -> (r: Option<Vec<u8>>)
    ensures
        match r {
            Some(archive) => spec_tar_gz(files_view(files@)) == Some(archive@),
            None => spec_tar_gz(files_view(files@)) is None,
        },
{
    tar_gz(files)
}

} // verus!
