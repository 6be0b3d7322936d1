use vstd::prelude::*;
use crate::encoding::decimal_of;
use vstd::utf8::encode_utf8;

verus! {

#[verifier::external_type_specification]
#[verifier::external_body]
pub struct ExRedisCmd(redis::Cmd);

/// The arguments a redis command holds, in order, its name first.
pub uninterp spec fn cmd_parts(c: redis::Cmd) -> Seq<Seq<u8>>;

/// The SHA-1 digest of a text's UTF-8 bytes, as `sha1_smol` prints it.
pub uninterp spec fn sha1_hex(text: Seq<char>) -> Seq<char>;

/// A lowercase hexadecimal digit.
pub open spec fn is_lower_hex(c: char) -> bool {
    ('0' <= c <= '9') || ('a' <= c <= 'f')
}

/// Starts a command with `redis::cmd`: its one argument is the name's UTF-8 bytes.
#[verifier::external_body]
fn cmd_named(name: &str) -> (c: redis::Cmd)
    ensures
        cmd_parts(c) == seq![encode_utf8(name@)],
{
    redis::cmd(name)
}

/// `Cmd::arg` with a byte slice, which redis writes as one argument holding those bytes.
#[verifier::external_body]
fn cmd_push_bytes(c: &mut redis::Cmd, bytes: &[u8])
    ensures
        cmd_parts(*final(c)) == cmd_parts(*old(c)).push(bytes@),
{
    c.arg(bytes);
}

/// `Cmd::arg` with a `usize`, which redis writes as one argument: its decimal digits.
#[verifier::external_body]
fn cmd_push_count(c: &mut redis::Cmd, n: usize)
    ensures
        cmd_parts(*final(c)) == cmd_parts(*old(c)).push(decimal_of(n as nat)),
{
    c.arg(n);
}

/// Hashes `text` with `sha1_smol::Sha1::from` and prints the digest: the contract names the
/// result and states that it is 40 lowercase hex digits (five words as `{:08x}`).
#[verifier::external_body]
fn sha1_hex_of(text: &str) -> (h: String)
    ensures
        h@ == sha1_hex(text@),
        h@.len() == 40,
        forall|i: int| 0 <= i < 40 ==> is_lower_hex(#[trigger] h@[i]),
{
    sha1_smol::Sha1::from(text).digest().to_string()
}

/// A lua script wrapper. Should be created once per script.
#[derive(Debug, Clone, PartialEq, Eq, Hash)]
pub struct RedisScript {
    code: String,
    hash: String,
}

impl RedisScript {
    /// The script's source.
    pub closed spec fn code_view(&self) -> Seq<char> {
        self.code@
    }

    /// The hash redis knows the script by.
    pub closed spec fn hash_view(&self) -> Seq<char> {
        self.hash@
    }

    /// Create the script object.
    /// Use `include_str!()` to allow the script to exist in its own file for highlighting etc.
    pub fn new(code: &str) -> (script: RedisScript)
        ensures
            script.code_view() == code@,
            script.hash_view() == sha1_hex(code@),
            script.hash_view().len() == 40,
            forall|i: int| 0 <= i < 40 ==> is_lower_hex(#[trigger] script.hash_view()[i]),
    {
        let hash = sha1_hex_of(code);
        RedisScript { code: code.to_string(), hash }
    }

    /// The script's source.
    pub fn code(&self) -> (code: &str)
        ensures
            code@ == self.code_view(),
    {
        self.code.as_str()
    }

    /// The SHA-1 hash redis knows the script by.
    pub fn hash(&self) -> (hash: &str)
        ensures
            hash@ == self.hash_view(),
    {
        self.hash.as_str()
    }

    /// Create a new script invoker for an individual script call.
    pub fn invoker(&self) -> (invoker: RedisScriptInvoker<'_>)
        ensures
            invoker.script_view() == self,
            invoker.args_view() == Seq::<Seq<u8>>::empty(),
            invoker.keys_view() == Seq::<Seq<u8>>::empty(),
    {
        RedisScriptInvoker { script: self, args: Vec::new(), keys: Vec::new() }
    }

    /// The command to load the script to redis: `SCRIPT LOAD <code>`.
    pub fn load_cmd(&self) -> (c: redis::Cmd)
        ensures
            cmd_parts(c) == seq![encode_utf8("SCRIPT"@), encode_utf8("LOAD"@), encode_utf8(self.code_view())],
    {
        let mut c = cmd_named("SCRIPT");
        cmd_push_bytes(&mut c, "LOAD".as_bytes());
        cmd_push_bytes(&mut c, self.code.as_str().as_bytes());
        c
    }
}

/// The byte strings of a list, each as a sequence.
pub open spec fn parts_view(parts: Seq<Vec<u8>>) -> Seq<Seq<u8>> {
    parts.map_values(|p: Vec<u8>| p@)
}

/// Represents a individual script call with specific args and keys.
pub struct RedisScriptInvoker<'a> {
    script: &'a RedisScript,
    args: Vec<Vec<u8>>,
    keys: Vec<Vec<u8>>,
}

impl<'a> RedisScriptInvoker<'a> {
    /// The script this call runs.
    pub closed spec fn script_view(&self) -> &'a RedisScript {
        self.script
    }

    /// The script this call runs.
    pub fn script(&self) -> (script: &'a RedisScript)
        ensures
            script == self.script_view(),
    {
        self.script
    }

    /// The regular arguments so far, `ARGV[1..]`.
    pub closed spec fn args_view(&self) -> Seq<Seq<u8>> {
        parts_view(self.args@)
    }

    /// The key arguments so far, `KEYS[1..]`.
    pub closed spec fn keys_view(&self) -> Seq<Seq<u8>> {
        parts_view(self.keys@)
    }

    /// Add a regular argument. I.e. `ARGV[i]`, given as the redis arguments it writes
    /// (most values write one, a list writes one per item).
    pub fn arg(self, parts: Vec<Vec<u8>>) -> (invoker: Self)
        ensures
            invoker.script_view() == self.script_view(),
            invoker.args_view() == self.args_view() + parts_view(parts@),
            invoker.keys_view() == self.keys_view(),
    {
        let mut invoker = self;
        let mut parts = parts;
        let ghost before = invoker.args@;
        let ghost added = parts@;
        invoker.args.append(&mut parts);
        proof {
            assert(parts_view(invoker.args@) =~= parts_view(before) + parts_view(added));
        }
        invoker
    }

    /// Add a key argument. I.e. `KEYS[i]`, given as the redis arguments it writes.
    pub fn key(self, parts: Vec<Vec<u8>>) -> (invoker: Self)
        ensures
            invoker.script_view() == self.script_view(),
            invoker.keys_view() == self.keys_view() + parts_view(parts@),
            invoker.args_view() == self.args_view(),
    {
        let mut invoker = self;
        let mut parts = parts;
        let ghost before = invoker.keys@;
        let ghost added = parts@;
        invoker.keys.append(&mut parts);
        proof {
            assert(parts_view(invoker.keys@) =~= parts_view(before) + parts_view(added));
        }
        invoker
    }

    /// Add the invocation's keys, then its args, to `c`.
    fn push_keys_and_args(&self, c: &mut redis::Cmd)
        ensures
            cmd_parts(*final(c)) == cmd_parts(*old(c)) + self.keys_view() + self.args_view(),
    {
        let ghost head = cmd_parts(*c);
        let mut i: usize = 0;
        while i < self.keys.len()
            invariant
                i <= self.keys.len(),
                cmd_parts(*c) == head + parts_view(self.keys@).take(i as int),
            decreases self.keys.len() - i,
        {
            cmd_push_bytes(c, self.keys[i].as_slice());
            i = i + 1;
            assert(parts_view(self.keys@).take(i as int) =~= parts_view(self.keys@).take(
                (i - 1) as int,
            ).push(self.keys@[i - 1]@));
        }
        assert(parts_view(self.keys@).take(i as int) =~= parts_view(self.keys@));
        let ghost with_keys = cmd_parts(*c);
        let mut j: usize = 0;
        while j < self.args.len()
            invariant
                j <= self.args.len(),
                cmd_parts(*c) == with_keys + parts_view(self.args@).take(j as int),
            decreases self.args.len() - j,
        {
            cmd_push_bytes(c, self.args[j].as_slice());
            j = j + 1;
            assert(parts_view(self.args@).take(j as int) =~= parts_view(self.args@).take(
                (j - 1) as int,
            ).push(self.args@[j - 1]@));
        }
        assert(parts_view(self.args@).take(j as int) =~= parts_view(self.args@));
    }

    /// The command to run the script invocation. Will fail if script not loaded yet:
    /// `EVALSHA <hash> <number of keys> <keys..> <args..>`.
    pub fn eval_cmd(&self) -> (c: redis::Cmd)
        ensures
            cmd_parts(c) == seq![
                encode_utf8("EVALSHA"@),
                encode_utf8(self.script_view().hash_view()),
                decimal_of(self.keys_view().len()),
            ] + self.keys_view() + self.args_view(),
    {
        let mut c = cmd_named("EVALSHA");
        cmd_push_bytes(&mut c, self.script.hash.as_str().as_bytes());
        cmd_push_count(&mut c, self.keys.len());
        self.push_keys_and_args(&mut c);
        c
    }

    /// The command to run the script invocation: by its hash (`EVALSHA`, see
    /// [`Self::eval_cmd`]) when redis is known to have it loaded, else sending its source
    /// (`EVAL <code> <number of keys> <keys..> <args..>`), which also loads it.
    pub fn eval_cmd_loaded(&self, loaded: bool) -> (c: redis::Cmd)
        ensures
            loaded ==> cmd_parts(c) == seq![
                encode_utf8("EVALSHA"@),
                encode_utf8(self.script_view().hash_view()),
                decimal_of(self.keys_view().len()),
            ] + self.keys_view() + self.args_view(),
            !loaded ==> cmd_parts(c) == seq![
                encode_utf8("EVAL"@),
                encode_utf8(self.script_view().code_view()),
                decimal_of(self.keys_view().len()),
            ] + self.keys_view() + self.args_view(),
    {
        if loaded {
            self.eval_cmd()
        } else {
            let mut c = cmd_named("EVAL");
            cmd_push_bytes(&mut c, self.script.code.as_str().as_bytes());
            cmd_push_count(&mut c, self.keys.len());
            self.push_keys_and_args(&mut c);
            c
        }
    }
}

/// The hashes of the scripts redis is known to have loaded.
#[derive(Debug)]
pub struct LoadedScripts {
    hashes: Vec<String>,
}

impl LoadedScripts {
    /// The hashes known to be loaded.
    pub closed spec fn loaded_view(&self) -> Set<Seq<char>> {
        Set::new(|h: Seq<char>| exists|i: int| 0 <= i < self.hashes@.len() && #[trigger] self.hashes@[i]@ == h)
    }

    /// None known to be loaded.
    pub fn new() -> (r: LoadedScripts)
        ensures
            r.loaded_view() == Set::<Seq<char>>::empty(),
    {
        let r = LoadedScripts { hashes: Vec::new() };
        assert(r.loaded_view() =~= Set::<Seq<char>>::empty());
        r
    }

    /// Whether the script with this hash is known to be loaded.
    pub fn contains(&self, hash: &str) -> (b: bool)
        ensures
            b == self.loaded_view().contains(hash@),
    {
        let target = hash.to_string();
        let mut i: usize = 0;
        while i < self.hashes.len()
            invariant
                i <= self.hashes@.len(),
                target@ == hash@,
                forall|j: int| 0 <= j < i ==> #[trigger] self.hashes@[j]@ != hash@,
            decreases self.hashes@.len() - i,
        {
            if self.hashes[i] == target {
                return true;
            }
            i = i + 1;
        }
        false
    }

    /// Note the script with this hash as loaded.
    pub fn mark_loaded(&mut self, hash: &str)
        ensures
            final(self).loaded_view() == old(self).loaded_view().insert(hash@),
    {
        if !self.contains(hash) {
            self.hashes.push(hash.to_string());
        }
        assert(self.loaded_view() =~= old(self).loaded_view().insert(hash@)) by {
            assert forall|h: Seq<char>| #[trigger] self.loaded_view().contains(h) == old(self).loaded_view().insert(hash@).contains(h) by {
                if old(self).loaded_view().insert(hash@).contains(h) && h != hash@ {
                    let k = choose|k: int| 0 <= k < old(self).hashes@.len() && #[trigger] old(self).hashes@[k]@ == h;
                    assert(self.hashes@[k] == old(self).hashes@[k]);
                }
                if h == hash@ && !old(self).loaded_view().contains(h) {
                    assert(self.hashes@[self.hashes@.len() - 1]@ == h);
                }
            }
        }
    }
}

} // verus!
