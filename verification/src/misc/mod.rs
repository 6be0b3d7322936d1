pub mod looper;
pub mod random_bytes;
pub mod platform;
pub mod retry;
pub mod url_escape;
pub mod setup_once;
pub mod tarball;
pub mod global_lock;
pub mod lazy_clone;
pub mod flexi_phase;
pub mod periodic;
pub mod lazy_batcher;
