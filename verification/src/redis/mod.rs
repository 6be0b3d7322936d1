pub mod temp_list;
pub mod script;
pub mod dlock;
pub mod fuzzy;
pub mod json;
pub mod keys;
pub mod batch;
pub mod pubsub;
