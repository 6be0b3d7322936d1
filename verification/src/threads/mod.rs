pub mod prioritizer;
pub mod in_order;
pub mod fut_runner;
