//! Runs submitted code snippets: names each distinct snippet once, wraps it
//! in a fixed harness, classifies what the runner reports, and fans the raw
//! output of every run out to live subscribers.

pub mod broadcast;
pub mod cache;
pub mod call;
pub mod naming;
pub mod outcome;
pub mod stream;
