pub mod fetch;
pub mod guard;
pub mod laws;
pub mod listener;
pub mod mimes;
pub mod nautilus;
pub mod reps;
pub mod rules;
mod strs;
pub mod urls;
pub mod writer;
