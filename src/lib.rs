pub mod specs;
pub mod limiter;
pub mod runner;
pub mod killer;
pub mod procs;
pub mod supervisor;
