pub mod run;
pub mod state_machine;
pub mod task;
