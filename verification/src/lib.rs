//! Verified core of the PersonaPilot desktop automation toolkit: task and run
//! state machines, behavior planning, form action planning, evidence report
//! trend analysis, desktop settings validation and proxy rotation decisions.

pub mod behavior;
pub mod bindings;
pub mod clock;
pub mod db;
pub mod desktop;
pub mod domain;
pub mod numtext;
pub mod smoke;
pub mod text;
