//! Navigation state machine and line store of a terminal viewer for
//! JSON-Lines log files.

pub mod event;
pub mod json;
pub mod laws;
pub mod model;
pub mod props;
pub mod raw_json_lines;
pub mod text;
