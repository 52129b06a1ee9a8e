//! Status model, control-verb grammar and session logic of the Pixel Buds
//! Pro status daemon.

pub mod anc;
pub mod control;
pub mod status;
pub mod laws;
pub mod link;
pub mod paths;
pub mod protocol;
pub mod text;
pub mod verb;
pub mod writer;
