//! Verified core of the Docker client for stryke.
//!
//! The library decides what the daemon is asked and what is made of its answers; talking to the
//! daemon, to the file system and to the terminal is left to the application around it.
//!
//! * [`text`], [`textmap`] and [`json`] hold the values that everything else is made of.
//! * [`reference`], [`ports`], [`mounts`], [`names`] and [`labels`] take apart what users write.
//! * [`endpoint`] chooses the way to the daemon; [`call`] is what it can be sent.
//! * [`ops`], [`reply`] and [`session`] are the functions that stryke calls.
//! * [`command`], [`prune`], [`output`], [`context`] and [`helper`] are the commands of the helper.
//! * [`refusal`] tells why something is refused.
//! * [`laws`] states what all of this comes to.

pub mod call;
pub mod command;
pub mod context;
pub mod endpoint;
pub mod helper;
pub mod json;
pub mod labels;
pub mod laws;
pub mod mounts;
pub mod names;
pub mod ops;
pub mod output;
pub mod ports;
pub mod prune;
pub mod reference;
pub mod refusal;
pub mod reply;
pub mod session;
pub mod text;
pub mod textmap;
