//! The rules of the tools that come with the daemon. What they do to the
//! machine is left to those who run them; what they decide is here.

pub mod apps;
pub mod music;
pub mod power;
pub mod remote;
pub mod volume;
pub mod wait;
