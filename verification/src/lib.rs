//! The decisions of an upload relay: who may upload, under which object key
//! each file is stored, and what the caller is told.
//!
//! The relay takes multipart uploads from callers who carry the key, writes
//! each file to a bucket and answers with the addresses of the objects. What
//! is here decides and never waits: [`auth`] is the guard at the door, [`key`]
//! names the objects, [`clock`] writes the stamp that goes into a key,
//! [`session`] serves one request step by step, and [`trace`] says what holds of
//! whole requests. Reading requests, writing objects and sending replies is
//! left to the program around it.

pub mod auth;
pub mod clock;
pub mod config;
pub mod key;
pub mod reply;
pub mod session;
pub mod trace;
pub mod urls;
