//! The core of a small demonstration web service: a visit counter shared by
//! all requests, and a bounded echo stream that repeats a request body a
//! caller-chosen number of times, one chunk per pull.
//!
//! Everything here works on plain values. The HTTP layer that routes
//! requests, waits and writes to sockets lives outside this library and
//! calls into it.

pub mod reply;
pub mod profile;
pub mod counter;
pub mod visit;
pub mod limit;
pub mod chunk;
pub mod echo;
pub mod resource;
