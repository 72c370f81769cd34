//! A harness that runs WebAssembly contracts under several virtual-machine
//! backends and decides whether they agree, together with the content-addressed
//! cache of compiled artifacts that the execution path reads and fills.

pub mod code;
pub mod cache;
pub mod outcome;
pub mod compare;
pub mod engine;
pub mod context;
pub mod driver;
