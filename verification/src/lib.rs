//! Global binding storage of the Steel virtual machine, with its contracts and laws.
//!
//! * [`rvals`]: the values that bindings hold.
//! * [`shared`]: the reference-counted vector of `shared_vector` that backs the bindings.
//! * [`env`]: the global environment and its laws.
//! * [`utils`]: allocator-aware collection traits.
mod shared;

pub mod utils;
pub mod env;
pub mod rvals;
