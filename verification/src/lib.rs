//! A message board as a transactional state machine: accounts sign up, write
//! posts, like posts, and the owner may revoke an account's rights.
//!
//! Every handler is verified against a transition function over the
//! mathematical view of the store; a failed call leaves the store as it was.

pub mod contract;
pub mod error;
pub mod keys;
pub mod laws;
pub mod model;
pub mod msg;
pub mod response;
pub mod rules;
pub mod state;
pub mod store;
