//! The mock VATSIM server's state and the decisions its endpoints make.

pub mod feed;
pub mod oauth;
pub mod state;
pub mod store;
