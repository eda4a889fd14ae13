//! Protocol core for bridging an ID107Plus HR fitness tracker to the host.

pub mod dispatcher;
pub mod gatt;
pub mod matcher;
pub mod negotiator;
pub mod protocol;
