//! What is decided when the registry is started.

use vstd::prelude::*;

verus! {

/// The services that the registry works with.
#[derive(Clone, Copy, Debug, PartialEq, Eq, Structural)]
pub struct Config {
    /// Whether groups are created in the identity service. Where they are
    /// not, new organizations are backed by no group.
    pub identity_integration: bool,
    /// Whether status updates are published to the notification service.
    pub notification_integration: bool,
}

} // verus!
