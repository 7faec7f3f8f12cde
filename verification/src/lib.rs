//! Relay provisioning and self-healing for an overlay-network node.
//!
//! A structured routing address is classified and resolved to a transport
//! route, optionally through an encrypted channel, and a forwarding relay is
//! provisioned over that route.  A recovery session then allows the whole
//! chain (channel, then relay) to be rebuilt after the remote side tears it
//! down, within a bounded time budget.
//!
//! The collaborators that move bytes — the secure-channel gateway, the
//! project directory service and the relay protocol — are outside this
//! library.  Every decision between two of their calls is made here, by a
//! step function with a contract: a driver performs the returned action and
//! feeds the collaborator's answer back into the next step.

pub mod addr;
pub mod config;
pub mod error;
pub mod identity;
pub mod session;
pub mod provision;
pub mod recovery;
pub mod relay;
pub mod resolve;
pub mod route;
