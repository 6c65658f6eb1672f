//! Building and driving two-phase identity registrations against a Verus
//! (the blockchain) node.
//!
//! The library has two halves, used strictly in sequence:
//!
//! * [`IdentityBuilder`] collects identity parameters and checks every static
//!   precondition before any network call is made, producing an immutable
//!   [`IdentityRequest`].
//! * [`Orchestrator`] is the pure decision core of the two-call protocol:
//!   submit a name commitment, poll until it is confirmed on-chain, then
//!   submit the identity registration.  The caller performs the remote calls
//!   and sleeps and feeds every outcome back in; the orchestrator decides what
//!   happens next, with a bounded retry budget for the node's
//!   eventual-consistency window.

pub mod builder;
pub mod errors;
pub mod hex_check;
pub mod protocol;
pub mod rpc_types;

pub use builder::Identity;
pub use builder::IdentityBuilder;
pub use builder::IdentityRequest;
pub use errors::ErrorKind;
pub use errors::ErrorKindV;
pub use errors::IdentityError;
pub use errors::ValidationError;
pub use hex_check::is_hex_bytes;
pub use hex_check::is_hex_digit;
pub use protocol::classify_lookup_error;
pub use protocol::LookupOutcome;
pub use protocol::LookupOutcomeV;
pub use protocol::Orchestrator;
pub use protocol::ProtocolAction;
pub use protocol::ProtocolEventV;
pub use protocol::ProtocolStateV;
pub use protocol::COARSE_POLL_MILLIS;
pub use protocol::FINE_POLL_MILLIS;
pub use protocol::RETRY_CAP;
