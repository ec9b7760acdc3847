//! The failures that the library reports.

use vstd::prelude::*;

verus! {

/// Why a transaction could not be resolved, decoded, built or submitted.
#[derive(Clone, Debug, PartialEq, Eq)]
pub enum Error {
    /// A failure described only by its message.
    Custom(String),
    /// A legacy message's header counts more read-only signers than signers,
    /// or more read-only keys than keys.
    MalformedHeader,
    /// The instruction at this position of a message names a program by an
    /// index beyond the message's account table.
    ProgramIdOutOfRange { instruction: usize },
    /// An instruction carries the pool-creation discriminator but the bytes
    /// after it do not follow the pool-creation layout.
    MalformedPayload,
    /// An instruction carries the pool-creation discriminator but lists fewer
    /// accounts than the pool-creation schema names.
    MissingAccount,
    /// The configured signing key is not an ed25519 key pair.
    InvalidKeypair,
    /// No token account could be derived for the wallet and a mint.
    NoDerivedAddress,
    /// The instructions could not be compiled into a message.
    CompileFailed,
    /// The compiled message could not be signed with the configured key.
    SigningFailed,
    /// The signed transaction could not be serialised.
    SerializeFailed,
    /// A route answered with a status other than success; the body it sent.
    Rejected(String),
    /// A route answered with success but its body lacks what the route's
    /// format promises.
    MalformedResponse,
}

pub type GeyserResult<T> = Result<T, Error>;

} // verus!
