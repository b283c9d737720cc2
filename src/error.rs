use vstd::prelude::*;

verus! {

/// The errors that the caller-facing operations return, before any state changes.
#[derive(PartialEq, Eq, Structural, Clone, Copy, Debug)]
pub enum Error {
    /// A malformed subprotocol or target address, or an oversized close reason.
    Syntax,
    /// A close code outside the allowed ranges.
    InvalidAccess,
    /// A message sent while the connection is still being established.
    InvalidState,
}

} // verus!
