use vstd::prelude::*;

verus! {

/// The two ways a balance operation can fail.
///
/// Every failing operation returns one of these and leaves all observable
/// state exactly as it was before the call.
#[derive(Clone, Copy, Debug, PartialEq, Eq)]
pub enum Error {
    /// A requested debit exceeds the account's current balance.
    InsufficientFunds,
    /// An arithmetic operation would exceed the maximum representable
    /// balance; amounts are never silently wrapped or truncated.
    Overflow,
}

} // verus!
