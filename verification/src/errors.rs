use vstd::prelude::*;

verus! {

/// An interaction arrived without an author to attribute it to.
#[derive(Clone, Copy, Debug, PartialEq, Eq, Structural)]
pub struct NoAuthorFound {}

impl NoAuthorFound {
    /// The message shown for this error.
    pub fn message(&self) -> (r: String)
        ensures
            r@ == "No author found for this interaction"@,
    {
        "No author found for this interaction".to_owned()
    }
}

/// An interaction arrived without a guild (tenant) id.
#[derive(Clone, Copy, Debug, PartialEq, Eq, Structural)]
pub struct InvalidGuildId {}

impl InvalidGuildId {
    /// The message shown for this error.
    pub fn message(&self) -> (r: String)
        ensures
            r@ == "No guild id found for interaction"@,
    {
        "No guild id found for interaction".to_owned()
    }
}

/// No gateway message sender is registered for the given shard.
#[derive(Clone, Copy, Debug, PartialEq, Eq, Structural)]
pub struct NoMessageSenderForShard {
    pub shard_id: u64,
}

} // verus!
