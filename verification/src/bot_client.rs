//! A builder for bots.
use vstd::prelude::*;

verus! {

/// A bot as the builder makes it: its token.
pub struct Bot {
    /// The token with which the bot connects to the Discord api.
    pub token: String,
}

/// Collects what a [`Bot`] is made of.
pub struct BotBuilder {
    /// The token of the bot to build.
    pub token: String,
}

impl BotBuilder {
    /// Creates a builder with the fields that every bot needs.
    pub fn new(token: String) -> (builder: Self)
        ensures
            builder.token == token,
    {
        Self { token }
    }
}

} // verus!
