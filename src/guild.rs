//! The guild that the logger is bound to once the gateway reports ready.

use vstd::prelude::*;

verus! {

/// The home guild, unset until the ready signal binds it.
#[derive(Clone, Copy, Debug, PartialEq, Eq)]
pub struct GuildBinding {
    pub guild: Option<u64>,
}

impl GuildBinding {
    /// A binding that is not set yet: every event is suppressed.
    pub fn new() -> (r: GuildBinding)
        ensures
            r.guild is None,
    {
        GuildBinding { guild: None }
    }

    /// Binds the guild.
    pub fn bind(&mut self, id: u64)
        ensures
            final(self).guild == Some(id),
    {
        self.guild = Some(id);
    }

    /// The bound guild, if any.
    pub fn current(&self) -> (r: Option<u64>)
        ensures
            r == self.guild,
    {
        self.guild
    }
}

} // verus!
