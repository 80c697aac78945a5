//! Recording the admin configuration.

use crate::state::{Address, Config};
use vstd::prelude::*;

verus! {

/// What the admin configuration reads: the admin who signs it.
#[derive(Clone, Copy, Debug, PartialEq, Eq)]
pub struct AdminInit {
    pub admin: Address,
}

impl AdminInit {
    /// The configuration record for this admin and `fee`.
    pub fn handle(ctx: &AdminInit, fee: u64) -> (config: Config)
        ensures
            config == (Config { admin: ctx.admin, fee }),
    {
        Config { admin: ctx.admin, fee }
    }
}

} // verus!
