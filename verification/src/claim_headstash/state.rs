//! What the registry-backed claim engine keeps.

use crate::ledger::{ClaimLedger, LedgerView};
use crate::response::text_view;
use vstd::prelude::*;

verus! {

/// The claim count of an identity that has not claimed.
pub const DEFAULT_CLAIM_COUNT: u32 = 0;

/// The label under which the registry is set up.
pub const HEADSTASH_GOOP_LABEL: &'static str = "Headstash Goop Recipients";

/// The number under which the registry reports its address.
pub const INIT_CW_GOOP_ID: u64 = 1;

#[derive(Clone, Debug, PartialEq, Eq)]
pub struct Config {
    pub admin: String,
    /// The message that claimants sign, with `{wallet}` for their account.
    pub claim_msg_plaintext: String,
    /// The address of the registry, once it has reported it.
    pub cw_goop_address: Option<String>,
}

/// The whole state of the engine.
#[derive(Clone, Debug, PartialEq, Eq)]
pub struct Headstash {
    pub config: Config,
    pub ledger: ClaimLedger,
}

pub struct HeadstashView {
    pub admin: Seq<char>,
    pub claim_msg_plaintext: Seq<char>,
    pub cw_goop_address: Option<Seq<char>>,
    pub ledger: LedgerView,
}

impl View for Headstash {
    type V = HeadstashView;

    open spec fn view(&self) -> HeadstashView {
        HeadstashView {
            admin: self.config.admin@,
            claim_msg_plaintext: self.config.claim_msg_plaintext@,
            cw_goop_address: text_view(self.config.cw_goop_address),
            ledger: self.ledger@,
        }
    }
}

} // verus!
