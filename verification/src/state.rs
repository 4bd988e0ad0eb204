//! What the claim engine keeps: its configuration, the stage registry and
//! the claim ledger.

use crate::hexcode::hex_decoding_exact;
use crate::ledger::{ClaimLedger, LedgerView};
use vstd::prelude::*;
use vstd::utf8::encode_utf8;

verus! {

/// The block in which an operation runs: its height and its time in seconds.
#[derive(Clone, Copy, Debug, PartialEq, Eq)]
pub struct BlockInfo {
    pub height: u64,
    pub time: u64,
}

/// The point from which on claims are legal.
#[derive(Clone, Copy, Debug, PartialEq, Eq)]
pub enum Scheduled {
    AtHeight(u64),
    AtTime(u64),
}

/// The point from which on claims are illegal and clawback is legal.
#[derive(Clone, Copy, Debug, PartialEq, Eq)]
pub enum Expiration {
    AtHeight(u64),
    AtTime(u64),
    Never,
}

/// Where a stage stands at a given block.
#[derive(Clone, Copy, Debug, PartialEq, Eq)]
pub enum StagePhase {
    NotYetOpen,
    Open,
    Expired,
}

impl Scheduled {
    /// Whether the point has been reached at `block`.
    pub open spec fn triggered(self, block: BlockInfo) -> bool {
        match self {
            Scheduled::AtHeight(height) => block.height >= height,
            Scheduled::AtTime(time) => block.time >= time,
        }
    }

    /// Whether the point has been reached at `block`.
    pub fn is_triggered(&self, block: &BlockInfo) -> (r: bool)
        ensures
            r == self.triggered(*block),
    {
        match self {
            Scheduled::AtHeight(height) => block.height >= *height,
            Scheduled::AtTime(time) => block.time >= *time,
        }
    }
}

impl Expiration {
    /// Whether the point has been reached at `block`.
    pub open spec fn expired(self, block: BlockInfo) -> bool {
        match self {
            Expiration::AtHeight(height) => block.height >= height,
            Expiration::AtTime(time) => block.time >= time,
            Expiration::Never => false,
        }
    }

    /// Whether the point has been reached at `block`.
    pub fn is_expired(&self, block: &BlockInfo) -> (r: bool)
        ensures
            r == self.expired(*block),
    {
        match self {
            Expiration::AtHeight(height) => block.height >= *height,
            Expiration::AtTime(time) => block.time >= *time,
            Expiration::Never => false,
        }
    }
}

/// Who may administer the engine. Once frozen, nobody may, for good.
#[derive(Clone, Debug, PartialEq, Eq)]
pub enum Owner {
    Owned(String),
    Frozen,
}

impl View for Owner {
    type V = Option<Seq<char>>;

    open spec fn view(&self) -> Option<Seq<char>> {
        match self {
            Owner::Owned(address) => Some(address@),
            Owner::Frozen => None,
        }
    }
}

/// The configuration: the owner and the message that a claimant signs,
/// with `{wallet}` standing for the claimant's account.
#[derive(Clone, Debug, PartialEq, Eq)]
pub struct Config {
    pub owner: Owner,
    pub claim_msg_plaintext: String,
}

pub struct ConfigView {
    pub owner: Option<Seq<char>>,
    pub claim_msg_plaintext: Seq<char>,
}

impl View for Config {
    type V = ConfigView;

    open spec fn view(&self) -> ConfigView {
        ConfigView { owner: self.owner@, claim_msg_plaintext: self.claim_msg_plaintext@ }
    }
}

/// One round of the distribution.
#[derive(Clone, Debug, PartialEq, Eq)]
pub struct Stage {
    /// The committed root, as 64 hexadecimal digits.
    pub merkle_root: String,
    /// From when on claims are legal; at once if there is none.
    pub start: Option<Scheduled>,
    pub expiration: Expiration,
    pub total_amount: u128,
    pub claimed_amount: u128,
}

pub struct StageView {
    pub merkle_root: Seq<char>,
    pub start: Option<Scheduled>,
    pub expiration: Expiration,
    pub total_amount: u128,
    pub claimed_amount: u128,
}

impl View for Stage {
    type V = StageView;

    open spec fn view(&self) -> StageView {
        StageView {
            merkle_root: self.merkle_root@,
            start: self.start,
            expiration: self.expiration,
            total_amount: self.total_amount,
            claimed_amount: self.claimed_amount,
        }
    }
}

/// Whether `text` is a root: 64 hexadecimal digits.
pub open spec fn is_root_text(text: Seq<char>) -> bool {
    exists|bytes: Seq<u8>| hex_decoding_exact(encode_utf8(text), 32, Ok(bytes))
}

impl StageView {
    /// A stage never pays out more than was committed to it, and its root
    /// is well formed.
    pub open spec fn wf(self) -> bool {
        self.claimed_amount <= self.total_amount && is_root_text(self.merkle_root)
    }

    /// Whether the start predicate is satisfied at `block`.
    pub open spec fn begun(self, block: BlockInfo) -> bool {
        match self.start {
            Some(start) => start.triggered(block),
            None => true,
        }
    }

    /// Where the stage stands at `block`.
    pub open spec fn phase(self, block: BlockInfo) -> StagePhase {
        if !self.begun(block) {
            StagePhase::NotYetOpen
        } else if self.expiration.expired(block) {
            StagePhase::Expired
        } else {
            StagePhase::Open
        }
    }

    /// What is left of the committed amount.
    pub open spec fn residual(self) -> int {
        self.total_amount - self.claimed_amount
    }

    /// The stage after `amount` more was claimed.
    pub open spec fn record_claim(self, amount: u128) -> StageView {
        StageView { claimed_amount: (self.claimed_amount + amount) as u128, ..self }
    }
}

impl Stage {
    /// Where the stage stands at `block`.
    pub fn phase(&self, block: &BlockInfo) -> (phase: StagePhase)
        ensures
            phase == self@.phase(*block),
    {
        let begun = match &self.start {
            Some(start) => start.is_triggered(block),
            None => true,
        };
        if !begun {
            StagePhase::NotYetOpen
        } else if self.expiration.is_expired(block) {
            StagePhase::Expired
        } else {
            StagePhase::Open
        }
    }
}

/// The stages, in the order in which they were registered. The first stage
/// has the number 1; a stage, once registered, stays.
#[derive(Clone, Debug, PartialEq, Eq)]
pub struct StageRegistry {
    pub stages: Vec<Stage>,
}

impl View for StageRegistry {
    type V = Seq<StageView>;

    open spec fn view(&self) -> Seq<StageView> {
        self.stages@.map_values(|stage: Stage| stage@)
    }
}

/// Whether every stage is well formed.
pub open spec fn stages_wf(stages: Seq<StageView>) -> bool {
    forall|i: int| 0 <= i < stages.len() ==> (#[trigger] stages[i]).wf()
}

/// Whether `id` is the number of a registered stage.
pub open spec fn stage_exists(stages: Seq<StageView>, id: u64) -> bool {
    1 <= id <= stages.len()
}

/// The stage with the number `id`.
pub open spec fn stage_at(stages: Seq<StageView>, id: u64) -> StageView
    recommends
        stage_exists(stages, id),
{
    stages[id - 1]
}

/// The whole state of the claim engine.
#[derive(Clone, Debug, PartialEq, Eq)]
pub struct Airdrop {
    pub config: Config,
    pub paused: bool,
    pub registry: StageRegistry,
    pub ledger: ClaimLedger,
}

pub struct AirdropView {
    pub config: ConfigView,
    pub paused: bool,
    pub stages: Seq<StageView>,
    pub ledger: LedgerView,
}

impl View for Airdrop {
    type V = AirdropView;

    open spec fn view(&self) -> AirdropView {
        AirdropView {
            config: self.config@,
            paused: self.paused,
            stages: self.registry@,
            ledger: self.ledger@,
        }
    }
}

impl AirdropView {
    /// The engine has at least one stage, and every stage is well formed.
    pub open spec fn wf(self) -> bool {
        self.stages.len() >= 1 && self.stages.len() <= u64::MAX && stages_wf(self.stages)
    }

    /// The number of the stage that claims go to: the last one registered.
    pub open spec fn latest_stage(self) -> u64 {
        self.stages.len() as u64
    }

    /// The stage that claims go to.
    pub open spec fn current(self) -> StageView {
        self.stages[self.stages.len() - 1]
    }

    /// Whether `sender` is the owner.
    pub open spec fn is_owner(self, sender: Seq<char>) -> bool {
        self.config.owner == Some(sender)
    }
}

} // verus!
