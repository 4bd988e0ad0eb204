//! The stage registry: registering a stage, reading one, and counting a
//! claim against one.

use crate::error::{ContractError, ContractErrorView};
use crate::hexcode::{decode_hex_32, decoded_exact, lemma_decoded_exact, HexError};
use crate::state::{
    is_root_text, stage_at, stage_exists, stages_wf, Expiration, Scheduled, Stage, StageRegistry,
    StageView,
};
use vstd::prelude::*;
use vstd::utf8::encode_utf8;

verus! {

/// A stage as it is registered: nothing claimed yet.
pub open spec fn fresh_stage(
    merkle_root: Seq<char>,
    start: Option<Scheduled>,
    expiration: Expiration,
    total_amount: u128,
) -> StageView {
    StageView { merkle_root, start, expiration, total_amount, claimed_amount: 0 }
}

/// Why a claim of `amount` cannot be counted against the stage `id`, if
/// it cannot.
pub open spec fn record_claim_check(stages: Seq<StageView>, id: u64, amount: u128) -> Result<
    (),
    ContractErrorView,
> {
    if !stage_exists(stages, id) {
        Err(ContractErrorView::StageNotFound { stage: id })
    } else if amount > stage_at(stages, id).residual() {
        Err(
            ContractErrorView::TotalExceeded {
                stage: id,
                residual: stage_at(stages, id).residual() as u128,
            },
        )
    } else {
        Ok(())
    }
}

/// The stages after a claim of `amount` was counted against the stage `id`.
pub open spec fn record_claim_effect(stages: Seq<StageView>, id: u64, amount: u128) -> Seq<
    StageView,
> {
    stages.update(id - 1, stage_at(stages, id).record_claim(amount))
}

/// A text that decodes to 32 bytes is a root.
pub proof fn lemma_root_text(text: Seq<char>)
    ensures
        is_root_text(text) <==> decoded_exact(encode_utf8(text), 32) is Ok,
{
    if is_root_text(text) {
        let bytes = choose|bytes: Seq<u8>|
            crate::hexcode::hex_decoding_exact(encode_utf8(text), 32, Ok(bytes));
        lemma_decoded_exact(encode_utf8(text), 32, Ok(bytes));
    }
    if decoded_exact(encode_utf8(text), 32) is Ok {
        let bytes = decoded_exact(encode_utf8(text), 32)->Ok_0;
        assert(crate::hexcode::hex_decoding_exact(encode_utf8(text), 32, Ok(bytes)));
    }
}

/// Decodes a root or a proof sibling: 64 hexadecimal digits.
pub fn decode_digest(text: &str) -> (r: Result<[u8; 32], HexError>)
    ensures
        match r {
            Ok(bytes) => decoded_exact(encode_utf8(text@), 32) == Ok::<Seq<u8>, HexError>(bytes@),
            Err(e) => decoded_exact(encode_utf8(text@), 32) == Err::<Seq<u8>, HexError>(e),
        },
{
    let r = decode_hex_32(text);
    proof {
        match r {
            Ok(bytes) => lemma_decoded_exact(encode_utf8(text@), 32, Ok(bytes@)),
            Err(e) => lemma_decoded_exact(encode_utf8(text@), 32, Err(e)),
        }
    }
    r
}

impl StageRegistry {
    /// A registry without stages.
    pub fn new() -> (registry: StageRegistry)
        ensures
            registry@ == Seq::<StageView>::empty(),
    {
        let registry = StageRegistry { stages: Vec::new() };
        assert(registry@ =~= Seq::<StageView>::empty());
        registry
    }

    /// The number of the stage registered last; 0 if there is none.
    pub fn latest_stage(&self) -> (id: u64)
        requires
            self@.len() <= u64::MAX,
        ensures
            id == self@.len(),
    {
        self.stages.len() as u64
    }

    /// Registers a stage and gives its number, one more than the number of
    /// the stage before. A root that is not 64 hexadecimal digits is
    /// rejected, and nothing is registered.
    pub fn register_stage(
        &mut self,
        merkle_root: String,
        start: Option<Scheduled>,
        expiration: Expiration,
        total_amount: u128,
    ) -> (r: Result<u64, ContractError>)
        requires
            stages_wf(old(self)@),
            old(self)@.len() < u64::MAX,
        ensures
            stages_wf(final(self)@),
            match r {
                Ok(id) => {
                    &&& is_root_text(merkle_root@)
                    &&& id == old(self)@.len() + 1
                    &&& final(self)@ == old(self)@.push(
                        fresh_stage(merkle_root@, start, expiration, total_amount),
                    )
                },
                Err(e) => {
                    &&& decoded_exact(encode_utf8(merkle_root@), 32) is Err
                    &&& e@ == ContractErrorView::Hex(
                        decoded_exact(encode_utf8(merkle_root@), 32)->Err_0,
                    )
                    &&& final(self)@ == old(self)@
                },
            },
    {
        proof {
            lemma_root_text(merkle_root@);
        }
        match decode_digest(merkle_root.as_str()) {
            Ok(_) => {},
            Err(e) => {
                return Err(ContractError::Hex(e));
            },
        }
        let stage = Stage { merkle_root, start, expiration, total_amount, claimed_amount: 0 };
        assert(stage@ == fresh_stage(merkle_root@, start, expiration, total_amount));
        self.stages.push(stage);
        assert(self@ =~= old(self)@.push(stage@));
        Ok(self.stages.len() as u64)
    }

    /// The stage with the number `id`, if there is one.
    pub fn get_stage(&self, id: u64) -> (r: Option<&Stage>)
        ensures
            match r {
                Some(stage) => stage_exists(self@, id) && stage@ == stage_at(self@, id),
                None => !stage_exists(self@, id),
            },
    {
        if id == 0 || id as u128 > self.stages.len() as u128 {
            None
        } else {
            let index: usize = (id - 1) as usize;
            Some(&self.stages[index])
        }
    }

    /// Counts a claim of `amount` against the stage `id`. A claim that
    /// would take more than is left of the stage is rejected, so that a
    /// stage never pays out more than was committed to it.
    pub fn record_claim(&mut self, id: u64, amount: u128) -> (r: Result<(), ContractError>)
        requires
            stages_wf(old(self)@),
        ensures
            stages_wf(final(self)@),
            match r {
                Ok(()) => record_claim_check(old(self)@, id, amount) is Ok && final(self)@
                    == record_claim_effect(old(self)@, id, amount),
                Err(e) => record_claim_check(old(self)@, id, amount) == Err::<
                    (),
                    ContractErrorView,
                >(e@) && final(self)@ == old(self)@,
            },
    {
        if id == 0 || id as u128 > self.stages.len() as u128 {
            return Err(ContractError::StageNotFound { stage: id });
        }
        let index: usize = (id - 1) as usize;
        let stage = &self.stages[index];
        assert(stage@ == old(self)@[index as int]);
        assert(old(self)@[index as int].wf());
        let residual: u128 = stage.total_amount - stage.claimed_amount;
        if amount > residual {
            return Err(ContractError::TotalExceeded { stage: id, residual });
        }
        let updated = Stage {
            merkle_root: stage.merkle_root.clone(),
            start: stage.start,
            expiration: stage.expiration,
            total_amount: stage.total_amount,
            claimed_amount: stage.claimed_amount + amount,
        };
        assert(updated@ == stage_at(old(self)@, id).record_claim(amount));
        self.stages.set(index, updated);
        assert(self@ =~= record_claim_effect(old(self)@, id, amount));
        Ok(())
    }
}

} // verus!
