//! What an operation hands back for the host to carry out.

use crate::goop::msg::{member_views, Member, MemberView};
use crate::text::texts;
use vstd::prelude::*;

verus! {

/// An instruction for the host. The engine computes amounts; moving the
/// funds is the host's work.
#[derive(Clone, Debug, PartialEq, Eq)]
pub enum Instruction {
    /// Pay `amount` to the account `to_address`.
    Transfer { to_address: String, amount: u128 },
    /// Recycle the unclaimed residue `amount`; `recipient` is the account
    /// that the owner named for it, if any.
    ClawBack { recipient: Option<String>, amount: u128 },
    /// Have the registry at `contract_addr` add `to_add` to its list.
    AddMembers { contract_addr: String, to_add: Vec<Member> },
    /// Set up a registry from the code `code_id`, administered by `admin`,
    /// and report its address under `reply_id`.
    InstantiateRegistry {
        code_id: u64,
        admin: String,
        label: String,
        reply_id: u64,
        members: Vec<Member>,
        claim_limit: u32,
        admins: Vec<String>,
        admins_mutable: bool,
    },
}

pub enum InstructionView {
    Transfer { to_address: Seq<char>, amount: u128 },
    ClawBack { recipient: Option<Seq<char>>, amount: u128 },
    AddMembers { contract_addr: Seq<char>, to_add: Seq<MemberView> },
    InstantiateRegistry {
        code_id: u64,
        admin: Seq<char>,
        label: Seq<char>,
        reply_id: u64,
        members: Seq<MemberView>,
        claim_limit: u32,
        admins: Seq<Seq<char>>,
        admins_mutable: bool,
    },
}

/// An optional text, viewed.
pub open spec fn text_view(text: Option<String>) -> Option<Seq<char>> {
    match text {
        Some(t) => Some(t@),
        None => None,
    }
}

impl View for Instruction {
    type V = InstructionView;

    open spec fn view(&self) -> InstructionView {
        match self {
            Instruction::Transfer { to_address, amount } => InstructionView::Transfer {
                to_address: to_address@,
                amount: *amount,
            },
            Instruction::ClawBack { recipient, amount } => InstructionView::ClawBack {
                recipient: text_view(*recipient),
                amount: *amount,
            },
            Instruction::AddMembers { contract_addr, to_add } => InstructionView::AddMembers {
                contract_addr: contract_addr@,
                to_add: member_views(to_add@),
            },
            Instruction::InstantiateRegistry {
                code_id,
                admin,
                label,
                reply_id,
                members,
                claim_limit,
                admins,
                admins_mutable,
            } => InstructionView::InstantiateRegistry {
                code_id: *code_id,
                admin: admin@,
                label: label@,
                reply_id: *reply_id,
                members: member_views(members@),
                claim_limit: *claim_limit,
                admins: texts(admins@),
                admins_mutable: *admins_mutable,
            },
        }
    }
}

/// The outcome of an accepted operation: the instructions to carry out, in
/// order.
#[derive(Clone, Debug, PartialEq, Eq)]
pub struct Response {
    pub messages: Vec<Instruction>,
}

impl View for Response {
    type V = Seq<InstructionView>;

    open spec fn view(&self) -> Seq<InstructionView> {
        self.messages@.map_values(|m: Instruction| m@)
    }
}

impl Response {
    /// A response without instructions.
    pub fn new() -> (response: Response)
        ensures
            response@ == Seq::<InstructionView>::empty(),
    {
        let response = Response { messages: Vec::new() };
        assert(response@ =~= Seq::<InstructionView>::empty());
        response
    }

    /// The response with one more instruction at its end.
    pub fn add_message(self, message: Instruction) -> (response: Response)
        ensures
            response@ == self@.push(message@),
    {
        let mut messages = self.messages;
        messages.push(message);
        let response = Response { messages };
        assert(response@ =~= self@.push(message@));
        response
    }
}

} // verus!
