//! Binding a foreign identity to the calling account: the claimant signs a
//! message that names the account, and the signature is checked against
//! the identity.

use crate::error::{ContractError, ContractErrorView};
use crate::hexcode::{decode_hex, hex_bytes, is_hex_string};
use crate::state::Config;
use crate::text::{contains_text, replace_all, text_contains, text_replace};
use vstd::prelude::*;
use vstd::string::StringExecFns;
use vstd::utf8::encode_utf8;

verus! {

/// The longest message template that is accepted, in bytes.
pub const MAX_PLAINTEXT_LEN: usize = 1000;

/// What checking an Ethereum text signature gives: whether `signature`
/// was made over `message` by the key behind the address `signer`, or the
/// reason why the check could not be carried out.
pub uninterp spec fn ethereum_text_verdict(
    message: Seq<char>,
    signature: Seq<u8>,
    signer: Seq<char>,
) -> Result<bool, Seq<char>>;

/// Calls `ethereum_verify::verify_ethereum_text`. That function asks for
/// the host's interface; it is given the one that `cosmwasm_std` has for
/// native code (`testing::mock_dependencies`), whose secp256k1 routines
/// are those of `cosmwasm_crypto`. `cosmwasm_std` leaves that interface
/// out of builds for `wasm32`, so this function, and with it
/// `bind_identity` and what calls it, is for native builds; a contract on
/// a `wasm32` host runs the check with the host's own interface and hands
/// the outcome to `settle_binding`.
/// The outcome depends on the three arguments alone and is given the name
/// `ethereum_text_verdict`; an error is handed on as its text.
#[verifier::external_body]
pub(crate) fn verify_ethereum_text(message: &str, signature: &[u8], signer: &str) -> (r: Result<
    bool,
    String,
>)
    ensures
        match r {
            Ok(valid) => ethereum_text_verdict(message@, signature@, signer@) == Ok::<
                bool,
                Seq<char>,
            >(valid),
            Err(reason) => ethereum_text_verdict(message@, signature@, signer@) == Err::<
                bool,
                Seq<char>,
            >(reason@),
        },
{
    let deps = cosmwasm_std::testing::mock_dependencies();
    match ethereum_verify::verify_ethereum_text(deps.as_ref(), message, signature, signer) {
        Ok(valid) => Ok(valid),
        Err(e) => Err(e.to_string()),
    }
}

/// The placeholder for the claimant's account in a message template.
pub open spec fn wallet_token() -> Seq<char> {
    "{wallet}"@
}

/// The message that the account `sender` has to sign: the template with
/// every `{wallet}` replaced by the account.
pub open spec fn plaintext_msg(template: Seq<char>, sender: Seq<char>) -> Seq<char> {
    replace_all(template, wallet_token(), sender)
}

/// The text of a decode error for the signature `eth_sig`.
pub open spec fn decode_error_text(eth_sig: Seq<char>) -> Seq<char> {
    "Could not decode "@ + eth_sig
}

/// The outcome of the identity binding, given the verdict on the
/// signature: a signature that is not hexadecimal is an error of its own,
/// and is never taken for a signature that does not bind.
pub open spec fn identity_binding_with(
    eth_sig: Seq<char>,
    verdict: Result<bool, Seq<char>>,
) -> Result<bool, ContractErrorView> {
    if !is_hex_string(encode_utf8(eth_sig)) {
        Err(ContractErrorView::InvalidHex { msg: decode_error_text(eth_sig) })
    } else {
        match verdict {
            Ok(valid) => Ok(valid),
            Err(reason) => Err(ContractErrorView::Std { msg: reason }),
        }
    }
}

/// The outcome of the identity binding for the account `sender`, the
/// identity `eth_pubkey` and the signature `eth_sig`.
pub open spec fn identity_binding(
    template: Seq<char>,
    sender: Seq<char>,
    eth_sig: Seq<char>,
    eth_pubkey: Seq<char>,
) -> Result<bool, ContractErrorView> {
    identity_binding_with(
        eth_sig,
        ethereum_text_verdict(
            plaintext_msg(template, sender),
            hex_bytes(encode_utf8(eth_sig)),
            eth_pubkey,
        ),
    )
}

/// A verdict with its reason viewed.
pub open spec fn verdict_view(verdict: Result<bool, String>) -> Result<bool, Seq<char>> {
    match verdict {
        Ok(valid) => Ok(valid),
        Err(reason) => Err(reason@),
    }
}

/// A binding outcome with its error viewed.
pub open spec fn binding_view(binding: Result<bool, ContractError>) -> Result<
    bool,
    ContractErrorView,
> {
    match binding {
        Ok(valid) => Ok(valid),
        Err(e) => Err(e@),
    }
}

/// A check's outcome with its error viewed.
pub open spec fn check_view(outcome: Result<(), ContractError>) -> Result<(), ContractErrorView> {
    match outcome {
        Ok(()) => Ok(()),
        Err(e) => Err(e@),
    }
}

/// What the binding outcome means for the claim: go on, or reject. A
/// signature that does not bind makes the identity not eligible.
pub open spec fn binding_check(
    binding: Result<bool, ContractErrorView>,
    eth_pubkey: Seq<char>,
) -> Result<(), ContractErrorView> {
    match binding {
        Ok(true) => Ok(()),
        Ok(false) => Err(ContractErrorView::AddressNotEligible { address: eth_pubkey }),
        Err(e) => Err(e),
    }
}

/// What `validate_plaintext_msg` says of a template.
pub open spec fn plaintext_msg_check(template: Seq<char>) -> Result<(), ContractErrorView> {
    if !contains_text(template, wallet_token()) {
        Err(ContractErrorView::PlaintextMsgNoWallet)
    } else if encode_utf8(template).len() > MAX_PLAINTEXT_LEN {
        Err(ContractErrorView::PlaintextTooLong)
    } else {
        Ok(())
    }
}

/// Checks a message template: it must hold `{wallet}` and be at most 1000
/// bytes long.
pub fn validate_plaintext_msg(plaintext_msg: String) -> (r: Result<(), ContractError>)
    ensures
        check_view(r) == plaintext_msg_check(plaintext_msg@),
{
    if !text_contains(plaintext_msg.as_str(), "{wallet}") {
        return Err(ContractError::PlaintextMsgNoWallet {  });
    }
    if plaintext_msg.as_str().as_bytes().len() > MAX_PLAINTEXT_LEN {
        return Err(ContractError::PlaintextTooLong {  });
    }
    Ok(())
}

/// The message that the account `sender` has to sign.
pub fn compute_plaintext_msg(config: &Config, sender: &str) -> (msg: String)
    ensures
        msg@ == plaintext_msg(config@.claim_msg_plaintext, sender@),
{
    text_replace(config.claim_msg_plaintext.as_str(), "{wallet}", sender)
}

/// Decodes a signature from its hexadecimal text. A text that is not
/// hexadecimal gives a decode error that names the text.
pub fn decode_signature(eth_sig: &str) -> (r: Result<Vec<u8>, ContractError>)
    ensures
        match r {
            Ok(signature) => is_hex_string(encode_utf8(eth_sig@)) && signature@ == hex_bytes(
                encode_utf8(eth_sig@),
            ),
            Err(e) => !is_hex_string(encode_utf8(eth_sig@)) && e@ == (
            ContractErrorView::InvalidHex { msg: decode_error_text(eth_sig@) }),
        },
{
    match decode_hex(eth_sig) {
        Ok(signature) => Ok(signature),
        Err(_) => Err(
            ContractError::InvalidHex { msg: String::from_str("Could not decode ").concat(eth_sig) },
        ),
    }
}

/// Runs the identity binding for a message template: builds the message,
/// decodes the signature and has it checked against the identity.
pub fn bind_identity(template: &str, sender: &str, eth_sig: &str, eth_pubkey: &str) -> (r: Result<
    bool,
    ContractError,
>)
    ensures
        binding_view(r) == identity_binding(template@, sender@, eth_sig@, eth_pubkey@),
{
    let plaintext = text_replace(template, "{wallet}", sender);
    match decode_signature(eth_sig) {
        Ok(signature) => {
            let verdict = verify_ethereum_text(
                plaintext.as_str(),
                signature.as_slice(),
                eth_pubkey,
            );
            settle_decoded(eth_sig, verdict)
        },
        Err(e) => Err(e),
    }
}

/// Runs the identity binding with the template of the configuration.
pub fn validate_ethereum_text(sender: &str, config: &Config, eth_sig: &str, eth_pubkey: &str) -> (r:
    Result<bool, ContractError>)
    ensures
        binding_view(r) == identity_binding(
            config@.claim_msg_plaintext,
            sender@,
            eth_sig@,
            eth_pubkey@,
        ),
{
    bind_identity(config.claim_msg_plaintext.as_str(), sender, eth_sig, eth_pubkey)
}

/// The binding outcome for a signature that has been decoded, given the
/// verdict on it.
fn settle_decoded(eth_sig: &str, verdict: Result<bool, String>) -> (r: Result<bool, ContractError>)
    requires
        is_hex_string(encode_utf8(eth_sig@)),
    ensures
        binding_view(r) == identity_binding_with(eth_sig@, verdict_view(verdict)),
{
    match verdict {
        Ok(valid) => Ok(valid),
        Err(reason) => Err(ContractError::Std { msg: reason }),
    }
}

/// The binding outcome for the signature `eth_sig`, given the verdict of
/// whoever checked it: a signature that is not hexadecimal is a decode
/// error whatever the verdict says; else the verdict stands, and a check
/// that could not be carried out is an error with its reason.
pub fn settle_binding(eth_sig: &str, verdict: Result<bool, String>) -> (r: Result<
    bool,
    ContractError,
>)
    ensures
        binding_view(r) == identity_binding_with(eth_sig@, verdict_view(verdict)),
{
    match decode_signature(eth_sig) {
        Ok(_) => settle_decoded(eth_sig, verdict),
        Err(e) => Err(e),
    }
}

/// Rejects the claim unless the binding holds.
pub fn validate_eth_sig(binding: Result<bool, ContractError>, eth_pubkey: &str) -> (r: Result<
    (),
    ContractError,
>)
    ensures
        check_view(r) == binding_check(binding_view(binding), eth_pubkey@),
{
    match binding {
        Ok(true) => Ok(()),
        Ok(false) => Err(ContractError::AddressNotEligible { address: String::from_str(eth_pubkey) }),
        Err(e) => Err(e),
    }
}

/// Checks that `eth_sig` binds the identity `eth_pubkey` to the account
/// `sender`.
pub fn validate_claim(sender: &str, eth_pubkey: &str, eth_sig: &str, config: &Config) -> (r: Result<
    (),
    ContractError,
>)
    ensures
        check_view(r) == binding_check(
            identity_binding(config@.claim_msg_plaintext, sender@, eth_sig@, eth_pubkey@),
            eth_pubkey@,
        ),
{
    let binding = validate_ethereum_text(sender, config, eth_sig, eth_pubkey);
    validate_eth_sig(binding, eth_pubkey)
}

} // verus!
