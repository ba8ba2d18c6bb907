//! The transaction model: transfers, rewards, the closed sum type over
//! them, and the signing and validation routines.
//!
//! Validation is a pure, total decision: malformed input is simply
//! invalid, never a panic. Signing returns an explicit error on a
//! malformed key. The exact meaning of validity is the spec function
//! `spec_valid`, which both the signing and validation contracts share.

use vstd::prelude::*;
use crate::MINER_REWARD;
use crate::canon::transfer_digest;
use crate::canon::digest_bytes;
use crate::crypto::ed25519_accepts;
use crate::crypto::ed25519_sig;
use crate::crypto::ed25519_sign;
use crate::crypto::ed25519_public_key;
use crate::crypto::ed25519_verify;
use crate::crypto::pkcs8_ok;
use crate::crypto::pkcs8_public_key;
use crate::hexcode::hex_bytes;
use crate::hexcode::hex_decode;
use crate::hexcode::hex_encode;
use crate::hexcode::hex_encode_text;
use crate::hexcode::hex_ok;
use crate::hexcode::lemma_hex_round_trip;
use crate::ident::fresh_id;
use crate::ident::is_id_text;
use crate::ident::parse_id;
use crate::ident::parsed_id;

verus! {

/// A failure that construction or signing reports to the caller.
#[derive(Clone, Copy, Debug, PartialEq, Eq)]
pub enum TxError {
    /// The external id string is not a well-formed identifier.
    InvalidIdentifier,
    /// The supplied private key bytes are not a well-formed key document.
    InvalidKey,
}

/// A signed, peer-to-peer value movement. `sender` is the hex-encoded
/// Ed25519 public key of the paying account, `signature` the hex-encoded
/// Ed25519 signature over the canonical digest of the other fields.
#[derive(Clone, Debug, PartialEq, Eq)]
pub struct Transfer {
    pub id: String,
    pub amount: u64,
    pub sender: String,
    pub recipient: String,
    pub signature: String,
}

/// A protocol-issued, unsigned value creation with the fixed amount.
#[derive(Clone, Debug, PartialEq, Eq)]
pub struct Reward {
    pub id: String,
    pub recipient: String,
    pub amount: u64,
}

/// The closed sum of the two transaction kinds.
#[derive(Clone, Debug, PartialEq, Eq)]
pub enum Transaction {
    Transfer(Transfer),
    Reward(Reward),
}

/// A transfer record as an outside collaborator hands it in; its id is
/// still unchecked text.
#[derive(Clone, Debug, PartialEq, Eq)]
pub struct WireTransfer {
    pub id: String,
    pub amount: u64,
    pub sender: String,
    pub recipient: String,
    pub signature: String,
}

/// Validity of a transfer: sender and signature decode from hex, and the
/// decoded signature is accepted over the canonical digest of the stored
/// fields under the decoded sender key.
pub open spec fn transfer_valid(t: Transfer) -> bool {
    &&& hex_ok(t.sender@)
    &&& hex_ok(t.signature@)
    &&& ed25519_accepts(
        hex_bytes(t.sender@),
        transfer_digest(t.id@, t.sender@, t.recipient@, t.amount),
        hex_bytes(t.signature@),
    )
}

/// Validity of a transaction: transfers by signature, rewards by the
/// fixed amount.
pub open spec fn spec_valid(t: Transaction) -> bool {
    match t {
        Transaction::Transfer(transfer) => transfer_valid(transfer),
        Transaction::Reward(reward) => reward.amount == MINER_REWARD,
    }
}

impl Transfer {
    /// Converts an inbound wire record, requiring its id to be a
    /// well-formed identifier; the id is stored in canonical text, the
    /// other fields unchanged.
    pub fn from_wire(wire: WireTransfer) -> (r: Result<Transfer, TxError>)
        ensures
            (r is Ok) <==> (parsed_id(wire.id@) is Some),
            r matches Ok(t) ==> parsed_id(wire.id@) == Some(t.id@) && is_id_text(t.id@),
            r matches Ok(t) ==> t.amount == wire.amount && t.sender@ == wire.sender@
                && t.recipient@ == wire.recipient@ && t.signature@ == wire.signature@,
            r matches Ok(t) ==> (is_id_text(wire.id@) ==> t.id@ == wire.id@),
            r matches Err(e) ==> e == TxError::InvalidIdentifier && !is_id_text(wire.id@),
    {
        match parse_id(wire.id.as_str()) {
            Some(id) => Ok(Transfer {
                id,
                amount: wire.amount,
                sender: wire.sender,
                recipient: wire.recipient,
                signature: wire.signature,
            }),
            None => Err(TxError::InvalidIdentifier),
        }
    }
}

impl Transaction {
    /// Creates a transfer with a fresh identifier and signs it: the
    /// signature field holds the hex of the Ed25519 signature over the
    /// canonical digest of the other fields. When the sender text is the
    /// hex of the key's own public key, the result validates.
    pub fn transfer(
        sender: &str,
        recipient: &str,
        amount: u64,
        private_key: &[u8],
    ) -> (r: Result<Transaction, TxError>)
        ensures
            (r is Ok) <==> pkcs8_ok(private_key@),
            r matches Ok(t) ==> (t matches Transaction::Transfer(tr)
                && is_id_text(tr.id@)
                && tr.sender@ == sender@
                && tr.recipient@ == recipient@
                && tr.amount == amount
                && tr.signature@ == hex_encode_text(
                    ed25519_sig(
                        private_key@,
                        transfer_digest(tr.id@, sender@, recipient@, amount),
                    ),
                )),
            r matches Ok(t) ==> (sender@ == hex_encode_text(pkcs8_public_key(private_key@))
                ==> spec_valid(t)),
            r matches Err(e) ==> e == TxError::InvalidKey && !pkcs8_ok(private_key@),
    {
        let id = fresh_id();
        let digest = digest_bytes(id.as_str(), sender, recipient, amount);
        match ed25519_sign(private_key, digest.as_slice()) {
            Some(sig) => {
                let signature = hex_encode(sig.as_slice());
                proof {
                    lemma_hex_round_trip(sig@);
                    if sender@ == hex_encode_text(pkcs8_public_key(private_key@)) {
                        lemma_hex_round_trip(pkcs8_public_key(private_key@));
                    }
                }
                Ok(Transaction::Transfer(Transfer {
                    id,
                    amount,
                    sender: String::from_str(sender),
                    recipient: String::from_str(recipient),
                    signature,
                }))
            },
            None => Err(TxError::InvalidKey),
        }
    }

    /// Creates a reward of the fixed amount with a fresh identifier; the
    /// result always validates.
    pub fn reward(recipient: String) -> (r: Transaction)
        ensures
            r matches Transaction::Reward(rw) && is_id_text(rw.id@)
                && rw.recipient@ == recipient@ && rw.amount == MINER_REWARD,
            spec_valid(r),
    {
        Transaction::Reward(Reward { id: fresh_id(), recipient, amount: MINER_REWARD })
    }

    /// Decides validity; total, and exactly `spec_valid`.
    pub fn is_valid(&self) -> (r: bool)
        ensures
            r == spec_valid(*self),
    {
        match self {
            Transaction::Transfer(transfer) => Transaction::is_valid_transfer(transfer),
            Transaction::Reward(reward) => reward.amount == MINER_REWARD,
        }
    }

    /// Checks a transfer's stored signature over the recomputed digest;
    /// a sender or signature that is not hex makes it invalid, never a
    /// panic.
    fn is_valid_transfer(transfer: &Transfer) -> (r: bool)
        ensures
            r == transfer_valid(*transfer),
    {
        let public_key = match hex_decode(transfer.sender.as_str()) {
            Some(b) => b,
            None => { return false; },
        };
        let signature = match hex_decode(transfer.signature.as_str()) {
            Some(b) => b,
            None => { return false; },
        };
        let message = Transaction::transfer_hash(transfer);
        ed25519_verify(public_key.as_slice(), message.as_slice(), signature.as_slice())
    }

    /// The canonical digest of a transfer's signed fields; the signature
    /// field plays no part in it.
    pub fn transfer_hash(transfer: &Transfer) -> (r: Vec<u8>)
        ensures
            r@ == transfer_digest(transfer.id@, transfer.sender@, transfer.recipient@,
                transfer.amount),
            r@.len() == 64,
    {
        digest_bytes(
            transfer.id.as_str(),
            transfer.sender.as_str(),
            transfer.recipient.as_str(),
            transfer.amount,
        )
    }
}

/// The account text belonging to a private key document: the lowercase
/// hex of its Ed25519 public key, usable as a transfer's sender.
pub fn sender_address(private_key: &[u8]) -> (r: Option<String>)
    ensures
        (r is Some) <==> pkcs8_ok(private_key@),
        r matches Some(s) ==> s@ == hex_encode_text(pkcs8_public_key(private_key@)),
{
    match ed25519_public_key(private_key) {
        Some(pk) => Some(hex_encode(pk.as_slice())),
        None => None,
    }
}

/// Digest determinism: transactions that agree on the signed fields
/// `{id, sender, recipient, amount}` have the same canonical digest,
/// whatever their signature fields hold.
pub proof fn lemma_digest_deterministic(a: Transfer, b: Transfer)
    requires
        a.id@ == b.id@,
        a.sender@ == b.sender@,
        a.recipient@ == b.recipient@,
        a.amount == b.amount,
    ensures
        transfer_digest(a.id@, a.sender@, a.recipient@, a.amount)
            == transfer_digest(b.id@, b.sender@, b.recipient@, b.amount),
{
}

/// Reward validity: a reward is valid exactly when its amount is the
/// protocol's fixed reward constant.
pub proof fn lemma_reward_validity(reward: Reward)
    ensures
        spec_valid(Transaction::Reward(reward)) <==> reward.amount == MINER_REWARD,
{
}

/// The non-cryptographic half of tamper detection: altering any single
/// one of the signed fields `{id, sender, recipient, amount}` of a
/// transfer changes the canonical text, so validation recomputes the
/// digest of a different message than the one that was signed. That the
/// stored signature is then rejected is the signature scheme's part.
pub proof fn lemma_tampered_field_changes_message(a: Transfer, b: Transfer)
    requires
        ({
            ||| (a.amount != b.amount && a.id@ == b.id@ && a.sender@ == b.sender@
                && a.recipient@ == b.recipient@)
            ||| (a.id@ != b.id@ && a.amount == b.amount && a.sender@ == b.sender@
                && a.recipient@ == b.recipient@)
            ||| (a.sender@ != b.sender@ && a.amount == b.amount && a.id@ == b.id@
                && a.recipient@ == b.recipient@)
            ||| (a.recipient@ != b.recipient@ && a.amount == b.amount && a.id@ == b.id@
                && a.sender@ == b.sender@)
        }),
    ensures
        crate::canon::canonical_text(a.id@, a.sender@, a.recipient@, a.amount)
            != crate::canon::canonical_text(b.id@, b.sender@, b.recipient@, b.amount),
{
    if a.amount != b.amount && a.id@ == b.id@ && a.sender@ == b.sender@
        && a.recipient@ == b.recipient@ {
        crate::canon::lemma_canonical_text_amount_injective(
            a.id@, a.sender@, a.recipient@, a.amount, b.amount);
    } else if a.id@ != b.id@ && a.amount == b.amount && a.sender@ == b.sender@
        && a.recipient@ == b.recipient@ {
        crate::canon::lemma_canonical_text_id_injective(
            a.id@, b.id@, a.sender@, a.recipient@, a.amount);
    } else if a.sender@ != b.sender@ && a.amount == b.amount && a.id@ == b.id@
        && a.recipient@ == b.recipient@ {
        crate::canon::lemma_canonical_text_sender_injective(
            a.id@, a.sender@, b.sender@, a.recipient@, a.amount);
    } else {
        crate::canon::lemma_canonical_text_recipient_injective(
            a.id@, a.sender@, a.recipient@, b.recipient@, a.amount);
    }
}

/// A transfer whose sender or signature is not well-formed hex is
/// invalid; decoding failure never goes further than that verdict.
pub proof fn lemma_malformed_hex_invalid(t: Transfer)
    requires
        !hex_ok(t.sender@) || !hex_ok(t.signature@),
    ensures
        !spec_valid(Transaction::Transfer(t)),
{
}

} // verus!
