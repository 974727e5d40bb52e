use crate::account::Identifier;
use vstd::prelude::*;

verus! {

/// The public half of one stored signing key: the account that it signs for, the key's text
/// and the store entry that it came from. The secret half stays with whoever signs.
#[derive(Debug, Clone, PartialEq, Eq)]
pub struct Credential {
    pub account_id: Identifier,
    pub public_key: String,
    pub path: String,
}

/// One account to remove, and the account that receives what it still holds.
#[derive(Debug, Clone, PartialEq, Eq)]
pub struct DeletionRequest {
    pub beneficiary: Identifier,
    pub credential: Credential,
}

/// What is signed and sent to remove an account: a transaction of the account to itself whose
/// single action deletes it in favour of the beneficiary.
#[derive(Debug, Clone, PartialEq, Eq)]
pub struct TransactionEnvelope {
    signer_id: String,
    public_key: String,
    nonce: u64,
    block_hash: [u8; 32],
    beneficiary_id: String,
}

/// A transaction envelope as plain values.
pub struct EnvelopeView {
    pub signer_id: Seq<char>,
    pub public_key: Seq<char>,
    pub nonce: u64,
    pub block_hash: Seq<u8>,
    pub receiver_id: Seq<char>,
    pub beneficiary_id: Seq<char>,
}

impl View for TransactionEnvelope {
    type V = EnvelopeView;

    closed spec fn view(&self) -> EnvelopeView {
        EnvelopeView {
            signer_id: self.signer_id@,
            public_key: self.public_key@,
            nonce: self.nonce,
            block_hash: self.block_hash@,
            receiver_id: self.signer_id@,
            beneficiary_id: self.beneficiary_id@,
        }
    }
}

/// The envelope that removes the account of `request`: signed by that account with its key,
/// addressed to that account, and naming the beneficiary of `request`.
pub open spec fn deletion_envelope(request: DeletionRequest, nonce: u64, block_hash: Seq<u8>) -> EnvelopeView {
    EnvelopeView {
        signer_id: request.credential.account_id@,
        public_key: request.credential.public_key@,
        nonce,
        block_hash,
        receiver_id: request.credential.account_id@,
        beneficiary_id: request.beneficiary@,
    }
}

impl TransactionEnvelope {
    /// Builds the envelope that removes the account of `request`, with the given nonce, on top
    /// of the block with the given hash.
    pub fn delete_account(request: &DeletionRequest, nonce: u64, block_hash: [u8; 32]) -> (envelope: TransactionEnvelope)
        ensures
            envelope@ == deletion_envelope(*request, nonce, block_hash@),
    {
        TransactionEnvelope {
            signer_id: String::from_str(request.credential.account_id.as_str()),
            public_key: request.credential.public_key.clone(),
            nonce,
            block_hash,
            beneficiary_id: String::from_str(request.beneficiary.as_str()),
        }
    }

    /// The account that signs.
    pub fn signer_id(&self) -> (text: &str)
        ensures
            text@ == self@.signer_id,
    {
        self.signer_id.as_str()
    }

    /// The text of the key that signs.
    pub fn public_key(&self) -> (text: &str)
        ensures
            text@ == self@.public_key,
    {
        self.public_key.as_str()
    }

    /// The nonce of the transaction.
    pub fn nonce(&self) -> (nonce: u64)
        ensures
            nonce == self@.nonce,
    {
        self.nonce
    }

    /// The hash of the block that the transaction builds on.
    pub fn block_hash(&self) -> (hash: [u8; 32])
        ensures
            hash@ == self@.block_hash,
    {
        self.block_hash
    }

    /// The account that receives the transaction: the signer itself.
    pub fn receiver_id(&self) -> (text: &str)
        ensures
            text@ == self@.receiver_id,
            text@ == self@.signer_id,
    {
        self.signer_id.as_str()
    }

    /// The account that receives what the deleted account still holds.
    pub fn beneficiary_id(&self) -> (text: &str)
        ensures
            text@ == self@.beneficiary_id,
    {
        self.beneficiary_id.as_str()
    }
}

} // verus!
