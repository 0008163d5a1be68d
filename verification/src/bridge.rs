//! The data carried over the transaction-submission bridge.
//!
//! The consensus engine under test is opaque; the bridge forwards a
//! client's transaction into it and reports where the engine placed it.
//! The transport lives outside the crate; these are the values it moves
//! and the rule for shaping a response from a submission outcome.

use vstd::prelude::*;
use vstd::string::StringExecFns;

use base64::Engine;

verus! {

/// A transaction as submitted by a client.
#[derive(Debug, Clone)]
pub struct TransactionRequest {
    pub transaction: Vec<u8>,
}

/// Where the consensus engine placed a transaction.
#[derive(Debug, Clone, Copy, PartialEq, Eq, Structural)]
pub struct BlockRef {
    pub round: u64,
    pub authority: u32,
    pub sequence: u64,
}

/// The bridge's answer to one submission.
#[derive(Debug, Clone)]
pub struct TransactionResponse {
    pub success: bool,
    pub message: String,
    pub block_ref: Option<BlockRef>,
}

/// A snapshot of the engine's progress.
#[derive(Debug, Clone, Copy, PartialEq, Eq, Structural)]
pub struct ConsensusStatus {
    pub is_running: bool,
    pub current_round: u64,
    pub total_transactions: u64,
}

impl TransactionResponse {
    /// Shape the response from a submission outcome: acceptance carries
    /// the block placement, rejection carries the engine's message and
    /// no placement.
    pub fn from_submission(outcome: Result<BlockRef, String>) -> (r: Self)
        ensures
            r.success == outcome is Ok,
            outcome matches Ok(b) ==> r.block_ref == Some(b),
            outcome is Err ==> r.block_ref is None,
            outcome matches Err(m) ==> r.message == m,
    {
        match outcome {
            Ok(block_ref) => TransactionResponse {
                success: true,
                message: "Transaction accepted and forwarded to consensus".to_owned(),
                block_ref: Some(block_ref),
            },
            Err(message) => TransactionResponse { success: false, message, block_ref: None },
        }
    }
}

/// What a base64 text (standard alphabet) decodes to, when it is valid.
pub uninterp spec fn base64_decoded(s: Seq<char>) -> Option<Seq<u8>>;

/// Relies on base64's `Engine::decode` with the `STANDARD` engine: the
/// result is a function of the input text alone — the decoded bytes, or
/// a rejection of text that is not valid base64.
#[verifier::external_body]
fn decode_base64(s: &str) -> (r: Option<Vec<u8>>)
    ensures
        r is Some <==> base64_decoded(s@) is Some,
        r matches Some(v) ==> base64_decoded(s@) == Some(v@),
{
    base64::engine::general_purpose::STANDARD.decode(s).ok()
}

/// Decode the base64 transaction text of a submission body.
pub fn decode_transaction(transaction: &str) -> (r: Option<Vec<u8>>)
    ensures
        r is Some <==> base64_decoded(transaction@) is Some,
        r matches Some(v) ==> base64_decoded(transaction@) == Some(v@),
{
    decode_base64(transaction)
}

/// The submission endpoint's answer, decided from whether the
/// transaction text decoded and whether the decoded bytes could be
/// handed to the engine: a malformed body is the client's error, a
/// full forwarding channel is the server's, and anything else is
/// accepted.
pub fn broadcast_reply(decoded: bool, forwarded: bool) -> (r: (u16, bool, String))
    ensures
        !decoded ==> r.0 == 400 && !r.1 && r.2@ == "Invalid transaction format"@,
        decoded && !forwarded ==> r.0 == 500 && !r.1 && r.2@
            == "Failed to process transaction"@,
        decoded && forwarded ==> r.0 == 200 && r.1 && r.2@
            == "Transaction accepted and forwarded to ABCI"@,
{
    if !decoded {
        (400, false, "Invalid transaction format".to_owned())
    } else if !forwarded {
        (500, false, "Failed to process transaction".to_owned())
    } else {
        (200, true, "Transaction accepted and forwarded to ABCI".to_owned())
    }
}

} // verus!
