//! Synthetic load: transaction bodies, submission payloads and the
//! bookkeeping of how many submissions succeeded.
//!
//! The load driver submits `load × duration` fixed-size transactions,
//! base64-encoded inside a small JSON body, round-robin across the
//! fleet. The HTTP transport lives outside the crate; it receives the
//! payload and URL ready-made and reports back one boolean per
//! submission.

use vstd::prelude::*;
use vstd::string::StringExecFns;

use base64::Engine;

verus! {

/// The base64 text (standard alphabet, padded) of a byte sequence.
pub uninterp spec fn base64_std(data: Seq<u8>) -> Seq<char>;

/// Relies on base64's `Engine::encode` with the `STANDARD` engine: the
/// result is a function of the input bytes alone, four characters for
/// every started group of three bytes.
#[verifier::external_body]
fn encode_base64(data: &Vec<u8>) -> (r: String)
    ensures
        r@ == base64_std(data@),
        r@.len() == 4 * ((data@.len() + 2) / 3),
{
    base64::engine::general_purpose::STANDARD.encode(data)
}

/// The body of one transaction: `size` zero bytes, as the original
/// load generator submits.
pub fn transaction_data(size: usize) -> (r: Vec<u8>)
    ensures
        r@.len() == size,
        forall|i: int| 0 <= i < size ==> r@[i] == 0u8,
{
    let mut r: Vec<u8> = Vec::new();
    let mut i: usize = 0;
    while i < size
        invariant
            i <= size,
            r@.len() == i,
            forall|k: int| 0 <= k < i ==> r@[k] == 0u8,
        decreases size - i,
    {
        r.push(0u8);
        i = i + 1;
    }
    r
}

/// The exact JSON body submitting `data`: the transaction field holds
/// its base64 text.
pub open spec fn payload_spec(data: Seq<u8>) -> Seq<char> {
    "{\"transaction\":\""@ + base64_std(data) + "\"}"@
}

/// The JSON body posted to the submission endpoint for one transaction.
pub fn transaction_payload(data: &Vec<u8>) -> (r: String)
    ensures
        r@ == payload_spec(data@),
{
    let mut s = "{\"transaction\":\"".to_owned();
    let encoded = encode_base64(data);
    s.append(encoded.as_str());
    s.append("\"}");
    proof {
        assert(s@ =~= payload_spec(data@));
    }
    s
}

/// The pause between two submissions that approximates `rate`
/// transactions per second, in milliseconds, rounded down.
pub fn submission_delay_ms(rate: usize) -> (r: u64)
    requires
        rate > 0,
    ensures
        r == 1000nat / (rate as nat),
{
    (1000 / rate) as u64
}

/// Success and failure counts of one load drive.
#[derive(Debug, Clone, Copy, PartialEq, Eq, Structural)]
pub struct TransactionTally {
    pub successful: u64,
    pub failed: u64,
}

impl TransactionTally {
    /// Start counting.
    pub fn new() -> (r: Self)
        ensures
            r.successful == 0,
            r.failed == 0,
    {
        TransactionTally { successful: 0, failed: 0 }
    }

    /// Count one submission outcome.
    pub fn record(&mut self, success: bool)
        requires
            old(self).successful < u64::MAX,
            old(self).failed < u64::MAX,
        ensures
            final(self).successful == old(self).successful + if success {
                1int
            } else {
                0int
            },
            final(self).failed == old(self).failed + if success {
                0int
            } else {
                1int
            },
    {
        if success {
            self.successful = self.successful + 1;
        } else {
            self.failed = self.failed + 1;
        }
    }

    /// How many submissions were attempted.
    pub fn total(&self) -> (r: u64)
        requires
            self.successful + self.failed <= u64::MAX,
        ensures
            r == self.successful + self.failed,
    {
        self.successful + self.failed
    }

    /// The realized rate: successful submissions per elapsed second,
    /// rounded down; zero before any time has passed.
    pub fn realized_rate(&self, elapsed_secs: u64) -> (r: u64)
        ensures
            r == if elapsed_secs == 0 {
                0int
            } else {
                self.successful as int / elapsed_secs as int
            },
    {
        if elapsed_secs == 0 {
            0
        } else {
            self.successful / elapsed_secs
        }
    }
}

} // verus!
