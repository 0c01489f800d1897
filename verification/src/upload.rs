//! The upload of one frame: the key it is stored under, the request sent to
//! the storage service, and what is reported when the retries are over.

use crate::backoff::{JITTER_BASE_NANOS, JITTER_MAX_NANOS};
use crate::decimal::{
    decimal, digit_char, lemma_padded_decimal_value, padded_decimal, push_decimal,
};
use crate::error::SinkError;
use crate::put_object_handler::{HandlerView, PutObjectHandler};
use vstd::prelude::*;

verus! {

/// How many retries the upload of one frame is allowed.
pub const MAX_ATTEMPTS: usize = 5;

/// One image submitted for upload.
#[derive(Clone, Debug, PartialEq, Eq)]
pub struct Frame {
    /// The frame's place in the sequence of rendered frames, from one.
    pub sequence_number: u64,
    /// The frame's bytes, owned by the frame.
    pub bytes: Vec<u8>,
}

/// What is sent to the storage service to store one frame.
#[derive(Clone, Debug, PartialEq, Eq)]
pub struct UploadRequest {
    pub bucket: String,
    pub key: String,
    pub body: Vec<u8>,
}

/// The upload of one frame: its request, and the budget of retries.
#[derive(Clone, Debug, PartialEq, Eq)]
pub struct UploadTask {
    pub frame_num: u64,
    pub max_attempts: usize,
    pub request: UploadRequest,
}

/// The text `/frame`, which stands between prefix and number in a key.
pub open spec fn key_infix() -> Seq<char> {
    seq!['/', 'f', 'r', 'a', 'm', 'e']
}

/// The text `.png`, which ends a key.
pub open spec fn key_suffix() -> Seq<char> {
    seq!['.', 'p', 'n', 'g']
}

/// The key of frame `sequence_number` under `prefix`: the prefix, `/frame`,
/// the number in decimal with at least two digits, and `.png`.
pub open spec fn object_key(prefix: Seq<char>, sequence_number: nat) -> Seq<char> {
    prefix + key_infix() + padded_decimal(sequence_number, 2) + key_suffix()
}

/// A number of two or more digits is not padded.
proof fn lemma_two_digits(n: nat)
    requires
        n >= 10,
    ensures
        decimal(n).len() >= 2,
        padded_decimal(n, 2) == decimal(n),
{
    assert(decimal(n / 10).len() >= 1) by {
        if n / 10 >= 10 {
            assert(decimal(n / 10) == decimal(n / 10 / 10).push(digit_char(n / 10 % 10)));
        }
    }
}

/// Under one prefix, frames with different sequence numbers have different
/// keys: no object is stored over another frame's.
pub proof fn lemma_object_keys_differ(prefix: Seq<char>, first: nat, second: nat)
    requires
        first != second,
    ensures
        object_key(prefix, first) != object_key(prefix, second),
{
    let first_key = object_key(prefix, first);
    let second_key = object_key(prefix, second);
    if first_key == second_key {
        let start = prefix.len() + key_infix().len();
        let end = first_key.len() - key_suffix().len();
        assert(first_key.subrange(start as int, end as int) =~= padded_decimal(first, 2));
        assert(second_key.subrange(start as int, end as int) =~= padded_decimal(second, 2));
        lemma_padded_decimal_value(first, 2);
        lemma_padded_decimal_value(second, 2);
    }
}

/// Builds the key of a frame.
pub fn make_object_key(prefix: &str, sequence_number: u64) -> (key: String)
    ensures
        key@ == object_key(prefix@, sequence_number as nat),
{
    proof {
        reveal_strlit("/frame");
        reveal_strlit("0");
        reveal_strlit(".png");
    }
    let mut key: String = String::from_str(prefix);
    key.append("/frame");
    assert(key@ =~= prefix@ + key_infix());
    if sequence_number < 10 {
        key.append("0");
        assert("0"@ =~= Seq::new(1, |i: int| '0'));
    } else {
        proof {
            lemma_two_digits(sequence_number as nat);
        }
    }
    let ghost padding: Seq<char> = if sequence_number < 10 {
        "0"@
    } else {
        Seq::empty()
    };
    assert(key@ =~= prefix@ + key_infix() + padding);
    push_decimal(&mut key, sequence_number);
    assert(padding + decimal(sequence_number as nat) =~= padded_decimal(sequence_number as nat, 2));
    assert(key@ =~= prefix@ + key_infix() + padded_decimal(sequence_number as nat, 2));
    key.append(".png");
    assert(key@ =~= object_key(prefix@, sequence_number as nat));
    key
}

impl UploadTask {
    /// A fresh handler for the failed attempts of this upload, with the
    /// task's budget of retries. There is none where the operating system
    /// gives no seed for the handler's random numbers.
    pub fn handler(&self) -> (handler: Option<PutObjectHandler>)
        ensures
            handler matches Some(h) ==> h@ == (HandlerView {
                max_attempts: self.max_attempts as nat,
                frame_num: self.frame_num as nat,
                jitter_base: JITTER_BASE_NANOS as nat,
                jitter_max: JITTER_MAX_NANOS as nat,
            }),
    {
        PutObjectHandler::new(self.max_attempts, self.frame_num)
    }

    /// What the sink reports for the frame once the retry driver is done:
    /// success as it is, a failure as the exhaustion of this frame's
    /// retries, with the error of the last attempt.
    pub fn finish(&self, outcome: Result<(), String>) -> (report: Result<(), SinkError>)
        ensures
            outcome is Ok ==> report is Ok,
            outcome matches Err(last_error) ==> report == Err::<(), SinkError>(
                SinkError::UploadExhausted { frame_num: self.frame_num, last_error },
            ),
    {
        match outcome {
            Ok(()) => Ok(()),
            Err(last_error) => Err(
                SinkError::UploadExhausted { frame_num: self.frame_num, last_error },
            ),
        }
    }
}

} // verus!
