//! The errors that the sink reports.

use crate::decimal::{decimal, push_decimal};
use vstd::prelude::*;

verus! {

/// Why a call on the sink, or the upload of one frame, failed.
#[derive(Clone, Debug, PartialEq, Eq)]
pub enum SinkError {
    /// `start` was called on a sink that is started.
    AlreadyStarted,
    /// `render` or `stop` was called on a sink that is stopped.
    NotStarted,
    /// A frame came in while the bucket or the key prefix was not set.
    NotConfigured,
    /// The text given as the region names no region. Holds the text.
    InvalidRegion(String),
    /// The bucket could not be created, for a reason other than that the
    /// caller owns it already. Holds what the storage service said.
    Provision(String),
    /// The bytes of an incoming frame could not be read.
    BufferMap,
    /// Every attempt to upload a frame failed. Holds the frame's sequence
    /// number and the error of the last attempt.
    UploadExhausted { frame_num: u64, last_error: String },
}

impl SinkError {
    /// The error in words, for the diagnostics.
    pub open spec fn message_text(self) -> Seq<char> {
        match self {
            SinkError::AlreadyStarted => "S3MultiFrameSink already started"@,
            SinkError::NotStarted => "S3MultiFrameSink not started"@,
            SinkError::NotConfigured => "Bucket or key prefix not set"@,
            SinkError::InvalidRegion(text) => "Not a valid region: "@ + text@,
            SinkError::Provision(said) => said@,
            SinkError::BufferMap => "Failed to map buffer"@,
            SinkError::UploadExhausted { frame_num, last_error } => {
                "Attempts exhausted uploading frame "@ + decimal(frame_num as nat) + ". Error: "@
                    + last_error@
            },
        }
    }

    /// Writes the error in words.
    pub fn message(&self) -> (message: String)
        ensures
            message@ == self.message_text(),
    {
        match self {
            SinkError::AlreadyStarted => String::from_str("S3MultiFrameSink already started"),
            SinkError::NotStarted => String::from_str("S3MultiFrameSink not started"),
            SinkError::NotConfigured => String::from_str("Bucket or key prefix not set"),
            SinkError::InvalidRegion(text) => {
                let mut message: String = String::from_str("Not a valid region: ");
                message.append(text.as_str());
                message
            },
            SinkError::Provision(said) => said.clone(),
            SinkError::BufferMap => String::from_str("Failed to map buffer"),
            SinkError::UploadExhausted { frame_num, last_error } => {
                let mut message: String = String::from_str("Attempts exhausted uploading frame ");
                push_decimal(&mut message, *frame_num);
                message.append(". Error: ");
                message.append(last_error.as_str());
                message
            },
        }
    }
}

} // verus!
