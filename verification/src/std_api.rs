//! Calls into `std` that vstd gives no specification for.
use vstd::prelude::*;

use crate::types::{DecodeOutcome, LoadedFile};

verus! {

/// The sending half of a `std::sync::mpsc` channel; opaque to the library.
#[verifier::external_type_specification]
#[verifier::external_body]
#[verifier::reject_recursive_types(T)]
pub struct ExSender<T>(std::sync::mpsc::Sender<T>);

/// The receiving half of a `std::sync::mpsc` channel; opaque to the library.
#[verifier::external_type_specification]
#[verifier::external_body]
#[verifier::reject_recursive_types(T)]
pub struct ExReceiver<T>(std::sync::mpsc::Receiver<T>);

/// The sender and the receiver are the two ends of one channel: what is
/// sent on the one is received on the other.
pub uninterp spec fn files_connected(
    tx: std::sync::mpsc::Sender<LoadedFile>,
    rx: std::sync::mpsc::Receiver<LoadedFile>,
) -> bool;

/// The sender and the receiver are the two ends of one channel: what is
/// sent on the one is received on the other.
pub uninterp spec fn decodes_connected(
    tx: std::sync::mpsc::Sender<DecodeOutcome>,
    rx: std::sync::mpsc::Receiver<DecodeOutcome>,
) -> bool;

/// `std::sync::mpsc::channel` for picked files: a fresh sender/receiver
/// pair that are the two ends of the same channel. (A name cannot be
/// generic, so each payload type has its own wrapper.)
#[verifier::external_body]
pub(crate) fn file_channel() -> (pair: (std::sync::mpsc::Sender<LoadedFile>, std::sync::mpsc::Receiver<LoadedFile>))
    ensures
        files_connected(pair.0, pair.1),
{
    std::sync::mpsc::channel()
}

/// `std::sync::mpsc::channel` for decode results: a fresh sender/receiver
/// pair that are the two ends of the same channel.
#[verifier::external_body]
pub(crate) fn decode_channel() -> (pair: (std::sync::mpsc::Sender<DecodeOutcome>, std::sync::mpsc::Receiver<DecodeOutcome>))
    ensures
        decodes_connected(pair.0, pair.1),
{
    std::sync::mpsc::channel()
}

/// `String::push`: appends one character to the end of the string.
#[verifier::external_body]
pub(crate) fn push_char(s: &mut String, c: char)
    ensures
        final(s)@ == old(s)@.push(c),
{
    s.push(c);
}

} // verus!
