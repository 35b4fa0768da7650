//! Lossless transport of a printed result.
//!
//! The frame is positional: output has to begin with the begin marker's line and end with the end marker's line, and
//! everything between them is the result, byte for byte.

use crate::shadow::{text_outcome, ShadowUnavailable};
use crate::text::{debug_quoted, debug_text, lossy_text, lossy_utf8, parse_utf8, utf8_error_text};
use vstd::prelude::*;
use vstd::utf8::{decode_utf8, encode_utf8, encode_utf8_decode_utf8, encode_utf8_valid_utf8, valid_utf8};

verus! {

broadcast use vstd::string::group_string_axioms;

/// The line that is printed in front of a result.
pub const RESULT_BEGIN_MARKER: &'static str = "<<<incan-shadow-result-begin>>>";

/// The line that is printed behind a result.
pub const RESULT_END_MARKER: &'static str = "<<<incan-shadow-result-end>>>";

/// The bytes in front of a result.
pub open spec fn frame_start() -> Seq<u8> {
    encode_utf8(RESULT_BEGIN_MARKER@ + "\n"@)
}

/// The bytes behind a result.
pub open spec fn frame_end() -> Seq<u8> {
    encode_utf8("\n"@ + RESULT_END_MARKER@ + "\n"@)
}

/// The output of a program that prints a result between the markers.
pub open spec fn framed(payload: Seq<u8>) -> Seq<u8> {
    frame_start() + payload + frame_end()
}

/// Whether output carries the frame.
pub open spec fn carries_frame(stdout: Seq<u8>) -> bool {
    &&& stdout.len() >= frame_start().len() + frame_end().len()
    &&& stdout.take(frame_start().len() as int) == frame_start()
    &&& stdout.skip(stdout.len() - frame_end().len()) == frame_end()
}

/// The bytes between the markers.
pub open spec fn payload(stdout: Seq<u8>) -> Seq<u8> {
    stdout.subrange(frame_start().len() as int, stdout.len() - frame_end().len())
}

/// The result that output carries, or why it carries none.
pub open spec fn decoded(stdout: Seq<u8>) -> Result<Seq<char>, Seq<char>> {
    if !carries_frame(stdout) {
        Err(
            "the legacy program's output did not carry the exact result frame, so its result could not be read back losslessly: "@
                + debug_quoted(lossy_utf8(stdout)),
        )
    } else if !valid_utf8(payload(stdout)) {
        Err(
            "the legacy program printed a result that is not valid UTF-8, so it could not be compared: "@
                + utf8_error_text(payload(stdout)),
        )
    } else {
        Ok(decode_utf8(payload(stdout)))
    }
}

/// Decides whether bytes stand in others at a place.
fn bytes_at(bytes: &[u8], at: usize, expected: &[u8]) -> (same: bool)
    requires
        at + expected@.len() <= bytes@.len(),
    ensures
        same == (bytes@.subrange(at as int, at + expected@.len()) == expected@),
{
    let length: usize = bytes.len();
    let mut i: usize = 0;
    while i < expected.len()
        invariant
            i <= expected@.len(),
            length == bytes@.len(),
            at + expected@.len() <= length,
            forall|j: int| 0 <= j < i ==> bytes@[at + j] == expected@[j],
        decreases expected@.len() - i,
    {
        if bytes[at + i] != expected[i] {
            proof {
                assert(bytes@.subrange(at as int, at + expected@.len())[i as int] != expected@[i as int]);
            }
            return false;
        }
        i += 1;
    }
    proof {
        assert(bytes@.subrange(at as int, at + expected@.len()) =~= expected@);
    }
    true
}

/// Copies a run of bytes.
fn copy_bytes(bytes: &[u8], start: usize, end: usize) -> (copy: Vec<u8>)
    requires
        start <= end <= bytes@.len(),
    ensures
        copy@ == bytes@.subrange(start as int, end as int),
{
    let mut copy: Vec<u8> = Vec::new();
    let mut i: usize = start;
    while i < end
        invariant
            start <= i <= end <= bytes@.len(),
            copy@ == bytes@.subrange(start as int, i as int),
        decreases end - i,
    {
        copy.push(bytes[i]);
        proof {
            assert(bytes@.subrange(start as int, i + 1) =~= bytes@.subrange(start as int, i as int).push(
                bytes@[i as int],
            ));
        }
        i += 1;
    }
    copy
}

/// Recovers the exact printed result from a legacy program's standard output.
pub fn decode_framed_result(stdout: &[u8]) -> (result: Result<String, ShadowUnavailable>)
    ensures
        text_outcome(result) == decoded(stdout@),
{
    let prefix_text: String = RESULT_BEGIN_MARKER.to_owned().concat("\n");
    let suffix_text: String = "\n".to_owned().concat(RESULT_END_MARKER).concat("\n");
    let prefix: &[u8] = prefix_text.as_str().as_bytes();
    let suffix: &[u8] = suffix_text.as_str().as_bytes();
    let length: usize = stdout.len();
    let carried: bool = length >= prefix.len() && length - prefix.len() >= suffix.len() && bytes_at(stdout, 0, prefix)
        && bytes_at(stdout, length - suffix.len(), suffix);
    proof {
        if length >= frame_start().len() + frame_end().len() {
            assert(stdout@.subrange(0, frame_start().len() as int) =~= stdout@.take(frame_start().len() as int));
            assert(stdout@.subrange(length - frame_end().len(), length as int) =~= stdout@.skip(
                length - frame_end().len(),
            ));
        }
        assert(carried == carries_frame(stdout@));
    }
    if !carried {
        let shown: String = debug_text(lossy_text(stdout).as_str());
        return Err(
            ShadowUnavailable::new(
                "the legacy program's output did not carry the exact result frame, so its result could not be read back losslessly: ".to_owned().concat(
                    shown.as_str(),
                ),
            ),
        );
    }
    let bytes: Vec<u8> = copy_bytes(stdout, prefix.len(), length - suffix.len());
    match parse_utf8(bytes) {
        Ok(text) => Ok(text),
        Err(error) => Err(
            ShadowUnavailable::new(
                "the legacy program printed a result that is not valid UTF-8, so it could not be compared: ".to_owned().concat(
                    error.as_str(),
                ),
            ),
        ),
    }
}

proof fn lemma_payload_of_framed(bytes: Seq<u8>)
    ensures
        carries_frame(framed(bytes)),
        payload(framed(bytes)) == bytes,
{
    let out = framed(bytes);
    assert(out.take(frame_start().len() as int) =~= frame_start());
    assert(out.skip(out.len() - frame_end().len()) =~= frame_end());
    assert(payload(out) =~= bytes);
}

/// Every printed result is read back exactly: white space, line breaks and marker lines inside it survive.
pub proof fn law_framed_results_round_trip(text: Seq<char>)
    ensures
        decoded(framed(encode_utf8(text))) == Ok::<Seq<char>, Seq<char>>(text),
{
    lemma_payload_of_framed(encode_utf8(text));
    encode_utf8_valid_utf8(text);
    encode_utf8_decode_utf8(text);
}

/// Different printed results stay different.
pub proof fn law_framed_results_stay_distinct(a: Seq<char>, b: Seq<char>)
    requires
        a != b,
    ensures
        decoded(framed(encode_utf8(a))) != decoded(framed(encode_utf8(b))),
{
    law_framed_results_round_trip(a);
    law_framed_results_round_trip(b);
}

/// Only output that carries the frame gives a result, and that result is all that stands between the markers.
pub proof fn law_only_framed_output_is_read(stdout: Seq<u8>)
    ensures
        decoded(stdout) matches Ok(text) ==> valid_utf8(payload(stdout)) && text == decode_utf8(payload(stdout))
            && stdout == framed(payload(stdout)),
{
    if carries_frame(stdout) {
        assert(stdout =~= framed(payload(stdout))) by {
            let whole = stdout.take(frame_start().len() as int) + payload(stdout) + stdout.skip(
                stdout.len() - frame_end().len(),
            );
            assert(whole =~= stdout);
        }
    }
}

} // verus!
