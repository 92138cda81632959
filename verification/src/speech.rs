//! What the recognizer's output is worth: putting the text of an utterance
//! together from its segments, and telling speech from the recognizer's
//! habitual answer to near-silence.

use crate::text::{same_text, trim, trimmed};
use vstd::prelude::*;
use vstd::string::StringExecFns;

verus! {

/// The text that the recognizer tends to give for audio that holds no
/// speech. A recognized text equal to it is dropped.
pub const DEGENERATE_TEXT: &'static str = "\u{4f60}\u{53bb}\u{627e}\u{6211}\u{5427}";

/// A trimmed text counts as speech when it is not empty and not the
/// degenerate text.
pub open spec fn valid_speech(text: Seq<char>) -> bool {
    text.len() > 0 && text != DEGENERATE_TEXT@
}

/// The text to go on with for what the recognizer gave: its trimmed text
/// where that counts as speech, nothing otherwise.
pub open spec fn accepted_text(recognized: Seq<char>) -> Option<Seq<char>> {
    if valid_speech(trimmed(recognized)) {
        Some(trimmed(recognized))
    } else {
        None
    }
}

/// The texts of the segments that are there, one after the other.
pub open spec fn joined(segments: Seq<Option<String>>) -> Seq<char>
    decreases segments.len(),
{
    if segments.len() == 0 {
        Seq::empty()
    } else {
        joined(segments.drop_last()) + match segments.last() {
            Some(text) => text@,
            None => Seq::empty(),
        }
    }
}

/// Tells whether a trimmed text counts as speech.
pub fn is_valid_speech(text: &str) -> (valid: bool)
    ensures
        valid == valid_speech(text@),
{
    !text.is_empty() && !same_text(text, DEGENERATE_TEXT)
}

/// Trims what the recognizer gave and hands it on where it counts as
/// speech. An empty text, which is also what a failed recognition gives,
/// and the degenerate text are dropped.
pub fn clean_speech(recognized: &str) -> (clean: Option<&str>)
    ensures
        match clean {
            Some(text) => accepted_text(recognized@) == Some(text@),
            None => accepted_text(recognized@) is None,
        },
{
    let clean_text = trim(recognized);
    if is_valid_speech(clean_text) {
        Some(clean_text)
    } else {
        None
    }
}

/// Puts the text of an utterance together from the segments the recognizer
/// found, in their order. A segment that could not be read is left out.
pub fn extract_text_from_segments(segments: &Vec<Option<String>>) -> (text: String)
    ensures
        text@ == joined(segments@),
{
    let mut result = String::new();
    let mut i: usize = 0;
    assert(segments@.take(0) =~= Seq::<Option<String>>::empty());
    while i < segments.len()
        invariant
            i <= segments.len(),
            result@ == joined(segments@.take(i as int)),
        decreases segments.len() - i,
    {
        proof {
            let next = segments@.take(i + 1);
            assert(next.drop_last() =~= segments@.take(i as int));
            assert(next.last() == segments@[i as int]);
        }
        match &segments[i] {
            Some(segment) => {
                result.append(segment.as_str());
            },
            None => {
                assert(result@ + Seq::<char>::empty() =~= result@);
            },
        }
        i = i + 1;
    }
    assert(segments@.take(segments.len() as int) =~= segments@);
    result
}

} // verus!
