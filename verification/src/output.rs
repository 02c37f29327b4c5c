//! What the tool printed, and whether it means that the run failed.

use vstd::prelude::*;
use crate::error::{result_view, ErrorKind, ErrorView};

verus! {

/// The character by which the tool's error reports are recognised: they are
/// JSON objects, so they open with a brace.
pub const ERROR_MARKER: char = '{';

/// Whether the text carries the error marker anywhere.
pub open spec fn spec_reports_error(text: Seq<char>) -> bool {
    text.contains(ERROR_MARKER)
}

/// The result of a run whose captured output is `text`: a failure that hands
/// the text on if it carries the marker, success otherwise. The exit code
/// plays no part.
pub open spec fn spec_classify(text: Seq<char>) -> Result<(), ErrorView> {
    if spec_reports_error(text) {
        Err(ErrorView::ToolReportedError(text))
    } else {
        Ok(())
    }
}

/// Looks for the error marker in the captured output.
pub fn reports_error(text: &str) -> (found: bool)
    ensures
        found == spec_reports_error(text@),
{
    let mut found = false;
    for c in it: text.chars()
        invariant
            it.seq() == text@,
            found == exists|i: int| 0 <= i < it.index() && text@[i] == ERROR_MARKER,
    {
        if c == ERROR_MARKER {
            found = true;
        }
    }
    found
}

/// Decides from the captured output whether the run succeeded.
pub fn classify_output(text: String) -> (result: Result<(), ErrorKind>)
    ensures
        result_view(result) == spec_classify(text@),
{
    if reports_error(text.as_str()) {
        Err(ErrorKind::ToolReportedError(text))
    } else {
        Ok(())
    }
}

/// The text that `String::from_utf8_lossy` makes of a sequence of bytes.
pub uninterp spec fn utf8_lossy(bytes: Seq<u8>) -> Seq<char>;

/// Calls `String::from_utf8_lossy` and takes the result as an owned string.
/// Trusted: the text is the one that the standard library decodes from these
/// bytes, and it depends on the bytes alone. Nothing more is claimed of it.
#[verifier::external_body]
fn decode_lossy(bytes: &[u8]) -> (text: String)
    ensures
        text@ == utf8_lossy(bytes@),
{
    String::from_utf8_lossy(bytes).into_owned()
}

/// Decodes what the tool wrote to its standard output and decides from it
/// whether the run succeeded.
pub fn classify_stdout(bytes: &[u8]) -> (result: Result<(), ErrorKind>)
    ensures
        result_view(result) == spec_classify(utf8_lossy(bytes@)),
{
    classify_output(decode_lossy(bytes))
}

} // verus!
