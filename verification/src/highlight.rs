//! The highlighting step: Typst source text in, ANSI-colored text out.
//!
//! The coloring itself is done by the `typst_ansi_hl` crate; this module
//! names its result and states the swallow-and-continue policy around it: a
//! failed highlight yields an empty output.

use vstd::prelude::*;

verus! {

/// What `typst_ansi_hl`'s default highlighter returns for a text: the
/// ANSI-colored form on success, or nothing when highlighting fails. The
/// result depends on the text alone.
pub uninterp spec fn ansi_highlight_of(s: Seq<char>) -> Option<Seq<char>>;

/// The text the output buffer receives for an input: the highlighter's
/// successful result, or the empty text when the highlighter fails.
pub open spec fn spec_highlight_output(s: Seq<char>) -> Seq<char> {
    match ansi_highlight_of(s) {
        Some(t) => t,
        None => Seq::empty(),
    }
}

/// Relies on `typst_ansi_hl::Highlighter::highlight`, called on the
/// default-configured highlighter: it colors the given text alone, reading
/// nothing else, and reports failure in its `Result`.
#[verifier::external_body]
fn highlight_chars(input: &Vec<char>) -> (r: Option<Vec<char>>)
    ensures
        match r {
            Some(v) => ansi_highlight_of(input@) == Some(v@),
            None => ansi_highlight_of(input@) is None,
        },
{
    let s: String = input.iter().collect();
    match typst_ansi_hl::Highlighter::default().highlight(&s) {
        Ok(out) => Some(out.chars().collect()),
        Err(_) => None,
    }
}

/// Highlights Typst text as ANSI, mapping a failure of the highlighter to an
/// empty result.
pub fn highlight_typst_to_ansi(input: &Vec<char>) -> (r: Vec<char>)
    ensures
        r@ == spec_highlight_output(input@),
{
    match highlight_chars(input) {
        Some(v) => v,
        None => Vec::new(),
    }
}

} // verus!
