//! Composite cue labels of the form `<name> <number> <rest>`.

use vstd::prelude::*;
use crate::text::option_text;

verus! {

/// The pattern of a composite cue label: a name, whitespace, an integer or
/// decimal number, whitespace, and a remainder. The name is the shortest
/// leading run that lets the whole label match.
pub const CUE_LABEL_PATTERN: &'static str = r"^(.+?)\s+(\d+(?:\.\d+)?)\s+(.+)$";

/// The text that capture group `group` of the regular expression `pattern`
/// takes in the leftmost match within `text`. `None` when the pattern does
/// not compile, when it matches nowhere, or when the group takes no part in
/// the match.
pub uninterp spec fn regex_group(pattern: Seq<char>, text: Seq<char>, group: int) -> Option<
    Seq<char>,
>;

/// Calls `regex::Regex::new`, then `Regex::captures` and `Captures::get`.
/// The contract only names the outcome: matching a regular expression is a
/// function of the pattern and the text, and nothing more is claimed of it.
#[verifier::external_body]
fn capture_group(pattern: &str, text: &str, group: usize) -> (r: Option<String>)
    ensures
        option_text(r) == regex_group(pattern@, text@, group as int),
{
    let found = regex::Regex::new(pattern).ok()?.captures(text)?.get(group)?;
    Some(found.as_str().to_string())
}

/// The fields of a composite label: its sequence name and its cue number.
pub struct LabelFields {
    pub name: String,
    pub number: String,
}

/// Mathematical model of [`LabelFields`].
pub struct LabelFieldsView {
    pub name: Seq<char>,
    pub number: Seq<char>,
}

impl View for LabelFields {
    type V = LabelFieldsView;

    open spec fn view(&self) -> LabelFieldsView {
        LabelFieldsView { name: self.name@, number: self.number@ }
    }
}

/// The model of optional label fields.
pub open spec fn option_fields(f: Option<LabelFields>) -> Option<LabelFieldsView> {
    match f {
        Some(fields) => Some(fields@),
        None => None,
    }
}

/// The fields of `label` where it is a well-formed composite label: the
/// first and second capture groups of [`CUE_LABEL_PATTERN`].
pub open spec fn cue_label_fields(label: Seq<char>) -> Option<LabelFieldsView> {
    match (
        regex_group(CUE_LABEL_PATTERN@, label, 1),
        regex_group(CUE_LABEL_PATTERN@, label, 2),
    ) {
        (Some(name), Some(number)) => Some(LabelFieldsView { name, number }),
        _ => None,
    }
}

/// Splits a composite cue label into its sequence name and cue number.
/// A label that is not well formed gives `None`.
pub fn parse_cue_label(label: &str) -> (r: Option<LabelFields>)
    ensures
        option_fields(r) == cue_label_fields(label@),
{
    match capture_group(CUE_LABEL_PATTERN, label, 1) {
        Some(name) => match capture_group(CUE_LABEL_PATTERN, label, 2) {
            Some(number) => Some(LabelFields { name, number }),
            None => None,
        },
        None => None,
    }
}

} // verus!
