//! The guard that keeps filtered output from costing more than the raw output.

use vstd::prelude::*;

verus! {

/// The estimated number of tokens in `text`: one for every four bytes that are begun.
pub open spec fn token_estimate(text: Seq<char>) -> nat {
    (vstd::utf8::encode_utf8(text).len() + 3) / 4
}

/// What is shown: the filtered text, or the raw one where the filtered text costs more tokens.
pub open spec fn guarded(raw: Seq<char>, filtered: Seq<char>) -> Seq<char> {
    if token_estimate(filtered) > token_estimate(raw) {
        raw
    } else {
        filtered
    }
}

/// The filtered text, with the recovery hint, if any, on a line of its own.
pub open spec fn with_hint(filtered: Seq<char>, hint: Option<Seq<char>>) -> Seq<char> {
    match hint {
        Some(hint) => filtered + seq!['\n'] + hint,
        None => filtered,
    }
}

/// The characters of an optional text.
pub open spec fn optional_text(text: Option<&str>) -> Option<Seq<char>> {
    match text {
        Some(text) => Some(text@),
        None => None,
    }
}

/// The estimated number of tokens in `text`.
pub fn estimate_tokens(text: &str) -> (tokens: usize)
    ensures
        tokens == token_estimate(text@),
{
    let bytes: usize = text.as_bytes().len();
    if bytes % 4 == 0 {
        bytes / 4
    } else {
        bytes / 4 + 1
    }
}

/// The filtered text, or the raw one where the filtered text costs more tokens.
pub fn never_worse<'a>(raw: &'a str, filtered: &'a str) -> (shown: &'a str)
    ensures
        token_estimate(filtered@) <= token_estimate(raw@) ==> shown@ == filtered@,
        token_estimate(filtered@) > token_estimate(raw@) ==> shown@ == raw@,
        shown@ == guarded(raw@, filtered@),
{
    if estimate_tokens(filtered) > estimate_tokens(raw) {
        raw
    } else {
        filtered
    }
}

/// The filtered text, with the recovery hint, if any, on a line of its own.
pub fn compose(filtered: &str, hint: Option<&str>) -> (body: String)
    ensures
        body@ == with_hint(filtered@, optional_text(hint)),
{
    let mut body = filtered.to_owned();
    if let Some(hint) = hint {
        body.push('\n');
        body.append(hint);
        assert(body@ == filtered@ + seq!['\n'] + hint@);
    }
    body
}

/// The text that is to be emitted: the filtered text with the recovery hint, if any, or the raw
/// text where that costs fewer tokens.
pub fn emit_guarded(filtered: &str, hint: Option<&str>, raw: &str) -> (shown: String)
    ensures
        shown@ == guarded(raw@, with_hint(filtered@, optional_text(hint))),
{
    let body = compose(filtered, hint);
    never_worse(raw, body.as_str()).to_owned()
}

/// What is shown never costs more tokens than the raw text.
pub proof fn law_never_more_tokens_than_raw(raw: Seq<char>, filtered: Seq<char>)
    ensures
        token_estimate(guarded(raw, filtered)) <= token_estimate(raw),
        guarded(raw, filtered) == raw || guarded(raw, filtered) == filtered,
{
}

/// Wherever the filtered text costs no more tokens than the raw one it is what is shown, and the
/// raw text is shown only where the filtered one costs strictly more.
pub proof fn law_filtered_text_is_shown_where_it_costs_no_more(
    raw: Seq<char>,
    filtered: Seq<char>,
)
    ensures
        token_estimate(filtered) <= token_estimate(raw) ==> guarded(raw, filtered) == filtered,
        guarded(raw, filtered) != filtered ==> token_estimate(raw) < token_estimate(filtered)
            && guarded(raw, filtered) == raw,
        token_estimate(guarded(raw, filtered)) <= token_estimate(filtered),
        filtered.len() == 0 ==> guarded(raw, filtered) == filtered,
        guarded(raw, raw) == raw,
{
    if filtered.len() == 0 {
        assert(filtered == Seq::<char>::empty());
        assert(vstd::utf8::encode_utf8(filtered).len() == 0);
    }
}

/// A token stands for every four bytes of a text, or for the fewer bytes that are left at its end.
/// So a text of no more bytes never costs more.
pub proof fn law_token_stands_for_four_bytes(text: Seq<char>, other: Seq<char>)
    ensures
        vstd::utf8::encode_utf8(text).len() <= 4 * token_estimate(text),
        4 * token_estimate(text) < vstd::utf8::encode_utf8(text).len() + 4,
        vstd::utf8::encode_utf8(other).len() <= vstd::utf8::encode_utf8(text).len()
            ==> token_estimate(other) <= token_estimate(text) && guarded(text, other) == other,
{
}

/// A hint stands on a line of its own behind the filtered text, and without one nothing is added.
pub proof fn law_hint_stands_behind_the_text(filtered: Seq<char>, hint: Seq<char>)
    ensures
        with_hint(filtered, None) == filtered,
        with_hint(filtered, Some(hint)).len() == filtered.len() + 1 + hint.len(),
        with_hint(filtered, Some(hint)).take(filtered.len() as int) == filtered,
        with_hint(filtered, Some(hint))[filtered.len() as int] == '\n',
        with_hint(filtered, Some(hint)).skip(filtered.len() as int + 1) == hint,
{
    let whole = with_hint(filtered, Some(hint));
    assert(whole.take(filtered.len() as int) == filtered);
    assert(whole.skip(filtered.len() as int + 1) == hint);
}

} // verus!
