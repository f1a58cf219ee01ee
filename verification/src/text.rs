//! Text helpers: white space, trimming and copying runs of characters.

use vstd::prelude::*;

verus! {

/// `String::push`: appends one character at the end.
pub assume_specification[ String::push ](buffer: &mut String, ch: char)
    ensures
        final(buffer)@ == old(buffer)@.push(ch),
;

/// The characters with the Unicode `White_Space` property.
pub open spec fn is_white_space(character: char) -> bool {
    let code = character as u32;
    ||| 0x09 <= code <= 0x0d
    ||| code == 0x20
    ||| code == 0x85
    ||| code == 0xa0
    ||| code == 0x1680
    ||| 0x2000 <= code <= 0x200a
    ||| code == 0x2028
    ||| code == 0x2029
    ||| code == 0x202f
    ||| code == 0x205f
    ||| code == 0x3000
}

/// Whether `character` is Unicode white space.
pub fn is_whitespace(character: char) -> (white: bool)
    ensures
        white == is_white_space(character),
{
    let code: u32 = character as u32;
    (0x09 <= code && code <= 0x0d) || code == 0x20 || code == 0x85 || code == 0xa0 || code == 0x1680
        || (0x2000 <= code && code <= 0x200a) || code == 0x2028 || code == 0x2029 || code == 0x202f
        || code == 0x205f || code == 0x3000
}

/// `text` without the white space at both ends.
pub open spec fn trimmed(text: Seq<char>) -> Seq<char>
    decreases text.len(),
{
    if text.len() == 0 {
        text
    } else if is_white_space(text.first()) {
        trimmed(text.drop_first())
    } else if is_white_space(text.last()) {
        trimmed(text.drop_last())
    } else {
        text
    }
}

/// Whether `text` holds nothing but white space.
pub open spec fn is_blank(text: Seq<char>) -> bool {
    forall|i: int| 0 <= i < text.len() ==> is_white_space(#[trigger] text[i])
}

/// The characters of `text`, in order.
pub fn chars_of(text: &str) -> (chars: Vec<char>)
    ensures
        chars@ == text@,
{
    let mut chars: Vec<char> = Vec::new();
    for character in walk: text.chars()
        invariant
            walk.seq() == text@,
            chars@ == walk.seq().take(walk.index()),
    {
        chars.push(character);
    }
    chars
}

/// The first character of `text`.
pub fn first_char(text: &str) -> (first: Option<char>)
    ensures
        first == (if text@.len() > 0 {
            Some(text@[0])
        } else {
            None
        }),
{
    let mut walk = text.chars();
    walk.next()
}

/// The last character of `text`.
pub fn last_char(text: &str) -> (last: Option<char>)
    ensures
        last == (if text@.len() > 0 {
            Some(text@.last())
        } else {
            None
        }),
{
    let mut last: Option<char> = None;
    for character in walk: text.chars()
        invariant
            walk.seq() == text@,
            walk.index() == 0 ==> last is None,
            walk.index() > 0 ==> last == Some(text@[walk.index() - 1]),
    {
        last = Some(character);
    }
    last
}

/// The characters from `from` up to but not including `to`, as text.
pub fn text_between(chars: &Vec<char>, from: usize, to: usize) -> (text: String)
    requires
        from <= to <= chars.len(),
    ensures
        text@ == chars@.subrange(from as int, to as int),
{
    let mut text = String::new();
    let mut at: usize = from;
    while at < to
        invariant
            from <= at <= to <= chars.len(),
            text@ == chars@.subrange(from as int, at as int),
        decreases to - at,
    {
        text.push(chars[at]);
        at = at + 1;
    }
    text
}

/// Whether the two texts hold the same characters.
pub fn same_text(left: &str, right: &str) -> (same: bool)
    ensures
        same == (left@ == right@),
{
    left.to_owned() == right.to_owned()
}

/// Whether `text` holds nothing but white space.
pub fn blank(text: &str) -> (blank: bool)
    ensures
        blank == is_blank(text@),
{
    let chars = chars_of(text);
    let mut at: usize = 0;
    while at < chars.len()
        invariant
            chars@ == text@,
            at <= chars.len(),
            forall|i: int| 0 <= i < at ==> is_white_space(#[trigger] text@[i]),
        decreases chars.len() - at,
    {
        if !is_whitespace(chars[at]) {
            assert(!is_white_space(text@[at as int]));
            return false;
        }
        at = at + 1;
    }
    true
}

/// The characters of `text` without the white space at both ends.
pub fn trimmed_chars(text: &str) -> (chars: Vec<char>)
    ensures
        chars@ == trimmed(text@),
{
    let all = chars_of(text);
    let mut from: usize = 0;
    let mut to: usize = all.len();
    assert(all@.subrange(0, all.len() as int) == all@);
    while from < to && is_whitespace(all[from])
        invariant
            from <= to,
            to == all.len(),
            all@ == text@,
            trimmed(all@.subrange(from as int, to as int)) == trimmed(text@),
        decreases to - from,
    {
        assert(all@.subrange(from as int, to as int).drop_first() == all@.subrange(
            from + 1,
            to as int,
        ));
        from = from + 1;
    }
    while from < to && is_whitespace(all[to - 1])
        invariant
            from <= to <= all.len(),
            all@ == text@,
            from < to ==> !is_white_space(all@[from as int]),
            trimmed(all@.subrange(from as int, to as int)) == trimmed(text@),
        decreases to - from,
    {
        assert(all@.subrange(from as int, to as int).drop_last() == all@.subrange(
            from as int,
            to - 1,
        ));
        to = to - 1;
    }
    let mut chars: Vec<char> = Vec::new();
    let mut at: usize = from;
    while at < to
        invariant
            from <= at <= to <= all.len(),
            chars@ == all@.subrange(from as int, at as int),
        decreases to - at,
    {
        chars.push(all[at]);
        at = at + 1;
    }
    chars
}

/// Whether `part` is what stands in `text` from `from` on, with nothing but white space before and
/// behind it.
pub open spec fn stands_alone(text: Seq<char>, from: int, part: Seq<char>) -> bool {
    &&& 0 <= from <= from + part.len() <= text.len()
    &&& text.subrange(from, from + part.len()) == part
    &&& is_blank(text.take(from))
    &&& is_blank(text.skip(from + part.len()))
}

/// Trimming cuts nothing but white space, from both ends, and leaves none there.
pub proof fn law_trimming_cuts_only_white_space(text: Seq<char>)
    ensures
        trimmed(text).len() > 0 ==> !is_white_space(trimmed(text).first()) && !is_white_space(
            trimmed(text).last(),
        ),
        exists|from: int| stands_alone(text, from, trimmed(text)),
{
    let from = lemma_trimmed_part(text);
}

/// Where the trimmed part of a text starts.
proof fn lemma_trimmed_part(text: Seq<char>) -> (from: int)
    ensures
        stands_alone(text, from, trimmed(text)),
        trimmed(text).len() > 0 ==> !is_white_space(trimmed(text).first()) && !is_white_space(
            trimmed(text).last(),
        ),
    decreases text.len(),
{
    let part = trimmed(text);
    if text.len() > 0 && is_white_space(text.first()) {
        let rest = text.drop_first();
        let from = lemma_trimmed_part(rest) + 1;
        assert(text.subrange(from, from + part.len()) == rest.subrange(
            from - 1,
            from - 1 + part.len(),
        ));
        assert(text.skip(from + part.len()) == rest.skip(from - 1 + part.len()));
        assert forall|i: int| 0 <= i < from implies is_white_space(#[trigger] text.take(from)[i]) by {
            if i > 0 {
                assert(text.take(from)[i] == rest.take(from - 1)[i - 1]);
            }
        }
        from
    } else if text.len() > 0 && is_white_space(text.last()) {
        let rest = text.drop_last();
        let from = lemma_trimmed_part(rest);
        let end = from + part.len();
        assert(text.subrange(from, end) == rest.subrange(from, end));
        assert(text.take(from) == rest.take(from));
        assert forall|i: int| 0 <= i < text.len() - end implies is_white_space(
            #[trigger] text.skip(end)[i],
        ) by {
            if i < rest.len() - end {
                assert(text.skip(end)[i] == rest.skip(end)[i]);
            }
        }
        from
    } else {
        assert(text.subrange(0, text.len() as int) == text);
        0
    }
}

/// Text is blank exactly if trimming leaves nothing of it.
pub proof fn law_blank_text_is_trimmed_away(text: Seq<char>)
    ensures
        is_blank(text) <==> trimmed(text).len() == 0,
{
    let from = lemma_trimmed_part(text);
    if trimmed(text).len() == 0 {
        assert forall|i: int| 0 <= i < text.len() implies is_white_space(#[trigger] text[i]) by {
            if i < from {
                assert(text.take(from)[i] == text[i]);
            } else {
                assert(text.skip(from)[i - from] == text[i]);
            }
        }
    } else {
        assert(text.subrange(from, from + trimmed(text).len())[0] == text[from]);
    }
}

/// Trimmed text has no white space to trim.
pub proof fn law_trimming_once_is_enough(text: Seq<char>)
    ensures
        trimmed(trimmed(text)) == trimmed(text),
    decreases text.len(),
{
    if text.len() > 0 {
        if is_white_space(text.first()) {
            law_trimming_once_is_enough(text.drop_first());
        } else if is_white_space(text.last()) {
            law_trimming_once_is_enough(text.drop_last());
        }
    }
}

} // verus!
