//! Whitespace and trimming.

use vstd::prelude::*;
use vstd::string::StrSliceExecFns;

verus! {

/// Whether a character has the Unicode property `White_Space`.
pub open spec fn is_whitespace(c: char) -> bool {
    let code = c as u32;
    ||| 0x0009 <= code <= 0x000D
    ||| code == 0x0020
    ||| code == 0x0085
    ||| code == 0x00A0
    ||| code == 0x1680
    ||| 0x2000 <= code <= 0x200A
    ||| code == 0x2028
    ||| code == 0x2029
    ||| code == 0x202F
    ||| code == 0x205F
    ||| code == 0x3000
}

/// A text without the whitespace it begins with.
pub open spec fn trimmed_start(text: Seq<char>) -> Seq<char>
    decreases text.len(),
{
    if text.len() > 0 && is_whitespace(text.first()) {
        trimmed_start(text.drop_first())
    } else {
        text
    }
}

/// A text without the whitespace it ends with.
pub open spec fn trimmed_end(text: Seq<char>) -> Seq<char>
    decreases text.len(),
{
    if text.len() > 0 && is_whitespace(text.last()) {
        trimmed_end(text.drop_last())
    } else {
        text
    }
}

/// A text without the whitespace around it.
pub open spec fn trimmed(text: Seq<char>) -> Seq<char> {
    trimmed_end(trimmed_start(text))
}

/// Whether the characters of `text` from `from` up to `to` are all whitespace.
pub open spec fn blank_between(text: Seq<char>, from: int, to: int) -> bool {
    forall|k: int| from <= k < to ==> is_whitespace(#[trigger] text[k])
}

/// A text that begins with `start` whitespace characters and then has another
/// character, or ends, is trimmed at its start by dropping exactly those.
pub proof fn lemma_trimmed_start(text: Seq<char>, start: int)
    requires
        0 <= start <= text.len(),
        blank_between(text, 0, start),
        start < text.len() ==> !is_whitespace(text[start]),
    ensures
        trimmed_start(text) == text.subrange(start, text.len() as int),
    decreases start,
{
    if start == 0 {
        assert(text.subrange(0, text.len() as int) =~= text);
    } else {
        let rest = text.drop_first();
        assert(is_whitespace(text[0]));
        assert forall|k: int| 0 <= k < start - 1 implies is_whitespace(#[trigger] rest[k]) by {
            assert(rest[k] == text[k + 1]);
        }
        lemma_trimmed_start(rest, start - 1);
        assert(rest.subrange(start - 1, rest.len() as int) =~= text.subrange(
            start,
            text.len() as int,
        ));
    }
}

/// A text whose characters from `end` on are all whitespace, and whose
/// character before `end`, if there is one, is not, is trimmed at its end by
/// keeping exactly the first `end` characters.
pub proof fn lemma_trimmed_end(text: Seq<char>, end: int)
    requires
        0 <= end <= text.len(),
        blank_between(text, end, text.len() as int),
        end > 0 ==> !is_whitespace(text[end - 1]),
    ensures
        trimmed_end(text) == text.subrange(0, end),
    decreases text.len() - end,
{
    if end == text.len() {
        assert(text.subrange(0, end) =~= text);
    } else {
        let rest = text.drop_last();
        assert(is_whitespace(text[text.len() - 1]));
        assert forall|k: int| end <= k < rest.len() implies is_whitespace(#[trigger] rest[k]) by {
            assert(rest[k] == text[k]);
        }
        lemma_trimmed_end(rest, end);
        assert(rest.subrange(0, end) =~= text.subrange(0, end));
    }
}

/// A text trimmed at its start is an end piece of the text, and does not begin
/// with whitespace.
pub proof fn lemma_trimmed_start_is_suffix(text: Seq<char>)
    ensures
        trimmed_start(text).len() <= text.len(),
        trimmed_start(text) == text.subrange(
            text.len() - trimmed_start(text).len(),
            text.len() as int,
        ),
        blank_between(text, 0, text.len() - trimmed_start(text).len()),
        trimmed_start(text).len() > 0 ==> !is_whitespace(trimmed_start(text).first()),
    decreases text.len(),
{
    if text.len() > 0 && is_whitespace(text.first()) {
        let rest = text.drop_first();
        lemma_trimmed_start_is_suffix(rest);
        let dropped = rest.len() - trimmed_start(rest).len();
        assert(rest.subrange(dropped, rest.len() as int) =~= text.subrange(
            dropped + 1,
            text.len() as int,
        ));
        assert forall|k: int| 0 <= k < dropped + 1 implies is_whitespace(#[trigger] text[k]) by {
            if k > 0 {
                assert(text[k] == rest[k - 1]);
            }
        }
    } else {
        assert(text.subrange(0, text.len() as int) =~= text);
    }
}

/// A text trimmed at its end is a beginning of the text, and does not end
/// with whitespace.
pub proof fn lemma_trimmed_end_is_prefix(text: Seq<char>)
    ensures
        trimmed_end(text).len() <= text.len(),
        trimmed_end(text) == text.subrange(0, trimmed_end(text).len() as int),
        blank_between(text, trimmed_end(text).len() as int, text.len() as int),
        trimmed_end(text).len() > 0 ==> !is_whitespace(trimmed_end(text).last()),
    decreases text.len(),
{
    if text.len() > 0 && is_whitespace(text.last()) {
        let rest = text.drop_last();
        lemma_trimmed_end_is_prefix(rest);
        let kept = trimmed_end(rest).len() as int;
        assert(rest.subrange(0, kept) =~= text.subrange(0, kept));
        assert forall|k: int| kept <= k < text.len() implies is_whitespace(#[trigger] text[k]) by {
            if k < rest.len() {
                assert(text[k] == rest[k]);
            }
        }
    } else {
        assert(text.subrange(0, text.len() as int) =~= text);
    }
}

/// A trimmed text is a piece of the text with nothing but whitespace before
/// and after it, and it neither begins nor ends with whitespace.
pub proof fn lemma_trimmed_is_inner_part(text: Seq<char>)
    ensures
        exists|start: int, end: int|
            0 <= start <= end <= text.len() && trimmed(text) == text.subrange(start, end)
                && blank_between(text, 0, start) && blank_between(text, end, text.len() as int),
        trimmed(text).len() > 0 ==> !is_whitespace(trimmed(text).first()) && !is_whitespace(
            trimmed(text).last(),
        ),
{
    let tail = trimmed_start(text);
    lemma_trimmed_start_is_suffix(text);
    lemma_trimmed_end_is_prefix(tail);
    let start = text.len() - tail.len();
    let end = start + trimmed(text).len();
    assert(tail.subrange(0, trimmed(text).len() as int) =~= text.subrange(start, end));
    assert forall|k: int| end <= k < text.len() implies is_whitespace(#[trigger] text[k]) by {
        assert(text[k] == tail[k - start]);
    }
    assert(0 <= start <= end <= text.len() && trimmed(text) == text.subrange(start, end)
        && blank_between(text, 0, start) && blank_between(text, end, text.len() as int));
}

/// Whether `c` has the Unicode property `White_Space`.
pub fn is_whitespace_char(c: char) -> (white: bool)
    ensures
        white == is_whitespace(c),
{
    let code = c as u32;
    (0x0009 <= code && code <= 0x000D) || code == 0x0020 || code == 0x0085 || code == 0x00A0
        || code == 0x1680 || (0x2000 <= code && code <= 0x200A) || code == 0x2028 || code
        == 0x2029 || code == 0x202F || code == 0x205F || code == 0x3000
}

/// The slice of `text` without the whitespace around it.
pub fn trim(text: &str) -> (inner: &str)
    ensures
        inner@ == trimmed(text@),
{
    let length = text.unicode_len();
    let mut start: usize = 0;
    let mut end: usize = 0;
    let mut seen: usize = 0;
    for c in it: text.chars()
        invariant
            length == text@.len(),
            it.seq() == text@,
            seen == it.index(),
            start <= seen <= length,
            blank_between(text@, 0, start as int),
            blank_between(text@, end as int, seen as int),
            start < seen ==> !is_whitespace(text@[start as int]) && start < end <= seen,
            start == seen ==> end == 0,
            end > 0 ==> !is_whitespace(text@[end - 1]),
    {
        if is_whitespace_char(c) {
            if start == seen {
                start = seen + 1;
            }
        } else {
            end = seen + 1;
        }
        seen = seen + 1;
    }
    if start == length {
        proof {
            lemma_trimmed_start(text@, length as int);
            assert(text@.subrange(length as int, length as int) =~= Seq::<char>::empty());
        }
        text.substring_char(length, length)
    } else {
        proof {
            let kept = text@.subrange(start as int, length as int);
            lemma_trimmed_start(text@, start as int);
            assert forall|k: int| end - start <= k < kept.len() implies is_whitespace(
                #[trigger] kept[k],
            ) by {
                assert(kept[k] == text@[k + start]);
            }
            lemma_trimmed_end(kept, end - start);
            assert(kept.subrange(0, end - start) =~= text@.subrange(start as int, end as int));
        }
        text.substring_char(start, end)
    }
}

} // verus!
