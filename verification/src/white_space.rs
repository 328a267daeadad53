//! Unicode white space, and text without it at its ends.

use vstd::prelude::*;

verus! {

/// The characters with Unicode's `White_Space` property.
pub open spec fn white_space(ch: char) -> bool {
    let code = ch as u32;
    ||| 0x09 <= code <= 0x0d
    ||| code == 0x20
    ||| code == 0x85
    ||| code == 0xa0
    ||| code == 0x1680
    ||| 0x2000 <= code <= 0x200a
    ||| code == 0x2028
    ||| code == 0x2029
    ||| code == 0x202f
    ||| code == 0x205f
    ||| code == 0x3000
}

/// The text from its first character that is not white space on.
pub open spec fn trimmed_start(text: Seq<char>) -> Seq<char>
    decreases text.len(),
{
    if text.len() > 0 && white_space(text[0]) {
        trimmed_start(text.drop_first())
    } else {
        text
    }
}

/// The text up to its last character that is not white space.
pub open spec fn trimmed_end(text: Seq<char>) -> Seq<char>
    decreases text.len(),
{
    if text.len() > 0 && white_space(text.last()) {
        trimmed_end(text.drop_last())
    } else {
        text
    }
}

/// The text without the white space at its ends.
pub open spec fn trimmed(text: Seq<char>) -> Seq<char> {
    trimmed_end(trimmed_start(text))
}

/// Whether a character is white space.
pub fn is_whitespace(ch: char) -> (is: bool)
    ensures
        is == white_space(ch),
{
    let code = ch as u32;
    (0x09 <= code && code <= 0x0d) || code == 0x20 || code == 0x85 || code == 0xa0 || code == 0x1680
        || (0x2000 <= code && code <= 0x200a) || code == 0x2028 || code == 0x2029 || code == 0x202f
        || code == 0x205f || code == 0x3000
}

proof fn trimmed_start_skips(text: Seq<char>, start: int)
    requires
        0 <= start <= text.len(),
        forall|i: int| 0 <= i < start ==> white_space(text[i]),
        start < text.len() ==> !white_space(text[start]),
    ensures
        trimmed_start(text) == text.skip(start),
    decreases start,
{
    if start > 0 {
        let rest = text.drop_first();
        assert forall|i: int| 0 <= i < start - 1 implies white_space(rest[i]) by {
            assert(rest[i] == text[i + 1]);
        }
        trimmed_start_skips(rest, start - 1);
        assert(rest.skip(start - 1) == text.skip(start));
    } else {
        assert(text.skip(0) == text);
    }
}

proof fn trimmed_end_takes(text: Seq<char>, end: int)
    requires
        0 <= end <= text.len(),
        forall|i: int| end <= i < text.len() ==> white_space(text[i]),
        end > 0 ==> !white_space(text[end - 1]),
    ensures
        trimmed_end(text) == text.take(end),
    decreases text.len() - end,
{
    if end < text.len() {
        let rest = text.drop_last();
        trimmed_end_takes(rest, end);
        assert(rest.take(end) == text.take(end));
    } else {
        assert(text.take(end) == text);
    }
}

/// The text without the white space at its ends.
pub fn trim(text: &str) -> (inner: String)
    ensures
        inner@ == trimmed(text@),
{
    let length = text.unicode_len();
    let mut start: usize = length;
    let mut end: usize = length;
    let mut blank = true;
    let mut index: usize = 0;
    for ch in it: text.chars()
        invariant
            it.seq() == text@,
            length == text@.len(),
            index == it.index(),
            index <= length,
            blank ==> start == length && end == length,
            blank ==> forall|i: int| 0 <= i < index ==> white_space(text@[i]),
            !blank ==> start < end <= index,
            !blank ==> !white_space(text@[start as int]) && !white_space(text@[end - 1]),
            !blank ==> forall|i: int| 0 <= i < start ==> white_space(text@[i]),
            !blank ==> forall|i: int| end <= i < index ==> white_space(text@[i]),
    {
        if !is_whitespace(ch) {
            if blank {
                start = index;
                blank = false;
            }
            end = index + 1;
        }
        index = index + 1;
    }
    proof {
        trimmed_start_skips(text@, start as int);
        let rest = text@.skip(start as int);
        assert forall|i: int| end - start <= i < rest.len() implies white_space(rest[i]) by {
            assert(rest[i] == text@[i + start]);
        }
        assert(end > start ==> rest[end - start - 1] == text@[end - 1]);
        trimmed_end_takes(rest, end - start);
        assert(rest.take(end - start) == text@.subrange(start as int, end as int));
    }
    text.substring_char(start, end).to_owned()
}

/// What is left after trimming neither begins nor ends with white space.
pub proof fn trimmed_text_has_no_white_space_at_its_ends(text: Seq<char>)
    ensures
        trimmed(text).len() > 0 ==> !white_space(trimmed(text)[0]) && !white_space(
            trimmed(text).last(),
        ),
        trimmed(trimmed(text)) == trimmed(text),
        trimmed(text).len() == 0 <==> forall|i: int| 0 <= i < text.len() ==> white_space(text[i]),
{
    start_is_ink(text);
    let rest = trimmed_start(text);
    end_is_ink(rest);
    end_keeps_start(rest);
    if trimmed(text).len() > 0 {
        assert(trimmed_start(trimmed(text)) == trimmed(text));
        assert(trimmed_end(trimmed(text)) == trimmed(text));
    }
}

/// Trimming takes nothing but white space, and only from the ends: the text is
/// white space, then what is left, then white space. `at` is where what is left
/// begins.
pub proof fn trimming_takes_only_the_ends(text: Seq<char>) -> (at: int)
    ensures
        0 <= at <= at + trimmed(text).len() <= text.len(),
        text.subrange(at, at + trimmed(text).len()) == trimmed(text),
        forall|i: int| 0 <= i < at ==> white_space(#[trigger] text[i]),
        forall|i: int|
            at + trimmed(text).len() <= i < text.len() ==> white_space(#[trigger] text[i]),
{
    let start = start_takes_white_space(text);
    let rest = trimmed_start(text);
    end_takes_white_space(rest);
    let end = start + trimmed(text).len();
    assert(text.subrange(start, end) == rest.take(trimmed(text).len() as int));
    assert forall|i: int| end <= i < text.len() implies white_space(#[trigger] text[i]) by {
        assert(text[i] == rest[i - start]);
    }
    start
}

proof fn start_takes_white_space(text: Seq<char>) -> (at: int)
    ensures
        0 <= at <= text.len(),
        trimmed_start(text) == text.skip(at),
        forall|i: int| 0 <= i < at ==> white_space(#[trigger] text[i]),
    decreases text.len(),
{
    if text.len() > 0 && white_space(text[0]) {
        let rest = text.drop_first();
        let at = start_takes_white_space(rest);
        assert(rest.skip(at) == text.skip(at + 1));
        assert forall|i: int| 0 <= i < at + 1 implies white_space(#[trigger] text[i]) by {
            if i > 0 {
                assert(rest[i - 1] == text[i]);
            }
        }
        at + 1
    } else {
        assert(text.skip(0) == text);
        0
    }
}

proof fn end_takes_white_space(text: Seq<char>)
    ensures
        trimmed_end(text).len() <= text.len(),
        trimmed_end(text) == text.take(trimmed_end(text).len() as int),
        forall|i: int|
            trimmed_end(text).len() <= i < text.len() ==> white_space(#[trigger] text[i]),
    decreases text.len(),
{
    if text.len() > 0 && white_space(text.last()) {
        let rest = text.drop_last();
        end_takes_white_space(rest);
        let length = trimmed_end(text).len() as int;
        assert(rest.take(length) == text.take(length));
        assert forall|i: int| length <= i < text.len() implies white_space(#[trigger] text[i]) by {
            if i < rest.len() {
                assert(rest[i] == text[i]);
            }
        }
    } else {
        assert(text.take(text.len() as int) == text);
    }
}

proof fn start_is_ink(text: Seq<char>)
    ensures
        trimmed_start(text).len() > 0 ==> !white_space(trimmed_start(text)[0]),
        trimmed_start(text).len() == 0 <==> forall|i: int|
            0 <= i < text.len() ==> white_space(text[i]),
    decreases text.len(),
{
    if text.len() > 0 && white_space(text[0]) {
        let rest = text.drop_first();
        start_is_ink(rest);
        assert forall|i: int| 0 <= i < rest.len() implies rest[i] == text[i + 1] by {}
        if trimmed_start(text).len() == 0 {
            assert forall|i: int| 0 <= i < text.len() implies white_space(text[i]) by {
                if i > 0 {
                    assert(rest[i - 1] == text[i]);
                }
            }
        }
        if forall|i: int| 0 <= i < text.len() ==> white_space(text[i]) {
            assert forall|i: int| 0 <= i < rest.len() implies white_space(rest[i]) by {
                assert(rest[i] == text[i + 1]);
            }
        }
    } else if text.len() > 0 {
        assert(!white_space(text[0]));
    }
}

proof fn end_is_ink(text: Seq<char>)
    ensures
        trimmed_end(text).len() > 0 ==> !white_space(trimmed_end(text).last()),
    decreases text.len(),
{
    if text.len() > 0 && white_space(text.last()) {
        end_is_ink(text.drop_last());
    }
}

proof fn end_keeps_start(text: Seq<char>)
    requires
        text.len() > 0 ==> !white_space(text[0]),
    ensures
        trimmed_end(text).len() == 0 <==> text.len() == 0,
        trimmed_end(text).len() > 0 ==> trimmed_end(text)[0] == text[0],
    decreases text.len(),
{
    if text.len() > 0 && white_space(text.last()) {
        end_keeps_start(text.drop_last());
    }
}

} // verus!
