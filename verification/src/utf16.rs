//! Text as UTF-16 editors count it: characters outside the Basic Multilingual
//! Plane take two code units, the halves of a surrogate pair.

use vstd::prelude::*;
use vstd::utf8::{encode_scalar, encode_utf8};

verus! {

/// The UTF-16 code units of one character.
pub open spec fn code_units(ch: char) -> int {
    if (ch as u32) < 0x1_0000 {
        1
    } else {
        2
    }
}

/// The UTF-16 offset of the boundary before character `i`.
pub open spec fn offset(text: Seq<char>, i: int) -> int
    decreases i,
{
    if i <= 0 {
        0
    } else {
        offset(text, i - 1) + code_units(text[i - 1])
    }
}

/// The length of the text in UTF-16 code units.
pub open spec fn length(text: Seq<char>) -> int {
    offset(text, text.len() as int)
}

/// Whether `at` lies between two characters, or at an end of the text, rather
/// than inside a surrogate pair or outside the text.
pub open spec fn is_boundary(text: Seq<char>, at: int) -> bool {
    exists|i: int| 0 <= i <= text.len() && #[trigger] offset(text, i) == at
}

/// The first boundary, from boundary `i` on, that is not before `at`, as an
/// index; one past the last boundary when they all are before it.
pub open spec fn caret_from(text: Seq<char>, at: int, i: int) -> int
    decreases text.len() + 1 - i,
{
    if i > text.len() || offset(text, i) >= at {
        i
    } else {
        caret_from(text, at, i + 1)
    }
}

/// How many boundaries lie before `at`.
pub open spec fn caret(text: Seq<char>, at: int) -> int {
    caret_from(text, at, 0)
}

/// The last boundary that is not after `at`.
pub open spec fn floor(text: Seq<char>, at: int) -> int {
    offset(text, caret(text, at + 1) - 1)
}

/// The first boundary that is not before `at`.
pub open spec fn ceil(text: Seq<char>, at: int) -> int {
    offset(text, caret(text, at))
}

/// Offsets grow with every character, by one unit or by two.
pub proof fn offset_is_increasing(text: Seq<char>, i: int, j: int)
    requires
        0 <= i <= j,
    ensures
        offset(text, i) + (j - i) <= offset(text, j) <= offset(text, i) + 2 * (j - i),
        0 <= offset(text, i),
    decreases i + j,
{
    if i < j {
        offset_is_increasing(text, i, j - 1);
    } else if i > 0 {
        offset_is_increasing(text, 0, i - 1);
    }
}

/// A character takes two code units exactly where UTF-8 takes four bytes for
/// it, and one everywhere else.
pub proof fn surrogate_pairs_are_the_longest_characters(ch: char)
    ensures
        encode_scalar(ch as u32).len() == 4 ==> code_units(ch) == 2,
        encode_scalar(ch as u32).len() < 4 ==> code_units(ch) == 1,
{
}

/// Lengths add up: the boundary before a character lies where the text up to
/// it ends, and every character adds its own units.
pub proof fn lengths_add_up(text: Seq<char>, other: Seq<char>, ch: char, i: int)
    requires
        0 <= i <= text.len(),
    ensures
        length(Seq::<char>::empty()) == 0,
        length(text.push(ch)) == length(text) + code_units(ch),
        length(text + other) == length(text) + length(other),
        offset(text, i) == length(text.take(i)),
    decreases other.len(),
{
    offset_of_a_prefix(text.push(ch), text, text.len() as int);
    offset_of_a_prefix(text, text.take(i), i);
    if other.len() > 0 {
        lengths_add_up(text, other.drop_last(), ch, i);
        let joined = text + other;
        offset_of_a_prefix(joined, text + other.drop_last(), joined.len() - 1);
        offset_of_a_prefix(other, other.drop_last(), other.len() - 1);
    } else {
        assert(text + other == text);
    }
}

proof fn offset_of_a_prefix(text: Seq<char>, prefix: Seq<char>, i: int)
    requires
        0 <= i <= prefix.len() <= text.len(),
        forall|j: int| 0 <= j < prefix.len() ==> prefix[j] == text[j],
    ensures
        offset(text, i) == offset(prefix, i),
    decreases i,
{
    if i > 0 {
        offset_of_a_prefix(text, prefix, i - 1);
    }
}

/// `caret_from` finds what it says: the boundaries before it are before `at`,
/// the others are not.
proof fn caret_from_splits(text: Seq<char>, at: int, i: int)
    requires
        0 <= i <= text.len() + 1,
    ensures
        ({
            let c = caret_from(text, at, i);
            &&& i <= c <= text.len() + 1
            &&& forall|j: int| i <= j < c ==> offset(text, j) < at
            &&& c <= text.len() ==> offset(text, c) >= at
        }),
    decreases text.len() + 1 - i,
{
    if i <= text.len() && offset(text, i) < at {
        caret_from_splits(text, at, i + 1);
    }
}

/// The boundaries before the caret are before `at`, the others are not.
pub proof fn caret_splits(text: Seq<char>, at: int)
    ensures
        0 <= caret(text, at) <= text.len() + 1,
        forall|j: int| 0 <= j < caret(text, at) ==> offset(text, j) < at,
        forall|j: int| caret(text, at) <= j <= text.len() ==> offset(text, j) >= at,
        at <= length(text) ==> caret(text, at) <= text.len(),
        at <= 0 ==> caret(text, at) == 0,
{
    caret_from_splits(text, at, 0);
    let c = caret(text, at);
    assert forall|j: int| c <= j <= text.len() implies offset(text, j) >= at by {
        offset_is_increasing(text, c, j);
    }
}

/// An index that splits the boundaries at `at` is the caret.
pub proof fn caret_is_unique(text: Seq<char>, at: int, i: int)
    requires
        0 <= i <= text.len() + 1,
        forall|j: int| 0 <= j < i ==> offset(text, j) < at,
        forall|j: int| i <= j <= text.len() ==> offset(text, j) >= at,
    ensures
        caret(text, at) == i,
{
    caret_splits(text, at);
    let c = caret(text, at);
    if c < i {
        assert(offset(text, c) < at);
    }
    if i < c {
        assert(offset(text, i) < at);
    }
}

/// Rounding down gives the last boundary up to `at`, at most one unit away
/// inside the text.
pub proof fn floor_is_the_last_boundary_up_to(text: Seq<char>, at: int)
    requires
        0 <= at,
    ensures
        is_boundary(text, floor(text, at)),
        0 <= floor(text, at) <= at,
        forall|b: int| is_boundary(text, b) && b <= at ==> b <= floor(text, at),
        at <= length(text) ==> floor(text, at) >= at - 1,
{
    caret_splits(text, at + 1);
    let c = caret(text, at + 1);
    assert(offset(text, 0) == 0);
    assert(c >= 1);
    assert(offset(text, c - 1) < at + 1);
    offset_is_increasing(text, 0, c - 1);
    assert forall|b: int| is_boundary(text, b) && b <= at implies b <= floor(text, at) by {
        let i = choose|i: int| 0 <= i <= text.len() && #[trigger] offset(text, i) == b;
        assert(i < c);
        offset_is_increasing(text, i, c - 1);
    }
    if c <= text.len() {
        offset_is_increasing(text, c - 1, c);
    }
}

/// Rounding up gives the first boundary from `at` on, at most one unit away.
pub proof fn ceil_is_the_first_boundary_from(text: Seq<char>, at: int)
    requires
        0 <= at <= length(text),
    ensures
        is_boundary(text, ceil(text, at)),
        at <= ceil(text, at) <= length(text),
        forall|b: int| is_boundary(text, b) && at <= b ==> ceil(text, at) <= b,
        ceil(text, at) <= at + 1,
{
    caret_splits(text, at);
    let c = caret(text, at);
    assert(c <= text.len());
    assert(offset(text, c) >= at);
    offset_is_increasing(text, c, text.len() as int);
    assert forall|b: int| is_boundary(text, b) && at <= b implies ceil(text, at) <= b by {
        let i = choose|i: int| 0 <= i <= text.len() && #[trigger] offset(text, i) == b;
        if i < c {
            assert(offset(text, i) < at);
        }
        offset_is_increasing(text, c, i);
    }
    if c > 0 {
        assert(offset(text, c - 1) < at);
        offset_is_increasing(text, c - 1, c);
    }
}

/// The caret of a boundary is the boundary itself.
pub proof fn caret_of_a_boundary(text: Seq<char>, i: int)
    requires
        0 <= i <= text.len(),
    ensures
        caret(text, offset(text, i)) == i,
{
    assert forall|j: int| 0 <= j < i implies offset(text, j) < offset(text, i) by {
        offset_is_increasing(text, j, i);
    }
    assert forall|j: int| i <= j <= text.len() implies offset(text, j) >= offset(text, i) by {
        offset_is_increasing(text, i, j);
    }
    caret_is_unique(text, offset(text, i), i);
}

/// No text is longer in UTF-16 code units than in UTF-8 bytes.
proof fn length_is_at_most_utf8(text: Seq<char>, i: int)
    requires
        0 <= i <= text.len(),
    ensures
        length(text) - offset(text, i) <= encode_utf8(text.skip(i)).len(),
    decreases text.len() - i,
{
    let rest = text.skip(i);
    if i < text.len() {
        length_is_at_most_utf8(text, i + 1);
        assert(rest.drop_first() == text.skip(i + 1));
        assert(rest[0] == text[i]);
        assert(offset(text, i + 1) == offset(text, i) + code_units(text[i]));
    }
}

/// The UTF-16 code units of one character.
pub fn len_utf16(ch: char) -> (units: usize)
    ensures
        units == code_units(ch),
{
    if (ch as u32) < 0x1_0000 {
        1
    } else {
        2
    }
}

/// The offsets of all boundaries, from the start of the text to its end.
pub fn boundaries(text: &str) -> (offsets: Vec<usize>)
    ensures
        offsets@.len() == text@.len() + 1,
        forall|i: int|
            #![trigger offsets@[i]]
            #![trigger offset(text@, i)]
            0 <= i <= text@.len() ==> offsets@[i] == offset(text@, i),
{
    let bytes = text.as_bytes().len();
    assert(length(text@) <= bytes) by {
        length_is_at_most_utf8(text@, 0);
        assert(text@.skip(0) == text@);
    }
    let mut end: usize = 0;
    let mut offsets: Vec<usize> = Vec::new();
    offsets.push(end);
    for ch in it: text.chars()
        invariant
            it.seq() == text@,
            length(text@) <= bytes,
            offsets@.len() == it.index() + 1,
            end == offset(text@, it.index() as int),
            forall|i: int| 0 <= i <= it.index() ==> #[trigger] offsets@[i] == offset(text@, i),
    {
        proof {
            offset_is_increasing(text@, it.index() + 1, text@.len() as int);
        }
        end = end + len_utf16(ch);
        offsets.push(end);
    }
    offsets
}

/// How many of the sorted `offsets` are before `at`.
pub fn count_before(offsets: &Vec<usize>, at: usize) -> (count: usize)
    requires
        forall|i: int, j: int| 0 <= i <= j < offsets@.len() ==> offsets@[i] <= offsets@[j],
    ensures
        count <= offsets@.len(),
        forall|i: int| 0 <= i < count ==> offsets@[i] < at,
        forall|i: int| count <= i < offsets@.len() ==> offsets@[i] >= at,
{
    let mut low: usize = 0;
    let mut high: usize = offsets.len();
    while low < high
        invariant
            low <= high <= offsets@.len(),
            forall|i: int, j: int| 0 <= i <= j < offsets@.len() ==> offsets@[i] <= offsets@[j],
            forall|i: int| 0 <= i < low ==> offsets@[i] < at,
            forall|i: int| high <= i < offsets@.len() ==> offsets@[i] >= at,
        decreases high - low,
    {
        let middle = low + (high - low) / 2;
        if offsets[middle] < at {
            low = middle + 1;
        } else {
            high = middle;
        }
    }
    low
}

/// How many of the sorted `offsets` are not after `at`.
pub fn count_up_to(offsets: &Vec<usize>, at: usize) -> (count: usize)
    requires
        forall|i: int, j: int| 0 <= i <= j < offsets@.len() ==> offsets@[i] <= offsets@[j],
    ensures
        count <= offsets@.len(),
        forall|i: int| 0 <= i < count ==> offsets@[i] <= at,
        forall|i: int| count <= i < offsets@.len() ==> offsets@[i] > at,
{
    if at < usize::MAX {
        count_before(offsets, at + 1)
    } else {
        offsets.len()
    }
}

} // verus!
