//! Text as the exchange handles it: which characters are white space, and
//! what is left of a line once the white space round it is taken away.

use vstd::prelude::*;
use vstd::std_specs::iter::IteratorSpec;

verus! {

broadcast use vstd::string::group_string_axioms;

/// Whether a character is white space: one of the 25 characters that the
/// Unicode Character Database gives the property `White_Space`. Among the
/// ASCII characters these are the space and the five from tab to carriage
/// return.
pub open spec fn whitespace(c: char) -> bool {
    ||| '\u{9}' <= c <= '\u{d}'
    ||| c == '\u{20}'
    ||| c == '\u{85}'
    ||| c == '\u{a0}'
    ||| c == '\u{1680}'
    ||| '\u{2000}' <= c <= '\u{200a}'
    ||| c == '\u{2028}'
    ||| c == '\u{2029}'
    ||| c == '\u{202f}'
    ||| c == '\u{205f}'
    ||| c == '\u{3000}'
}

/// The standard library documents `char::is_whitespace` as the test for the
/// property `White_Space`; claimed here is that its answer is [`whitespace`],
/// the characters with that property written out.
pub assume_specification[ char::is_whitespace ](c: char) -> (answer: bool)
    ensures
        answer == whitespace(c),
;

/// Every character of the text is white space.
pub open spec fn blank(text: Seq<char>) -> bool {
    forall|i: int| 0 <= i < text.len() ==> whitespace(#[trigger] text[i])
}

/// The text cut down to the part from its first character that is not white
/// space to its last one; nothing if it has no such character.
pub open spec fn trimmed(text: Seq<char>) -> Seq<char> {
    if blank(text) {
        Seq::empty()
    } else {
        text.subrange(first_mark(text), last_mark(text) + 1)
    }
}

/// Position of the first character that is not white space.
pub open spec fn first_mark(text: Seq<char>) -> int {
    choose|i: int| is_first_mark(text, i)
}

/// Position of the last character that is not white space.
pub open spec fn last_mark(text: Seq<char>) -> int {
    choose|i: int| is_last_mark(text, i)
}

/// `i` is where the first character that is not white space stands.
pub open spec fn is_first_mark(text: Seq<char>, i: int) -> bool {
    &&& 0 <= i < text.len()
    &&& !whitespace(text[i])
    &&& blank(text.subrange(0, i))
}

/// `i` is where the last character that is not white space stands.
pub open spec fn is_last_mark(text: Seq<char>, i: int) -> bool {
    &&& 0 <= i < text.len()
    &&& !whitespace(text[i])
    &&& blank(text.subrange(i + 1, text.len() as int))
}

/// A text has at most one first mark and at most one last mark.
pub proof fn lemma_marks_unique(text: Seq<char>, first: int, last: int)
    requires
        is_first_mark(text, first),
        is_last_mark(text, last),
    ensures
        !blank(text),
        first_mark(text) == first,
        last_mark(text) == last,
        first <= last,
{
    let f = first_mark(text);
    let l = last_mark(text);
    if f < first {
        assert(text.subrange(0, first)[f] == text[f]);
    }
    if first < f {
        assert(text.subrange(0, f)[first] == text[first]);
    }
    if l > last {
        assert(text.subrange(last + 1, text.len() as int)[l - last - 1] == text[l]);
    }
    if last > l {
        assert(text.subrange(l + 1, text.len() as int)[last - l - 1] == text[last]);
    }
    if last < first {
        assert(text.subrange(0, first)[last] == text[last]);
    }
}

/// Finds the first character that is not white space, given one that is not.
proof fn lemma_first_mark_before(text: Seq<char>, at: int) -> (first: int)
    requires
        0 <= at < text.len(),
        !whitespace(text[at]),
    ensures
        is_first_mark(text, first),
        first <= at,
    decreases at,
{
    if blank(text.subrange(0, at)) {
        at
    } else {
        let nearer = choose|i: int|
            0 <= i < at && !whitespace(#[trigger] text.subrange(0, at)[i]);
        let first = lemma_first_mark_before(text, nearer);
        first
    }
}

/// Finds the last character that is not white space, given one that is not.
proof fn lemma_last_mark_after(text: Seq<char>, at: int) -> (last: int)
    requires
        0 <= at < text.len(),
        !whitespace(text[at]),
    ensures
        is_last_mark(text, last),
        at <= last,
    decreases text.len() - at,
{
    let rest = text.subrange(at + 1, text.len() as int);
    if blank(rest) {
        at
    } else {
        let further = choose|i: int| 0 <= i < rest.len() && !whitespace(#[trigger] rest[i]);
        let last = lemma_last_mark_after(text, at + 1 + further);
        last
    }
}

/// Trimming leaves nothing exactly when the text is blank. A text that is
/// not blank keeps its characters from the first to the last that is not
/// white space, and those two are what the result begins and ends with.
pub proof fn lemma_trimmed_is_empty_iff_blank(text: Seq<char>)
    ensures
        blank(text) <==> trimmed(text).len() == 0,
        !blank(text) ==> {
            &&& is_first_mark(text, first_mark(text))
            &&& is_last_mark(text, last_mark(text))
            &&& first_mark(text) <= last_mark(text)
            &&& !whitespace(trimmed(text).first())
            &&& !whitespace(trimmed(text).last())
        },
{
    if !blank(text) {
        let at = choose|i: int| 0 <= i < text.len() && !whitespace(#[trigger] text[i]);
        let first = lemma_first_mark_before(text, at);
        let last = lemma_last_mark_after(text, at);
        lemma_marks_unique(text, first, last);
    }
}

/// A blank stretch of a text stays blank when the white space that follows
/// it is added to it.
proof fn lemma_blank_grows(text: Seq<char>, from: int, to: int)
    requires
        0 <= from <= to < text.len(),
        blank(text.subrange(from, to)),
        whitespace(text[to]),
    ensures
        blank(text.subrange(from, to + 1)),
{
    assert forall|i: int| 0 <= i < to + 1 - from implies whitespace(
        #[trigger] text.subrange(from, to + 1)[i],
    ) by {
        if i < to - from {
            assert(text.subrange(from, to)[i] == text[from + i]);
        }
    }
}

/// Takes the white space off both ends of a text.
pub fn trim(text: &str) -> (out: String)
    ensures
        out@ == trimmed(text@),
{
    let count = text.unicode_len();
    let mut chars = text.chars();
    let mut seen: usize = 0;
    let mut first: Option<usize> = None;
    let mut end: usize = 0;
    let ghost whole = text@;
    loop
        invariant
            chars.remaining() == whole.skip(seen as int),
            seen <= whole.len() == count,
            first is None ==> blank(whole.subrange(0, seen as int)),
            first matches Some(f) ==> {
                &&& is_first_mark(whole, f as int)
                &&& f < end <= seen
                &&& !whitespace(whole[end - 1])
                &&& blank(whole.subrange(end as int, seen as int))
            },
        ensures
            seen == whole.len(),
        decreases whole.len() - seen,
    {
        match chars.next() {
            None => {
                break ;
            },
            Some(c) => {
                if c.is_whitespace() {
                    proof {
                        match first {
                            None => lemma_blank_grows(whole, 0, seen as int),
                            Some(_) => lemma_blank_grows(whole, end as int, seen as int),
                        }
                    }
                } else {
                    if first.is_none() {
                        first = Some(seen);
                    }
                    end = seen + 1;
                    assert(whole.subrange(end as int, end as int) =~= Seq::<char>::empty());
                }
                seen = seen + 1;
            },
        }
    }
    match first {
        None => {
            assert(whole.subrange(0, seen as int) =~= whole);
            String::new()
        },
        Some(f) => {
            proof {
                lemma_marks_unique(whole, f as int, end - 1);
            }
            text.substring_char(f, end).to_owned()
        },
    }
}

} // verus!
