//! Small operations on text: splitting at a separator, and writing a number
//! in decimal.

use vstd::prelude::*;
use vstd::string::StrSliceExecFns;
use vstd::string::StringExecFns;

verus! {

/// The pieces put together again, with `sep` between each two.
pub open spec fn join(parts: Seq<Seq<char>>, sep: char) -> Seq<char>
    decreases parts.len(),
{
    if parts.len() == 0 {
        Seq::empty()
    } else if parts.len() == 1 {
        parts[0]
    } else {
        join(parts.drop_last(), sep) + seq![sep] + parts.last()
    }
}

/// Whether `parts` is what splitting `text` at every `sep` gives: at least
/// one piece, none of which holds a `sep`, and which joined by `sep` are the
/// text again. Two `sep` in a row enclose an empty piece, and so do a `sep`
/// and an end of the text.
pub open spec fn is_split(parts: Seq<Seq<char>>, text: Seq<char>, sep: char) -> bool {
    &&& parts.len() >= 1
    &&& forall|i: int| 0 <= i < parts.len() ==> !(#[trigger] parts[i]).contains(sep)
    &&& join(parts, sep) == text
}

/// The pieces of `text` between every two `sep`, built up character by
/// character: a `sep` opens a new, empty piece, and any other character
/// joins the last piece.
pub open spec fn pieces(text: Seq<char>, sep: char) -> Seq<Seq<char>>
    decreases text.len(),
{
    if text.len() == 0 {
        seq![Seq::empty()]
    } else {
        let before = pieces(text.drop_last(), sep);
        if text.last() == sep {
            before.push(Seq::empty())
        } else {
            before.drop_last().push(before.last().push(text.last()))
        }
    }
}

/// The pieces of a text are its split.
pub proof fn law_pieces_are_the_split(text: Seq<char>, sep: char)
    ensures
        is_split(pieces(text, sep), text, sep),
    decreases text.len(),
{
    if text.len() == 0 {
        assert(join(pieces(text, sep), sep) =~= text);
    } else {
        let shorter = text.drop_last();
        let before = pieces(shorter, sep);
        let after = pieces(text, sep);
        law_pieces_are_the_split(shorter, sep);
        assert(text =~= shorter.push(text.last()));
        if text.last() == sep {
            assert(after.drop_last() =~= before);
            assert(join(after, sep) =~= text);
        } else {
            assert(after.drop_last() =~= before.drop_last());
            assert(join(after, sep) =~= text);
        }
    }
}

/// What each of the strings holds.
pub open spec fn views(parts: Seq<&str>) -> Seq<Seq<char>> {
    parts.map_values(|part: &str| part@)
}

/// A text has one split only.
pub proof fn law_split_is_unique(
    first: Seq<Seq<char>>,
    second: Seq<Seq<char>>,
    text: Seq<char>,
    sep: char,
)
    requires
        is_split(first, text, sep),
        is_split(second, text, sep),
    ensures
        first == second,
    decreases first.len(),
{
    let a = join(first.drop_last(), sep);
    let b = join(second.drop_last(), sep);
    if first.len() == 1 && second.len() == 1 {
    } else if first.len() == 1 {
        assert(text[b.len() as int] == sep);
    } else if second.len() == 1 {
        assert(text[a.len() as int] == sep);
    } else {
        // The last separator of the text stands where the last piece begins,
        // in either split.
        assert(text == a + seq![sep] + first.last());
        assert(text == b + seq![sep] + second.last());
        if a.len() < b.len() {
            assert(first.last()[b.len() - a.len() - 1] == text[b.len() as int]);
        }
        if b.len() < a.len() {
            assert(second.last()[a.len() - b.len() - 1] == text[a.len() as int]);
        }
        assert(a =~= text.subrange(0, a.len() as int));
        assert(b =~= text.subrange(0, b.len() as int));
        assert(first.last() =~= text.subrange(a.len() as int + 1, text.len() as int));
        assert(second.last() =~= text.subrange(b.len() as int + 1, text.len() as int));
        law_split_is_unique(first.drop_last(), second.drop_last(), a, sep);
        assert(first =~= second.drop_last().push(second.last()));
    }
}

/// What each of the owned strings holds.
pub open spec fn texts(strings: Seq<String>) -> Seq<Seq<char>> {
    strings.map_values(|s: String| s@)
}

/// Splits `text` at every `sep`.
pub fn split<'a>(text: &'a str, sep: char) -> (parts: Vec<&'a str>)
    ensures
        is_split(views(parts@), text@, sep),
        views(parts@) == pieces(text@, sep),
{
    let n = text.unicode_len();
    let mut parts: Vec<&'a str> = Vec::new();
    let mut start: usize = 0;
    let mut i: usize = 0;
    proof {
        assert(text@.subrange(0, 0) =~= Seq::<char>::empty());
        assert(views(parts@).push(Seq::<char>::empty()) =~= seq![Seq::<char>::empty()]);
    }
    while i < n
        invariant
            n == text@.len(),
            start <= i <= n,
            views(parts@).push(text@.subrange(start as int, i as int)) == pieces(
                text@.take(i as int),
                sep,
            ),
        decreases n - i,
    {
        let ghost before = views(parts@);
        let ghost current = text@.subrange(start as int, i as int);
        proof {
            assert(text@.take(i as int + 1).drop_last() =~= text@.take(i as int));
        }
        if text.get_char(i) == sep {
            parts.push(text.substring_char(start, i));
            start = i + 1;
            proof {
                assert(views(parts@) =~= before.push(current));
                assert(text@.subrange(start as int, start as int) =~= Seq::<char>::empty());
            }
        } else {
            proof {
                assert(before.push(current).drop_last() =~= before);
                assert(text@.subrange(start as int, i as int + 1) =~= current.push(text@[i as int]));
            }
        }
        i = i + 1;
    }
    let ghost before = views(parts@);
    parts.push(text.substring_char(start, n));
    proof {
        assert(views(parts@) =~= before.push(text@.subrange(start as int, n as int)));
        assert(text@.take(n as int) =~= text@);
        law_pieces_are_the_split(text@, sep);
    }
    parts
}

/// The character of a decimal digit.
pub open spec fn digit_char(d: int) -> char {
    if d == 0 {
        '0'
    } else if d == 1 {
        '1'
    } else if d == 2 {
        '2'
    } else if d == 3 {
        '3'
    } else if d == 4 {
        '4'
    } else if d == 5 {
        '5'
    } else if d == 6 {
        '6'
    } else if d == 7 {
        '7'
    } else if d == 8 {
        '8'
    } else {
        '9'
    }
}

/// A natural number in decimal, without leading zeros; `0` for zero.
pub open spec fn digits(n: nat) -> Seq<char>
    decreases n,
{
    if n < 10 {
        seq![digit_char(n as int)]
    } else {
        digits(n / 10).push(digit_char((n % 10) as int))
    }
}

/// An integer in decimal, with `-` before a negative one.
pub open spec fn decimal(value: int) -> Seq<char> {
    if value < 0 {
        seq!['-'] + digits((-value) as nat)
    } else {
        digits(value as nat)
    }
}

fn digit(d: u64) -> (c: char)
    requires
        d < 10,
    ensures
        c == digit_char(d as int),
{
    if d == 0 {
        '0'
    } else if d == 1 {
        '1'
    } else if d == 2 {
        '2'
    } else if d == 3 {
        '3'
    } else if d == 4 {
        '4'
    } else if d == 5 {
        '5'
    } else if d == 6 {
        '6'
    } else if d == 7 {
        '7'
    } else if d == 8 {
        '8'
    } else {
        '9'
    }
}

/// The digits of `n`, the last one first.
fn digits_reversed(n: u64) -> (r: Vec<char>)
    ensures
        r@.reverse() == digits(n as nat),
{
    let mut r: Vec<char> = Vec::new();
    let mut rest: u64 = n;
    while rest >= 10
        invariant
            digits(n as nat) == digits(rest as nat) + r@.reverse(),
        decreases rest,
    {
        r.push(digit(rest % 10));
        proof {
            assert(digits(rest as nat) == digits((rest / 10) as nat).push(
                digit_char((rest % 10) as int),
            ));
        }
        rest = rest / 10;
    }
    r.push(digit(rest));
    r
}

/// Writes `value` in decimal.
pub fn decimal_string(value: i32) -> (s: String)
    ensures
        s@ == decimal(value as int),
{
    let negative = value < 0;
    let magnitude: u64 = if negative {
        (-(value as i64)) as u64
    } else {
        value as u64
    };
    let reversed = digits_reversed(magnitude);
    let mut s = String::new();
    if negative {
        s.append("-");
        proof {
            reveal_strlit("-");
        }
    }
    let ghost sign = s@;
    let mut i: usize = reversed.len();
    while i > 0
        invariant
            i <= reversed.len(),
            s@ == sign + reversed@.reverse().take(reversed.len() - i),
        decreases i,
    {
        i = i - 1;
        push_char(&mut s, reversed[i]);
    }
    s
}

/// `String::push`: the string grows by the character at its end.
#[verifier::external_body]
fn push_char(s: &mut String, c: char)
    ensures
        final(s)@ == old(s)@.push(c),
{
    s.push(c);
}

} // verus!
