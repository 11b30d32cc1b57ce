//! Text helpers shared by the generator: comparison, decimal numerals,
//! joining of pieces and the snake-case naming convention.

use vstd::prelude::*;
use vstd::std_specs::iter::IteratorSpec;
use vstd::string::*;

verus! {

broadcast use vstd::string::group_string_axioms;

/// Whether two string slices hold the same characters.
pub fn str_equal(a: &str, b: &str) -> (same: bool)
    ensures
        same == (a@ == b@),
{
    let mut left = a.chars();
    let mut right = b.chars();
    let ghost mut seen: int = 0;
    loop
        invariant
            0 <= seen <= a@.len(),
            seen <= b@.len(),
            left.remaining() == a@.skip(seen),
            right.remaining() == b@.skip(seen),
            a@.take(seen) == b@.take(seen),
        decreases a@.len() - seen,
    {
        let x = left.next();
        let y = right.next();
        match (x, y) {
            (Some(c), Some(d)) => {
                if c != d {
                    assert(a@[seen] != b@[seen]);
                    return false;
                }
                proof {
                    assert(a@.take(seen + 1) == a@.take(seen).push(a@[seen]));
                    assert(b@.take(seen + 1) == b@.take(seen).push(b@[seen]));
                    assert(a@.skip(seen).drop_first() == a@.skip(seen + 1));
                    assert(b@.skip(seen).drop_first() == b@.skip(seen + 1));
                    seen = seen + 1;
                }
            },
            (None, None) => {
                assert(a@.take(seen) == a@);
                assert(b@.take(seen) == b@);
                return true;
            },
            _ => {
                assert(a@.len() != b@.len());
                return false;
            },
        }
    }
}

/// Whether `char::is_uppercase` holds of a character: the Unicode property
/// `Uppercase`, as the standard library's tables give it.
pub uninterp spec fn is_uppercase_char(c: char) -> bool;

/// The lowercase form of a text as `str::to_lowercase` computes it, by the
/// Unicode lowercase mappings of the standard library.
pub uninterp spec fn lowercase_of(text: Seq<char>) -> Seq<char>;

/// `char::is_uppercase`: the answer is the Unicode `Uppercase` property of the
/// character, named by [`is_uppercase_char`].
pub assume_specification[ char::is_uppercase ](c: char) -> (upper: bool)
    ensures
        upper == is_uppercase_char(c),
;

/// `str::to_lowercase`: the result is the lowercase form of the whole text,
/// named by [`lowercase_of`].
pub assume_specification[ str::to_lowercase ](s: &str) -> (lower: String)
    ensures
        lower@ == lowercase_of(s@),
;

/// `String::push`: the character is added at the end and nothing else changes.
pub assume_specification[ String::push ](s: &mut String, c: char)
    ensures
        final(s)@ == old(s)@.push(c),
;

/// The text with an underscore put before every uppercase character whose
/// predecessor exists and is not itself an underscore.
pub open spec fn separated(value: Seq<char>) -> Seq<char>
    decreases value.len(),
{
    if value.len() == 0 {
        Seq::empty()
    } else {
        let head = value.drop_last();
        let ch = value.last();
        if is_uppercase_char(ch) && head.len() > 0 && head.last() != '_' {
            separated(head).push('_').push(ch)
        } else {
            separated(head).push(ch)
        }
    }
}

/// The snake-case form of an identifier: words are split before uppercase
/// characters, and the whole is put in lowercase.
pub open spec fn snake_case(value: Seq<char>) -> Seq<char> {
    lowercase_of(separated(value))
}

/// Puts the underscores of [`separated`] into a text.
pub fn insert_separators(value: &str) -> (out: String)
    ensures
        out@ == separated(value@),
{
    let mut acc = String::new();
    let mut prev = '_';
    assert(value@.take(0) == Seq::<char>::empty());
    for ch in it: value.chars()
        invariant
            it.seq() == value@,
            acc@ == separated(value@.take(it.index())),
            prev == if it.index() == 0 { '_' } else { value@[it.index() - 1] },
    {
        let ghost before = value@.take(it.index());
        let ghost after = value@.take(it.index() + 1);
        assert(after.drop_last() == before);
        assert(after.last() == ch);
        if ch.is_uppercase() && prev != '_' {
            acc.push('_');
        }
        acc.push(ch);
        prev = ch;
    }
    assert(value@.take(value@.len() as int) == value@);
    acc
}

/// The name that a wrapper message gives the field holding a value of the
/// named type: the type's name in snake case.
pub fn to_snake_case(value: &str) -> (out: String)
    ensures
        out@ == snake_case(value@),
{
    let acc = insert_separators(value);
    acc.as_str().to_lowercase()
}

/// The character of a decimal digit.
pub open spec fn digit(d: int) -> char {
    if d == 0 {
        '0'
    } else if d == 1 {
        '1'
    } else if d == 2 {
        '2'
    } else if d == 3 {
        '3'
    } else if d == 4 {
        '4'
    } else if d == 5 {
        '5'
    } else if d == 6 {
        '6'
    } else if d == 7 {
        '7'
    } else if d == 8 {
        '8'
    } else {
        '9'
    }
}

/// The decimal numeral of a natural number, without leading zeros.
pub open spec fn decimal(n: nat) -> Seq<char>
    decreases n,
{
    if n < 10 {
        seq![digit(n as int)]
    } else {
        decimal(n / 10).push(digit((n % 10) as int))
    }
}

/// The decimal numeral of an integer, with a minus sign where it is negative.
pub open spec fn signed_decimal(n: int) -> Seq<char> {
    if n < 0 {
        seq!['-'] + decimal((-n) as nat)
    } else {
        decimal(n as nat)
    }
}

fn digit_char(d: u64) -> (c: char)
    requires
        d < 10,
    ensures
        c == digit(d as int),
{
    if d == 0 {
        '0'
    } else if d == 1 {
        '1'
    } else if d == 2 {
        '2'
    } else if d == 3 {
        '3'
    } else if d == 4 {
        '4'
    } else if d == 5 {
        '5'
    } else if d == 6 {
        '6'
    } else if d == 7 {
        '7'
    } else if d == 8 {
        '8'
    } else {
        '9'
    }
}

/// Writes the decimal numeral of `n` at the end of `out`.
pub fn push_decimal(out: &mut String, n: u64)
    ensures
        final(out)@ == old(out)@ + decimal(n as nat),
    decreases n,
{
    if n >= 10 {
        push_decimal(out, n / 10);
    }
    out.push(digit_char(n % 10));
}

/// Writes the decimal numeral of a signed number at the end of `out`.
pub fn push_signed_decimal(out: &mut String, n: i32)
    ensures
        final(out)@ == old(out)@ + signed_decimal(n as int),
{
    if n < 0 {
        out.push('-');
        let magnitude: u64 = (0 - (n as i64)) as u64;
        push_decimal(out, magnitude);
    } else {
        push_decimal(out, n as u64);
    }
}

/// The pieces of a list written one after the other with a separator between
/// each two neighbours.
pub open spec fn join(pieces: Seq<Seq<char>>, separator: Seq<char>) -> Seq<char>
    decreases pieces.len(),
{
    if pieces.len() == 0 {
        Seq::empty()
    } else if pieces.len() == 1 {
        pieces[0]
    } else {
        join(pieces.drop_last(), separator) + separator + pieces.last()
    }
}

/// The pieces of a list written one after the other, each followed by a
/// comma.
pub open spec fn listed(pieces: Seq<Seq<char>>) -> Seq<char>
    decreases pieces.len(),
{
    if pieces.len() == 0 {
        Seq::empty()
    } else {
        listed(pieces.drop_last()) + pieces.last() + ", "@
    }
}

/// The views of a list of strings.
pub open spec fn texts(pieces: Seq<String>) -> Seq<Seq<char>> {
    pieces.map_values(|piece: String| piece@)
}

/// The views of a list with one more string are the views of the list with
/// one more view.
pub proof fn lemma_texts_push(pieces: Seq<String>, piece: String)
    ensures
        texts(pieces.push(piece)) == texts(pieces).push(piece@),
{
    assert(texts(pieces.push(piece)) =~= texts(pieces).push(piece@));
}

/// Writes the pieces at the end of `out`, separated by `separator`.
pub fn push_joined(out: &mut String, pieces: &Vec<String>, separator: &str)
    ensures
        final(out)@ == old(out)@ + join(texts(pieces@), separator@),
{
    let ghost all = texts(pieces@);
    let mut i: usize = 0;
    assert(all.take(0) == Seq::<Seq<char>>::empty());
    while i < pieces.len()
        invariant
            i <= pieces.len(),
            all == texts(pieces@),
            out@ == old(out)@ + join(all.take(i as int), separator@),
        decreases pieces.len() - i,
    {
        let ghost next = all.take(i + 1);
        assert(next.drop_last() == all.take(i as int));
        assert(next.last() == pieces@[i as int]@);
        if i > 0 {
            out.append(separator);
        }
        out.append(pieces[i].as_str());
        i += 1;
    }
    assert(all.take(pieces.len() as int) == all);
}

/// Writes the pieces at the end of `out`, each followed by a comma.
pub fn push_listed(out: &mut String, pieces: &Vec<String>)
    ensures
        final(out)@ == old(out)@ + listed(texts(pieces@)),
{
    let ghost all = texts(pieces@);
    let mut i: usize = 0;
    assert(all.take(0) == Seq::<Seq<char>>::empty());
    while i < pieces.len()
        invariant
            i <= pieces.len(),
            all == texts(pieces@),
            out@ == old(out)@ + listed(all.take(i as int)),
        decreases pieces.len() - i,
    {
        let ghost next = all.take(i + 1);
        assert(next.drop_last() == all.take(i as int));
        assert(next.last() == pieces@[i as int]@);
        out.append(pieces[i].as_str());
        out.append(", ");
        i += 1;
    }
    assert(all.take(pieces.len() as int) == all);
}

} // verus!
