//! Numbers as text: what is written can be read back, and nothing else is read.
use vstd::prelude::*;

use crate::text::{
    comma_list, decimal, digit, digits_value, i64_value, integer_value, is_digit, is_digits,
    u32_value,
};

verus! {

/// The ten digits are the characters from `0` to `9`, in the order of their values.
pub proof fn law_digits(c: char, d: nat)
    ensures
        is_digit(c) <==> c == '0' || c == '1' || c == '2' || c == '3' || c == '4' || c == '5' || c
            == '6' || c == '7' || c == '8' || c == '9',
        d < 10 ==> is_digit(digit(d)) && digit(d) as int == '0' as int + d,
{
}

/// A row of digits has the value of the row before its last digit, ten times, and the
/// value of that digit. Nothing but digits makes a row of digits, and an empty text is
/// none.
pub proof fn law_digits_value(s: Seq<char>, c: char)
    ensures
        digits_value(Seq::empty()) == 0,
        digits_value(s.push(c)) == 10 * digits_value(s) + (c as int - '0' as int),
        !is_digits(Seq::empty()),
        is_digits(s.push(c)) <==> is_digit(c) && (s.len() == 0 || is_digits(s)),
{
    reveal_with_fuel(digits_value, 2);
    let t = s.push(c);
    assert(t.drop_last() =~= s);
    assert(t.last() == c);
    if is_digits(t) {
        assert(is_digit(t[t.len() - 1]));
        assert forall|i: int| 0 <= i < s.len() implies is_digit(#[trigger] s[i]) by {
            assert(is_digit(t[i]));
        }
    }
    if is_digit(c) && (s.len() == 0 || is_digits(s)) {
        assert forall|i: int| 0 <= i < t.len() implies is_digit(#[trigger] t[i]) by {
            if i < s.len() {
                assert(is_digit(s[i]));
            }
        }
    }
}

/// An integer is a row of digits with at most one sign before it: `+` changes nothing,
/// and `-` turns the value round.
pub proof fn law_integers(s: Seq<char>)
    ensures
        is_digits(s) ==> integer_value(s) == Some(digits_value(s)),
        is_digits(s) ==> integer_value(seq!['+'] + s) == Some(digits_value(s)),
        is_digits(s) ==> integer_value(seq!['-'] + s) == Some(-digits_value(s)),
        integer_value(s) is Some ==> is_digits(s) || (s.len() > 1 && (s[0] == '+' || s[0] == '-')
            && is_digits(s.skip(1))),
{
    let plus = seq!['+'] + s;
    let minus = seq!['-'] + s;
    assert(plus.skip(1) =~= s);
    assert(minus.skip(1) =~= s);
    assert(!is_digits(plus)) by {
        assert(!is_digit(plus[0]));
    }
    assert(!is_digits(minus)) by {
        assert(!is_digit(minus[0]));
    }
}

/// A text is read as an `i64` exactly where it writes an integer from -2^63 to 2^63 - 1,
/// and then as that integer.
pub proof fn law_i64(s: Seq<char>)
    ensures
        i64_value(s) is Some <==> (integer_value(s) matches Some(v) && -0x8000_0000_0000_0000 <= v
            <= 0x7fff_ffff_ffff_ffff),
        i64_value(s) matches Some(n) ==> integer_value(s) == Some(n as int),
{
}

proof fn lemma_no_negative_digits(s: Seq<char>)
    requires
        is_digits(s),
    ensures
        digits_value(s) >= 0,
    decreases s.len(),
{
    assert(is_digit(s[s.len() - 1]));
    if s.len() > 1 {
        let rest = s.drop_last();
        assert forall|i: int| 0 <= i < rest.len() implies is_digit(#[trigger] rest[i]) by {
            assert(is_digit(s[i]));
        }
        lemma_no_negative_digits(rest);
    } else {
        reveal_with_fuel(digits_value, 2);
    }
}

/// A text is read as a `u32` exactly where it writes an integer from 0 to 2^32 - 1 without
/// a `-`, and then as that integer.
pub proof fn law_u32(s: Seq<char>)
    ensures
        u32_value(s) is Some <==> (integer_value(s) matches Some(v) && v <= 0xffff_ffff && s[0]
            != '-'),
        u32_value(s) matches Some(n) ==> integer_value(s) == Some(n as int),
{
    if s.len() > 0 {
        if s[0] == '+' || s[0] == '-' {
            assert(!is_digit(s[0]));
            assert(!is_digits(s));
        }
        if is_digits(s) {
            assert(is_digit(s[0]));
            lemma_no_negative_digits(s);
        }
        if is_digits(s.skip(1)) {
            lemma_no_negative_digits(s.skip(1));
        }
    }
}

/// A number is written as a row of digits that has its value and no leading zero.
pub proof fn law_decimal(n: nat)
    ensures
        is_digits(decimal(n)),
        digits_value(decimal(n)) == n,
        decimal(n).len() > 1 ==> decimal(n)[0] != '0',
    decreases n,
{
    reveal_with_fuel(digits_value, 2);
    if n >= 10 {
        let rest = decimal(n / 10);
        law_decimal(n / 10);
        assert(decimal(n).drop_last() =~= rest);
        assert(forall|i: int| 0 <= i < rest.len() ==> decimal(n)[i] == rest[i]);
        if rest.len() == 1 {
            assert(digits_value(rest) == n / 10);
            assert(rest.drop_last() =~= Seq::empty());
            assert(rest[0] != '0');
        }
    }
}

/// The pieces of a text between its commas.
pub open spec fn pieces(text: Seq<char>) -> Seq<Seq<char>>
    decreases text.len(),
{
    if text.len() == 0 {
        seq![Seq::empty()]
    } else {
        let before = pieces(text.drop_last());
        if text.last() == ',' {
            before.push(Seq::empty())
        } else {
            before.drop_last().push(before.last().push(text.last()))
        }
    }
}

/// What follows the last comma belongs to the last piece.
proof fn lemma_pieces_of_tail(text: Seq<char>, tail: Seq<char>)
    requires
        forall|i: int| 0 <= i < tail.len() ==> #[trigger] tail[i] != ',',
    ensures
        pieces(text).len() > 0,
        pieces(text + tail) =~= pieces(text).drop_last().push(pieces(text).last() + tail),
    decreases tail.len(),
{
    lemma_pieces_len(text);
    if tail.len() == 0 {
        assert(text + tail =~= text);
        assert(pieces(text).last() + tail =~= pieces(text).last());
    } else {
        lemma_pieces_of_tail(text, tail.drop_last());
        assert((text + tail).drop_last() =~= text + tail.drop_last());
        assert(pieces(text).last() + tail =~= (pieces(text).last() + tail.drop_last()).push(
            tail.last(),
        ));
        assert(tail[tail.len() - 1] != ',');
        let before = pieces(text + tail.drop_last());
        assert(before.drop_last() =~= pieces(text).drop_last());
    }
}

proof fn lemma_pieces_len(text: Seq<char>)
    ensures
        pieces(text).len() > 0,
    decreases text.len(),
{
    if text.len() > 0 {
        lemma_pieces_len(text.drop_last());
    }
}

/// A list of numbers names each of them and nothing else: split at its commas it gives as
/// many pieces as there are numbers, and each piece is the number at its place, in
/// decimal. The list of no numbers is empty.
pub proof fn law_list_of_numbers(parts: Seq<u32>)
    ensures
        parts.len() == 0 ==> comma_list(parts).len() == 0,
        parts.len() > 0 ==> pieces(comma_list(parts)).len() == parts.len(),
        parts.len() > 0 ==> forall|i: int|
            #![trigger parts[i]]
            #![trigger pieces(comma_list(parts))[i]]
            0 <= i < parts.len() ==> {
                let piece = pieces(comma_list(parts))[i];
                &&& is_digits(piece)
                &&& digits_value(piece) == parts[i]
                &&& piece.len() > 1 ==> piece[0] != '0'
            },
    decreases parts.len(),
{
    if parts.len() > 0 {
        let last = decimal(parts.last() as nat);
        law_decimal(parts.last() as nat);
        assert forall|i: int| 0 <= i < last.len() implies #[trigger] last[i] != ',' by {
            assert(is_digit(last[i]));
        }
        let all = pieces(comma_list(parts));
        if parts.len() == 1 {
            lemma_pieces_of_tail(Seq::empty(), last);
            assert(Seq::<char>::empty() + last =~= last);
            assert(all =~= seq![last]);
        } else {
            let before = comma_list(parts.drop_last());
            law_list_of_numbers(parts.drop_last());
            reveal_strlit(",");
            let begun = before + ","@;
            assert(begun.drop_last() =~= before);
            assert(begun.last() == ',');
            lemma_pieces_of_tail(begun, last);
            assert(Seq::<char>::empty() + last =~= last);
            assert(all =~= pieces(before).push(last));
            assert forall|i: int| 0 <= i < parts.len() implies {
                let piece = #[trigger] all[i];
                &&& is_digits(piece)
                &&& digits_value(piece) == parts[i]
                &&& piece.len() > 1 ==> piece[0] != '0'
            } by {
                if i < parts.len() - 1 {
                    assert(parts.drop_last()[i] == parts[i]);
                }
            }
        }
    }
}

/// Two lists of numbers that read alike hold the same numbers.
pub proof fn law_lists_of_numbers_differ(a: Seq<u32>, b: Seq<u32>)
    requires
        comma_list(a) == comma_list(b),
    ensures
        a == b,
{
    law_list_of_numbers(a);
    law_list_of_numbers(b);
    if a.len() == 0 && b.len() > 0 {
        law_no_empty_list(b);
    } else if a.len() > 0 && b.len() == 0 {
        law_no_empty_list(a);
    } else if a.len() > 0 {
        assert forall|i: int| 0 <= i < a.len() implies a[i] == b[i] by {
            assert(digits_value(pieces(comma_list(a))[i]) == a[i]);
            assert(digits_value(pieces(comma_list(b))[i]) == b[i]);
        }
        assert(a =~= b);
    } else {
        assert(a =~= b);
    }
}

/// A list of some numbers is not empty.
pub proof fn law_no_empty_list(parts: Seq<u32>)
    requires
        parts.len() > 0,
    ensures
        comma_list(parts).len() > 0,
{
    law_list_of_numbers(parts);
    if comma_list(parts).len() == 0 {
        assert(comma_list(parts) =~= Seq::empty());
        assert(is_digits(pieces(comma_list(parts))[0]));
    }
}

} // verus!
