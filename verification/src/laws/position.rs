//! Positions that are written into a URL and read back from it.
use vstd::prelude::*;

use crate::error::ErrorView;
use crate::paging::{position_of, value_of, Position};
use crate::text::{decimal, digits_value, i64_value, is_digits};

verus! {

/// A number in decimal is a row of digits with the value of the number.
proof fn lemma_decimal_value(n: nat)
    ensures
        is_digits(decimal(n)),
        digits_value(decimal(n)) == n,
    decreases n,
{
    reveal_with_fuel(digits_value, 2);
    if n >= 10 {
        let rest = decimal(n / 10);
        lemma_decimal_value(n / 10);
        assert(decimal(n).drop_last() =~= rest);
        assert(forall|i: int| 0 <= i < rest.len() ==> decimal(n)[i] == rest[i]);
    }
}

/// A number that is written in decimal is read back.
pub proof fn law_decimal_is_read_back(n: nat)
    requires
        n <= i64::MAX,
    ensures
        i64_value(decimal(n)) == Some(n as i64),
{
    lemma_decimal_value(n);
}

/// A position whose numbers stand in a query in decimal is read back from it, whatever
/// else stands there.
pub proof fn law_position_is_read_back(
    pairs: Seq<(Seq<char>, Seq<char>)>,
    item_id: nat,
    created_at: nat,
)
    requires
        item_id <= i64::MAX,
        created_at <= i64::MAX,
        value_of(pairs, "item_id"@) == Some(decimal(item_id)),
        value_of(pairs, "created_at"@) == Some(decimal(created_at)),
    ensures
        position_of(pairs) == Ok::<Position, ErrorView>(
            Position { item_id: item_id as i64, created_at: created_at as i64 },
        ),
{
    law_decimal_is_read_back(item_id);
    law_decimal_is_read_back(created_at);
}

/// The last of several values for a name counts: a pair that is added at the end of a
/// query decides the value of its name, and of no other.
pub proof fn law_last_value_counts(
    pairs: Seq<(Seq<char>, Seq<char>)>,
    name: Seq<char>,
    value: Seq<char>,
    other: Seq<char>,
)
    ensures
        value_of(pairs.push((name, value)), name) == Some(value),
        other != name ==> value_of(pairs.push((name, value)), other) == value_of(pairs, other),
{
    assert(pairs.push((name, value)).drop_last() =~= pairs);
}

} // verus!
