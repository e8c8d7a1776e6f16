//! Which page of a list a request asks for.
use vstd::prelude::*;

use crate::datetime::{civil_at, Civil, NaiveDateTime, MAX_TIMESTAMP};
use crate::error::{by_view, error_answer, CustomError, ErrorView, StatusCode};
use crate::text::{i64_value, parse_i64};

verus! {

/// The names and values of the query of a URL, decoded, in the order in which they
/// stand there; none where the text is not an absolute URL.
pub uninterp spec fn url_query_pairs(uri: Seq<char>) -> Option<Seq<(Seq<char>, Seq<char>)>>;

/// Calls `url::Url::parse`, and `url::Url::query_pairs` on the URL that it returns.
///
/// Believed of them: whether the text is a URL, and the pairs of its query, depend on
/// the text alone.
#[verifier::external_body]
fn query_pairs(uri: &str) -> (pairs: Option<Vec<(String, String)>>)
    ensures
        pairs.deep_view() == url_query_pairs(uri@),
{
    match url::Url::parse(uri) {
        Ok(url) => Some(url.query_pairs().into_owned().collect()),
        Err(_) => None,
    }
}

/// The value of `name` in a query: of several, the last one.
pub open spec fn value_of(pairs: Seq<(Seq<char>, Seq<char>)>, name: Seq<char>) -> Option<Seq<char>>
    decreases pairs.len(),
{
    if pairs.len() == 0 {
        None
    } else if pairs.last().0 == name {
        Some(pairs.last().1)
    } else {
        value_of(pairs.drop_last(), name)
    }
}

/// The integer that is the value of `name` in a query.
pub open spec fn integer_of(pairs: Seq<(Seq<char>, Seq<char>)>, name: Seq<char>) -> Option<i64> {
    match value_of(pairs, name) {
        Some(value) => i64_value(value),
        None => None,
    }
}

fn find_integer(pairs: &Vec<(String, String)>, name: &str) -> (value: Option<i64>)
    ensures
        value == integer_of(pairs.deep_view(), name@),
{
    let wanted = name.to_string();
    let ghost all = pairs.deep_view();
    let mut i: usize = pairs.len();
    assert(all.take(all.len() as int) == all);
    while i > 0
        invariant
            i <= pairs.len(),
            all == pairs.deep_view(),
            wanted@ == name@,
            value_of(all, name@) == value_of(all.take(i as int), name@),
        decreases i,
    {
        i = i - 1;
        assert(all.take(i + 1).drop_last() == all.take(i as int));
        assert(all.take(i + 1).last() == all[i as int]);
        if pairs[i].0 == wanted {
            return parse_i64(pairs[i].1.as_str());
        }
    }
    None
}

/// The place in a list that a request names: an item and the time of its creation.
#[derive(Clone, Copy, Debug, PartialEq, Eq)]
pub struct Position {
    pub item_id: i64,
    pub created_at: i64,
}

/// The position that a query names. Both numbers have to be there.
pub open spec fn position_of(pairs: Seq<(Seq<char>, Seq<char>)>) -> Result<Position, ErrorView> {
    match (integer_of(pairs, "item_id"@), integer_of(pairs, "created_at"@)) {
        (None, _) => Err(
            error_answer(StatusCode::InternalServerError, "item_id param error"@),
        ),
        (_, None) => Err(
            error_answer(StatusCode::InternalServerError, "created_at param error"@),
        ),
        (Some(item_id), Some(created_at)) => Ok(Position { item_id, created_at }),
    }
}

/// Reads the position from the pairs of a query.
pub fn position(pairs: &Vec<(String, String)>) -> (r: Result<Position, CustomError>)
    ensures
        by_view(r) == position_of(pairs.deep_view()),
{
    let item_id = match find_integer(pairs, "item_id") {
        Some(item_id) => item_id,
        None => {
            return Err(CustomError::new(StatusCode::InternalServerError, "item_id param error"));
        },
    };
    let created_at = match find_integer(pairs, "created_at") {
        Some(created_at) => created_at,
        None => {
            return Err(CustomError::new(StatusCode::InternalServerError, "created_at param error"));
        },
    };
    Ok(Position { item_id, created_at })
}

/// The position that a URL names; none where the text is no URL.
pub open spec fn uri_position(uri: Seq<char>) -> Option<Result<Position, ErrorView>> {
    match url_query_pairs(uri) {
        Some(pairs) => Some(position_of(pairs)),
        None => None,
    }
}

/// Reads the position from a URL; none where the text is no URL.
pub fn position_in_uri(uri: &str) -> (r: Option<Result<Position, CustomError>>)
    ensures
        r is Some <==> uri_position(uri@) is Some,
        r matches Some(p) ==> Some(by_view(p)) == uri_position(uri@),
{
    match query_pairs(uri) {
        Some(pairs) => Some(position(&pairs)),
        None => None,
    }
}

/// The part of a list that a query asks the database for.
#[derive(Clone, Copy, Debug, PartialEq, Eq)]
pub enum Cursor {
    /// The list from its start.
    FirstPage,
    /// What follows the item with this id and creation time.
    After(NaiveDateTime, i64),
}

/// The model of a cursor.
pub enum CursorView {
    FirstPage,
    After(Civil, i64),
}

impl View for Cursor {
    type V = CursorView;

    open spec fn view(&self) -> CursorView {
        match *self {
            Cursor::FirstPage => CursorView::FirstPage,
            Cursor::After(created_at, item_id) => CursorView::After(created_at@, item_id),
        }
    }
}

/// The cursor for a position. A position counts only where both of its numbers are
/// positive. None where its time lies beyond the range of dates.
pub open spec fn cursor_for(p: Position) -> Option<CursorView> {
    if p.item_id > 0 && p.created_at > 0 {
        if p.created_at <= MAX_TIMESTAMP {
            Some(CursorView::After(civil_at(p.created_at as int), p.item_id))
        } else {
            None
        }
    } else {
        Some(CursorView::FirstPage)
    }
}

impl Position {
    /// The cursor for this position; none where its time lies beyond the range of
    /// dates.
    pub fn cursor(&self) -> (c: Option<Cursor>)
        ensures
            c is Some <==> cursor_for(*self) is Some,
            c matches Some(v) ==> Some(v@) == cursor_for(*self),
    {
        if self.item_id > 0 && self.created_at > 0 {
            match NaiveDateTime::from_timestamp(self.created_at) {
                Some(created_at) => Some(Cursor::After(created_at, self.item_id)),
                None => None,
            }
        } else {
            Some(Cursor::FirstPage)
        }
    }
}

} // verus!
