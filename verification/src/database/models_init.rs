//! Paging parameters and paged results shared by every listing query.
use vstd::prelude::*;

use crate::decimal::{int_text, is_digit, lemma_parse_int_text, lemma_parse_reads_digits, parse_i64, spec_parse_i64};

verus! {

/// The rows of one page, the cursor that continues after them, and whether a
/// further page may exist.
pub struct DBQueryResult<T> {
    pub items: Vec<T>,
    pub cursor: Option<String>,
    pub has_more: bool,
}

/// Page information of a GraphQL connection.
pub struct PageInfo {
    pub start_cursor: Option<String>,
    pub end_cursor: Option<String>,
    pub has_next_page: bool,
}

/// Number of rows of a page when the request names no limit.
pub const DEFAULT_PAGE_SIZE: i32 = 20;

/// Paging parameters of a listing query: how many rows, and the cursor after
/// which they start.
pub struct PagingParams {
    pub limit: Option<i32>,
    pub cursor: Option<String>,
}

/// The limit that `get_limit` reads from `limit`.
pub open spec fn spec_limit(limit: Option<i32>) -> int {
    match limit {
        None => DEFAULT_PAGE_SIZE as int,
        Some(l) => l as int,
    }
}

/// The cursor that `get_cursor` reads from `cursor`: the number that the text
/// denotes, and 0 when there is no text or it is not a number.
pub open spec fn spec_cursor(cursor: Option<String>) -> int {
    match cursor {
        None => 0,
        Some(c) => match spec_parse_i64(c@) {
            Some(v) => v,
            None => 0,
        },
    }
}

/// The page size is the one asked for, whatever its value, and 20 when
/// none is asked for.
pub proof fn lemma_limit_is_the_one_asked_for(l: i32)
    ensures
        spec_limit(Some(l)) == l as int,
        spec_limit(None) == 20,
{
}

/// The cursor is the number that its text denotes as `str::parse::<i64>`
/// reads it, in particular the timestamp whose decimal text it is; 0 when there is no
/// cursor, and 0 when its text is empty, a lone sign, or holds any
/// character that is neither a digit nor a leading sign.
pub proof fn lemma_cursor_is_the_timestamp(c: String, v: i64)
    ensures
        spec_cursor(None) == 0,
        spec_parse_i64(c@) matches Some(x) ==> spec_cursor(Some(c)) == x,
        c@ == int_text(v as int) ==> spec_cursor(Some(c)) == v,
        c@.len() == 0 ==> spec_cursor(Some(c)) == 0,
        c@.len() == 1 && !is_digit(c@[0]) ==> spec_cursor(Some(c)) == 0,
        (exists|i: int| 0 < i < c@.len() && !is_digit(#[trigger] c@[i])) ==> spec_cursor(Some(c))
            == 0,
        c@.len() > 0 && !is_digit(c@[0]) && c@[0] != '-' && c@[0] != '+' ==> spec_cursor(Some(c))
            == 0,
{
    lemma_parse_int_text(v);
    lemma_parse_reads_digits(c@);
}

impl PagingParams {
    /// The requested page size, `DEFAULT_PAGE_SIZE` when none is given.
    pub fn get_limit(&self) -> (res: i32)
        ensures
            res == spec_limit(self.limit),
    {
        match self.limit {
            None => DEFAULT_PAGE_SIZE,
            Some(limit) => limit,
        }
    }

    /// The cursor as a timestamp: the decimal number in `cursor`, or 0 when
    /// it is absent or not a decimal `i64`.
    pub fn get_cursor(&self) -> (res: i64)
        ensures
            res == spec_cursor(self.cursor),
    {
        match &self.cursor {
            None => 0,
            Some(cursor) => match parse_i64(cursor.as_str()) {
                Some(v) => v,
                None => 0,
            },
        }
    }
}

impl Default for PagingParams {
    fn default() -> (res: Self)
        ensures
            res.limit == Some(DEFAULT_PAGE_SIZE),
            res.cursor is None,
    {
        PagingParams { limit: Some(DEFAULT_PAGE_SIZE), cursor: None }
    }
}

} // verus!
