use vstd::prelude::*;

use crate::connection::Window;
use crate::cursor::{decode_cursor, decoded_cursor};
use crate::window::{calculate_limit_offset, window_of, LIMIT};

verus! {

/// Why a pagination request was refused before any row was read.
#[derive(Clone, Copy, Debug, PartialEq, Eq, Structural)]
pub enum PageError {
    /// `first` was negative.
    NegativeFirst,
    /// `last` was negative.
    NegativeLast,
    /// `before` was not a cursor.
    InvalidBefore,
    /// `after` was not a cursor.
    InvalidAfter,
}

/// Pagination arguments with their cursors decoded into positions.
#[derive(Clone, Copy, Debug, PartialEq, Eq, Structural)]
pub struct PageArgs {
    pub after: Option<usize>,
    pub before: Option<usize>,
    pub first: Option<usize>,
    pub last: Option<usize>,
}

pub open spec fn text_of(o: Option<&str>) -> Option<Seq<char>> {
    match o {
        Some(s) => Some(s@),
        None => None,
    }
}

pub open spec fn is_negative(o: Option<i32>) -> bool {
    o is Some && o->0 < 0
}

pub open spec fn is_invalid_cursor(o: Option<Seq<char>>) -> bool {
    o is Some && decoded_cursor(o->0) is None
}

pub open spec fn position_of(o: Option<Seq<char>>) -> Option<usize> {
    match o {
        Some(s) => decoded_cursor(s),
        None => None,
    }
}

pub open spec fn count_of(o: Option<i32>) -> Option<usize> {
    match o {
        Some(n) => Some(n as usize),
        None => None,
    }
}

/// The outcome of decoding the raw arguments: the counts are checked first,
/// `first` before `last`, then the cursors, `before` before `after`.
pub open spec fn decoded_arguments(
    after: Option<Seq<char>>,
    before: Option<Seq<char>>,
    first: Option<i32>,
    last: Option<i32>,
) -> Result<PageArgs, PageError> {
    if is_negative(first) {
        Err(PageError::NegativeFirst)
    } else if is_negative(last) {
        Err(PageError::NegativeLast)
    } else if is_invalid_cursor(before) {
        Err(PageError::InvalidBefore)
    } else if is_invalid_cursor(after) {
        Err(PageError::InvalidAfter)
    } else {
        Ok(
            PageArgs {
                after: position_of(after),
                before: position_of(before),
                first: count_of(first),
                last: count_of(last),
            },
        )
    }
}

fn decode_count(n: Option<i32>) -> (r: Option<usize>)
    requires
        !is_negative(n),
    ensures
        r == count_of(n),
{
    match n {
        Some(n) => Some(n as usize),
        None => None,
    }
}

/// Checks the raw pagination arguments and decodes their cursors.
pub fn decode_arguments(
    after: Option<&str>,
    before: Option<&str>,
    first: Option<i32>,
    last: Option<i32>,
) -> (r: Result<PageArgs, PageError>)
    ensures
        r == decoded_arguments(text_of(after), text_of(before), first, last),
{
    if let Some(f) = first {
        if f < 0 {
            return Err(PageError::NegativeFirst);
        }
    }
    if let Some(l) = last {
        if l < 0 {
            return Err(PageError::NegativeLast);
        }
    }
    let before_position = match before {
        Some(text) => match decode_cursor(text) {
            Some(p) => Some(p),
            None => {
                return Err(PageError::InvalidBefore);
            },
        },
        None => None,
    };
    let after_position = match after {
        Some(text) => match decode_cursor(text) {
            Some(p) => Some(p),
            None => {
                return Err(PageError::InvalidAfter);
            },
        },
        None => None,
    };
    Ok(
        PageArgs {
            after: after_position,
            before: before_position,
            first: decode_count(first),
            last: decode_count(last),
        },
    )
}

impl PageArgs {
    /// The window that these arguments select out of `total_count` rows.
    pub fn window(&self, total_count: usize) -> (r: Window)
        ensures
            r.limit as int == window_of(total_count as int, self.after, self.before, self.first, self.last).0,
            r.offset as int == window_of(total_count as int, self.after, self.before, self.first, self.last).1,
            r.limit <= LIMIT,
            r.offset + r.limit <= total_count,
    {
        let (limit, offset) = calculate_limit_offset(total_count, self.after, self.before, self.first, self.last);
        Window { limit, offset }
    }
}

} // verus!
