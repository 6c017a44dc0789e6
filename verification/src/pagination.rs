//! Pages of a listing.

use vstd::prelude::*;
use crate::error::AppError;
use crate::models::{ArchivedMessage, Message, PaginatedArchivedMessages, PaginatedMessages};

verus! {

/// The page that is shown where the request names none.
pub const DEFAULT_PAGE: i64 = 1;

/// The number of rows on a page where the request names none.
pub const DEFAULT_LIMIT: i64 = 10;

/// The part of a listing that a request asks for.
#[derive(Debug, Clone, Copy, PartialEq, Eq, Structural)]
pub struct PageWindow {
    pub page: i64,
    pub limit: i64,
    /// The number of rows that precede the page.
    pub offset: i64,
}

/// The page that a request asks for.
pub open spec fn page_of(page: Option<i64>) -> i64 {
    match page {
        Some(p) => p,
        None => DEFAULT_PAGE,
    }
}

/// The number of rows per page that a request asks for.
pub open spec fn limit_of(limit: Option<i64>) -> i64 {
    match limit {
        Some(l) => l,
        None => DEFAULT_LIMIT,
    }
}

/// The number of rows that precede the page that a request asks for.
pub open spec fn offset_of(page: Option<i64>, limit: Option<i64>) -> int {
    (page_of(page) - 1) * limit_of(limit)
}

/// Whether the offset of a request can be held in 64 bits.
pub open spec fn offset_fits(page: Option<i64>, limit: Option<i64>) -> bool {
    &&& i64::MIN <= page_of(page) - 1
    &&& i64::MIN <= offset_of(page, limit) <= i64::MAX
}

/// The part of a listing that a request asks for: page 1 and 10 rows where
/// it names none, and before the page `(page - 1) * limit` rows. `None`
/// where that number cannot be held in 64 bits.
pub fn page_window(page: Option<i64>, limit: Option<i64>) -> (r: Option<PageWindow>)
    ensures
        match r {
            Some(w) => {
                &&& offset_fits(page, limit)
                &&& w.page == page_of(page)
                &&& w.limit == limit_of(limit)
                &&& w.offset == offset_of(page, limit)
            },
            None => !offset_fits(page, limit),
        },
{
    let p: i64 = match page {
        Some(p) => p,
        None => DEFAULT_PAGE,
    };
    let l: i64 = match limit {
        Some(l) => l,
        None => DEFAULT_LIMIT,
    };
    let before: i64 = match p.checked_sub(1) {
        Some(b) => b,
        None => {
            return None;
        },
    };
    match before.checked_mul(l) {
        Some(offset) => Some(PageWindow { page: p, limit: l, offset }),
        None => None,
    }
}

/// A page of active messages for an admin; anyone else is refused before
/// anything is shown.
pub fn get_messages(authenticated: bool, data: Vec<Message>, total: i64, window: PageWindow) -> (r:
    Result<PaginatedMessages, AppError>)
    ensures
        !authenticated ==> r == Err::<PaginatedMessages, AppError>(AppError::Unauthorized),
        authenticated ==> r == Ok::<PaginatedMessages, AppError>(
            PaginatedMessages { data, total, page: window.page, limit: window.limit },
        ),
{
    if !authenticated {
        return Err(AppError::Unauthorized);
    }
    Ok(PaginatedMessages { data, total, page: window.page, limit: window.limit })
}

/// A page of the archive for an admin; anyone else is refused before
/// anything is shown.
pub fn get_archived_messages(
    authenticated: bool,
    data: Vec<ArchivedMessage>,
    total: i64,
    window: PageWindow,
) -> (r: Result<PaginatedArchivedMessages, AppError>)
    ensures
        !authenticated ==> r == Err::<PaginatedArchivedMessages, AppError>(
            AppError::Unauthorized,
        ),
        authenticated ==> r == Ok::<PaginatedArchivedMessages, AppError>(
            PaginatedArchivedMessages { data, total, page: window.page, limit: window.limit },
        ),
{
    if !authenticated {
        return Err(AppError::Unauthorized);
    }
    Ok(PaginatedArchivedMessages { data, total, page: window.page, limit: window.limit })
}

} // verus!
