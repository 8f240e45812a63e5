//! The steps that every resource's create, get, list, update and delete share:
//! page-size bounds and the outcomes of a store lookup or delete.

use vstd::prelude::*;
use crate::error::{Code, ServiceError};
use crate::keys::{id_of, participation_key_of};

verus! {

/// Page size used when a listing asks for none.
pub const DEFAULT_PAGE_SIZE: i32 = 100;

/// The most rows a single listing returns.
pub const MAX_PAGE_SIZE: i32 = 500;

/// The number of rows a listing asks the store for.
pub open spec fn page_limit(page_size: i32) -> int {
    if page_size <= 0 {
        DEFAULT_PAGE_SIZE as int
    } else if page_size > MAX_PAGE_SIZE {
        MAX_PAGE_SIZE as int
    } else {
        page_size as int
    }
}

/// Bounds a requested page size: none or a negative one means the default, and no
/// page holds more than the maximum.
pub fn sanitize_page_size(page_size: i32) -> (r: i64)
    ensures
        r == page_limit(page_size),
        1 <= r <= MAX_PAGE_SIZE,
{
    let size = if page_size <= 0 {
        DEFAULT_PAGE_SIZE
    } else {
        page_size
    };
    let capped = if size < MAX_PAGE_SIZE {
        size
    } else {
        MAX_PAGE_SIZE
    };
    capped as i64
}

/// What a point lookup yields: the row, or `NotFound` when no row matched.
pub open spec fn lookup_outcome<T>(row: Option<T>) -> Result<T, Code> {
    match row {
        Some(x) => Ok(x),
        None => Err(Code::NotFound),
    }
}

/// The row of a point lookup, or `NotFound` when no row matched.
pub fn require_found<T>(row: Option<T>, message: &str) -> (r: Result<T, ServiceError>)
    ensures
        match r {
            Ok(x) => lookup_outcome(row) == Ok::<T, Code>(x),
            Err(e) => lookup_outcome(row) == Err::<T, Code>(e.code),
        },
{
    match row {
        Some(x) => Ok(x),
        None => Err(ServiceError::not_found(message)),
    }
}

/// What a delete yields, given how many rows it removed.
pub open spec fn deletion_outcome(rows_affected: u64) -> Result<(), Code> {
    if rows_affected == 0 {
        Err(Code::NotFound)
    } else {
        Ok(())
    }
}

/// Success when the delete removed a row; `NotFound` when it matched none.
pub fn require_deleted(rows_affected: u64, message: &str) -> (r: Result<(), ServiceError>)
    ensures
        match r {
            Ok(_) => deletion_outcome(rows_affected) == Ok::<(), Code>(()),
            Err(e) => deletion_outcome(rows_affected) == Err::<(), Code>(e.code),
        },
{
    if rows_affected == 0 {
        Err(ServiceError::not_found(message))
    } else {
        Ok(())
    }
}

/// The row that a point lookup finds in a table of the store.
pub open spec fn select_row<K, R>(table: Map<K, R>, key: K) -> Option<R> {
    if table.dom().contains(key) {
        Some(table[key])
    } else {
        None
    }
}

/// What a delete by exact key leaves in a table, and how many rows it removed.
pub open spec fn delete_row<K, R>(table: Map<K, R>, key: K) -> (Map<K, R>, u64) {
    (table.remove(key), if table.dom().contains(key) {
        1
    } else {
        0
    })
}

/// What an update leaves in a table: the resolved row where the update was accepted, and the
/// table as it was where it was refused.
pub open spec fn update_row<K, R>(table: Map<K, R>, key: K, resolved: Result<R, Code>) -> Map<K, R> {
    match resolved {
        Ok(row) => if table.dom().contains(key) {
            table.insert(key, row)
        } else {
            table
        },
        Err(_) => table,
    }
}

/// Deleting a stored resource by its name succeeds, and a get by the same name afterwards is
/// `NotFound`.
pub proof fn lemma_get_after_delete<R>(table: Map<i64, R>, name: Seq<char>)
    requires
        id_of(name) matches Some(k) && table.dom().contains(k),
    ensures
        deletion_outcome(delete_row(table, id_of(name)->Some_0).1) == Ok::<(), Code>(()),
        lookup_outcome(select_row(delete_row(table, id_of(name)->Some_0).0, id_of(name)->Some_0))
            == Err::<R, Code>(Code::NotFound),
{
}

/// Deleting a stored participation by its name succeeds, and a get by the same name afterwards
/// is `NotFound`.
pub proof fn lemma_get_participation_after_delete<R>(
    table: Map<(u64, u64, Seq<char>), R>,
    name: Seq<char>,
)
    requires
        participation_key_of(name) matches Some(k) && table.dom().contains(k),
    ensures
        deletion_outcome(delete_row(table, participation_key_of(name)->Some_0).1) == Ok::<(), Code>(
            (),
        ),
        lookup_outcome(
            select_row(
                delete_row(table, participation_key_of(name)->Some_0).0,
                participation_key_of(name)->Some_0,
            ),
        ) == Err::<R, Code>(Code::NotFound),
{
}

/// A refused update leaves the stored row as it was.
pub proof fn lemma_refused_update_keeps_row<K, R>(table: Map<K, R>, key: K, code: Code)
    ensures
        select_row(update_row(table, key, Err(code)), key) == select_row(table, key),
{
}

} // verus!
