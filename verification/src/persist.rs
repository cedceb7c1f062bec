//! Opening the collection from what was found where it is kept.
//!
//! Reading and writing the file is the caller's business. This module
//! decides what a finding means: no file is an empty collection, a file
//! that cannot be understood is an error and never an empty collection.

use crate::book::Book;
use crate::store::Store;
use vstd::prelude::*;

verus! {

/// What was found where the collection is kept.
#[derive(Debug, PartialEq, Eq)]
pub enum Saved {
    /// There is no file.
    Missing,
    /// The file holds these books, in this order.
    Books(Vec<Book>),
    /// The file does not hold a list of books; `reason` says why.
    Malformed { reason: String },
}

/// Why a collection could not be opened.
#[derive(Debug, PartialEq, Eq)]
pub enum LoadError {
    /// The file does not hold a list of books; `reason` says why.
    Malformed { reason: String },
}

/// Opens the collection: empty where there is no file yet, with the books
/// of the file where there is one, and not at all where the file is
/// malformed.
pub fn open_store(saved: Saved) -> (opened: Result<Store, LoadError>)
    ensures
        saved is Missing ==> opened is Ok && opened->Ok_0.books@ == Seq::<Book>::empty(),
        saved is Books ==> opened is Ok && opened->Ok_0.books == saved->Books_0,
        saved is Malformed ==> opened is Err && opened->Err_0 == (LoadError::Malformed {
            reason: saved->reason,
        }),
{
    match saved {
        Saved::Missing => Ok(Store::new()),
        Saved::Books(books) => Ok(Store::from_books(books)),
        Saved::Malformed { reason } => Err(LoadError::Malformed { reason }),
    }
}

} // verus!
