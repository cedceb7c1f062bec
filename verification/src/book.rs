//! One book of the collection, and what can be done to it.

use crate::text::decimal;
use crate::text::decimal_text;
use crate::text::parse_number;
use crate::text::read_pages;
use vstd::prelude::*;
use vstd::string::StringExecFns;

verus! {

/// A book: title, author, page count, and whether it can be borrowed.
#[derive(Debug, PartialEq, Eq)]
pub struct Book {
    pub title: String,
    pub author: String,
    pub pages: u32,
    pub is_available: bool,
}

/// What a `Book` is, as plain mathematical values.
pub struct BookView {
    pub title: Seq<char>,
    pub author: Seq<char>,
    pub pages: nat,
    pub is_available: bool,
}

impl View for Book {
    type V = BookView;

    open spec fn view(&self) -> BookView {
        BookView {
            title: self.title@,
            author: self.author@,
            pages: self.pages as nat,
            is_available: self.is_available,
        }
    }
}

impl Clone for Book {
    /// A second book with the same title, author, page count and status.
    fn clone(&self) -> (copy: Book)
        ensures
            copy@ == self@,
    {
        Book {
            title: self.title.clone(),
            author: self.author.clone(),
            pages: self.pages,
            is_available: self.is_available,
        }
    }
}

/// How an attempt to borrow a book ended.
#[derive(Debug, Clone, Copy, PartialEq, Eq, Structural)]
pub enum BorrowOutcome {
    /// The book was available and is now borrowed.
    Borrowed,
    /// The book was borrowed already; nothing changed.
    AlreadyBorrowed,
}

/// How an attempt to return a book ended.
#[derive(Debug, Clone, Copy, PartialEq, Eq, Structural)]
pub enum ReturnOutcome {
    /// The book was borrowed and is now available.
    Returned,
    /// The book was not borrowed; nothing changed.
    NotBorrowed,
}

/// Why three entries do not make a book.
#[derive(Debug, Clone, Copy, PartialEq, Eq, Structural)]
pub enum EntryError {
    /// The page count is not a decimal number that fits in 32 bits.
    InvalidPageCount,
}

/// A book that has just entered the collection: it is available.
pub open spec fn fresh(title: Seq<char>, author: Seq<char>, pages: nat) -> BookView {
    BookView { title, author, pages, is_available: true }
}

/// The book `b` once it is borrowed.
pub open spec fn lent(b: BookView) -> BookView {
    BookView { is_available: false, ..b }
}

/// The book `b` once it is back.
pub open spec fn back(b: BookView) -> BookView {
    BookView { is_available: true, ..b }
}

/// What borrowing the book `b` reports.
pub open spec fn borrow_outcome(b: BookView) -> BorrowOutcome {
    if b.is_available {
        BorrowOutcome::Borrowed
    } else {
        BorrowOutcome::AlreadyBorrowed
    }
}

/// What returning the book `b` reports.
pub open spec fn return_outcome(b: BookView) -> ReturnOutcome {
    if b.is_available {
        ReturnOutcome::NotBorrowed
    } else {
        ReturnOutcome::Returned
    }
}

/// The word for a book's availability.
pub open spec fn status_word(available: bool) -> Seq<char> {
    if available {
        "Available"@
    } else {
        "Borrowed"@
    }
}

/// The four lines that describe a book.
pub open spec fn description(b: BookView) -> Seq<char> {
    "Title: "@ + b.title + "\nAuthor: "@ + b.author + "\nPages: "@ + decimal(b.pages)
        + "\nStatus: "@ + status_word(b.is_available)
}

/// The sentence that reports a borrowing of the book titled `title`.
pub open spec fn borrow_report(outcome: BorrowOutcome, title: Seq<char>) -> Seq<char> {
    match outcome {
        BorrowOutcome::Borrowed => "You have borrowed \""@ + title + "\"."@,
        BorrowOutcome::AlreadyBorrowed => "\""@ + title + "\" is already borrowed."@,
    }
}

/// The sentence that reports a return of the book titled `title`.
pub open spec fn return_report(outcome: ReturnOutcome, title: Seq<char>) -> Seq<char> {
    match outcome {
        ReturnOutcome::Returned => "You have returned \""@ + title + "\"."@,
        ReturnOutcome::NotBorrowed => "\""@ + title + "\" was not borrowed."@,
    }
}

/// One field of a book after an edit: an empty entry keeps the old text,
/// any other entry replaces it.
pub open spec fn edited_text(current: Seq<char>, entry: Seq<char>) -> Seq<char> {
    if entry.len() == 0 {
        current
    } else {
        entry
    }
}

/// The page count after an edit: an entry that is a page count replaces the
/// old one, any other entry keeps it.
pub open spec fn edited_pages(current: nat, entry: Seq<char>) -> nat {
    match parse_number(entry, u32::MAX as nat) {
        Some(pages) => pages,
        None => current,
    }
}

/// The book `b` after an edit with the three entries. Availability stays.
pub open spec fn edited(
    b: BookView,
    title: Seq<char>,
    author: Seq<char>,
    pages: Seq<char>,
) -> BookView {
    BookView {
        title: edited_text(b.title, title),
        author: edited_text(b.author, author),
        pages: edited_pages(b.pages, pages),
        is_available: b.is_available,
    }
}

/// The book that three entries describe, if the third is a page count.
/// Title and author are taken as they are, and may be empty.
pub open spec fn entered(
    title: Seq<char>,
    author: Seq<char>,
    pages: Seq<char>,
) -> Result<BookView, EntryError> {
    match parse_number(pages, u32::MAX as nat) {
        Some(count) => Ok(fresh(title, author, count)),
        None => Err(EntryError::InvalidPageCount),
    }
}

impl Book {
    /// A new book, available for borrowing.
    pub fn new(title: String, author: String, pages: u32) -> (book: Book)
        ensures
            book@ == fresh(title@, author@, pages as nat),
    {
        Book { title, author, pages, is_available: true }
    }

    /// Makes a book from what was entered for title, author and page count.
    pub fn from_entries(title: &str, author: &str, pages: &str) -> (made: Result<
        Book,
        EntryError,
    >)
        ensures
            made is Ok <==> entered(title@, author@, pages@) is Ok,
            made is Ok ==> made->Ok_0@ == entered(title@, author@, pages@)->Ok_0,
            made is Err ==> made->Err_0 == entered(title@, author@, pages@)->Err_0,
    {
        match read_pages(pages) {
            Some(count) => Ok(Book::new(String::from_str(title), String::from_str(author), count)),
            None => Err(EntryError::InvalidPageCount),
        }
    }

    /// Borrows the book if it is available, and says which it was.
    pub fn borrow(&mut self) -> (outcome: BorrowOutcome)
        ensures
            final(self)@ == lent(old(self)@),
            outcome == borrow_outcome(old(self)@),
    {
        if self.is_available {
            self.is_available = false;
            BorrowOutcome::Borrowed
        } else {
            BorrowOutcome::AlreadyBorrowed
        }
    }

    /// Takes the book back if it is borrowed, and says which it was.
    pub fn return_book(&mut self) -> (outcome: ReturnOutcome)
        ensures
            final(self)@ == back(old(self)@),
            outcome == return_outcome(old(self)@),
    {
        if !self.is_available {
            self.is_available = true;
            ReturnOutcome::Returned
        } else {
            ReturnOutcome::NotBorrowed
        }
    }

    /// Title, author, page count and status, one per line.
    pub fn describe(&self) -> (text: String)
        ensures
            text@ == description(self@),
    {
        let mut text = String::from_str("Title: ");
        text.append(self.title.as_str());
        text.append("\nAuthor: ");
        text.append(self.author.as_str());
        text.append("\nPages: ");
        text.append(decimal_text(self.pages as u64).as_str());
        text.append("\nStatus: ");
        text.append(
            if self.is_available {
                "Available"
            } else {
                "Borrowed"
            },
        );
        text
    }
}

/// Changes title, author and page count of `book` as the three entries say:
/// an empty entry keeps the text, and so does an entry for the page count
/// that is no page count. Availability stays as it is.
pub fn edit_book(book: &mut Book, title: &str, author: &str, pages: &str)
    ensures
        final(book)@ == edited(old(book)@, title@, author@, pages@),
{
    if !title.is_empty() {
        book.title = String::from_str(title);
    }
    if !author.is_empty() {
        book.author = String::from_str(author);
    }
    match read_pages(pages) {
        Some(count) => {
            book.pages = count;
        },
        None => {},
    }
}

impl BorrowOutcome {
    /// The sentence that reports this outcome for the book titled `title`.
    pub fn report(&self, title: &str) -> (text: String)
        ensures
            text@ == borrow_report(*self, title@),
    {
        match self {
            BorrowOutcome::Borrowed => {
                let mut text = String::from_str("You have borrowed \"");
                text.append(title);
                text.append("\".");
                text
            },
            BorrowOutcome::AlreadyBorrowed => {
                let mut text = String::from_str("\"");
                text.append(title);
                text.append("\" is already borrowed.");
                text
            },
        }
    }
}

impl ReturnOutcome {
    /// The sentence that reports this outcome for the book titled `title`.
    pub fn report(&self, title: &str) -> (text: String)
        ensures
            text@ == return_report(*self, title@),
    {
        match self {
            ReturnOutcome::Returned => {
                let mut text = String::from_str("You have returned \"");
                text.append(title);
                text.append("\".");
                text
            },
            ReturnOutcome::NotBorrowed => {
                let mut text = String::from_str("\"");
                text.append(title);
                text.append("\" was not borrowed.");
                text
            },
        }
    }
}

/// An edit with three empty entries leaves the book as it is.
pub proof fn empty_edit_keeps_book(b: BookView)
    ensures
        edited(b, Seq::empty(), Seq::empty(), Seq::empty()) == b,
{
}

/// Borrowing a book twice in a row leaves it borrowed after either call, and
/// the second call reports that it was borrowed already.
pub proof fn borrow_twice(b: BookView)
    ensures
        !lent(b).is_available,
        lent(lent(b)) == lent(b),
        borrow_outcome(lent(b)) == BorrowOutcome::AlreadyBorrowed,
        borrow_report(borrow_outcome(lent(b)), lent(b).title) == "\""@ + b.title
            + "\" is already borrowed."@,
{
}

/// Returning a book twice in a row leaves it available after either call,
/// and the second call reports that it was not borrowed.
pub proof fn return_twice(b: BookView)
    ensures
        back(b).is_available,
        back(back(b)) == back(b),
        return_outcome(back(b)) == ReturnOutcome::NotBorrowed,
        return_report(return_outcome(back(b)), back(b).title) == "\""@ + b.title
            + "\" was not borrowed."@,
{
}

} // verus!
