//! The collection: an ordered sequence of books, addressed by position.
//!
//! A position is no lasting name for a book: deleting a book moves every
//! later book one position down.

use crate::book::back;
use crate::book::borrow_outcome;
use crate::book::edit_book;
use crate::book::edited;
use crate::book::lent;
use crate::book::return_outcome;
use crate::book::Book;
use crate::book::BookView;
use crate::book::BorrowOutcome;
use crate::book::ReturnOutcome;
use crate::text::contains;
use crate::text::decimal;
use crate::text::decimal_text;
use crate::text::lowercase;
use crate::text::occurs_in;
use crate::text::texts;
use vstd::prelude::*;
use vstd::seq_lib::lemma_filter_view_commute;
use vstd::string::StringExecFns;

verus! {

/// The books of a collection, in order.
#[derive(Debug, PartialEq, Eq)]
pub struct Store {
    pub books: Vec<Book>,
}

/// Why an operation on the collection was not carried out.
#[derive(Debug, Clone, Copy, PartialEq, Eq, Structural)]
pub enum StoreError {
    /// The position is not below the number of books.
    InvalidIndex,
}

/// How many books there are, and how many of them are out or in.
#[derive(Debug, Clone, Copy, PartialEq, Eq, Structural)]
pub struct Statistics {
    pub total: usize,
    pub borrowed: usize,
    pub available: usize,
}

/// The books of a sequence as plain values.
pub open spec fn views(books: Seq<Book>) -> Seq<BookView> {
    books.map_values(|b: Book| b@)
}

/// The books that a sequence of references points to.
pub open spec fn pointees(refs: Seq<&Book>) -> Seq<Book> {
    refs.map_values(|b: &Book| *b)
}

impl View for Store {
    type V = Seq<BookView>;

    open spec fn view(&self) -> Seq<BookView> {
        views(self.books@)
    }
}

/// Whether a book answers a query: the query is empty, or its lower-case
/// form is part of the lower-case form of the title or of the author.
pub open spec fn answers(b: BookView, query: Seq<char>) -> bool {
    ||| query.len() == 0
    ||| occurs_in(lowercase(query), lowercase(b.title))
    ||| occurs_in(lowercase(query), lowercase(b.author))
}

/// The books among `books` that answer `query`, in their order.
pub open spec fn matching(books: Seq<Book>, query: Seq<char>) -> Seq<Book> {
    books.filter(|b: Book| answers(b@, query))
}

/// The plain values among `books` that answer `query`, in their order.
pub open spec fn found(books: Seq<BookView>, query: Seq<char>) -> Seq<BookView> {
    books.filter(|b: BookView| answers(b, query))
}

/// The borrowed books among `books`.
pub open spec fn borrowed_of(books: Seq<BookView>) -> Seq<BookView> {
    books.filter(|b: BookView| !b.is_available)
}

/// The available books among `books`.
pub open spec fn available_of(books: Seq<BookView>) -> Seq<BookView> {
    books.filter(|b: BookView| b.is_available)
}

/// The three lines that report statistics.
pub open spec fn statistics_lines(total: nat, borrowed: nat, available: nat) -> Seq<Seq<char>> {
    seq![
        "Total books: "@ + decimal(total),
        "Borrowed books: "@ + decimal(borrowed),
        "Available books: "@ + decimal(available),
    ]
}

/// Searching the plain values of some books finds the plain values of the
/// books that the search finds.
pub proof fn matching_views(books: Seq<Book>, query: Seq<char>)
    ensures
        views(matching(books, query)) == found(views(books), query),
{
    lemma_filter_view_commute(
        books,
        |b: Book| answers(b@, query),
        |b: BookView| answers(b, query),
    );
}

/// Every book is either borrowed or available: the two counts add up to the
/// number of books.
pub proof fn counts_add_up(books: Seq<BookView>)
    ensures
        borrowed_of(books).len() + available_of(books).len() == books.len(),
    decreases books.len(),
{
    reveal(Seq::filter);
    if books.len() > 0 {
        counts_add_up(books.drop_last());
    }
}

/// How much one book adds to the number of borrowed books.
pub open spec fn out(b: BookView) -> nat {
    if b.is_available {
        0
    } else {
        1
    }
}

/// How many of the books that `keep` keeps a sequence has, by its parts
/// before, at and after a position.
proof fn count_by_parts(books: Seq<BookView>, i: int, keep: spec_fn(BookView) -> bool)
    requires
        0 <= i < books.len(),
    ensures
        books.filter(keep).len() == books.take(i).filter(keep).len() + (if keep(books[i]) {
            1nat
        } else {
            0nat
        }) + books.skip(i + 1).filter(keep).len(),
{
    let before = books.take(i);
    let after = books.skip(i + 1);
    assert(books =~= before.push(books[i]) + after);
    Seq::filter_distributes_over_add(before.push(books[i]), after, keep);
    before.lemma_filter_push(books[i], keep);
}

/// A sequence without the book at a position has the books that `keep`
/// keeps before and after that position.
proof fn count_without(books: Seq<BookView>, i: int, keep: spec_fn(BookView) -> bool)
    requires
        0 <= i < books.len(),
    ensures
        books.remove(i).filter(keep).len() == books.take(i).filter(keep).len() + books.skip(
            i + 1,
        ).filter(keep).len(),
{
    assert(books.remove(i) =~= books.take(i) + books.skip(i + 1));
    Seq::filter_distributes_over_add(books.take(i), books.skip(i + 1), keep);
}

/// A new book is one more book, and one more available or borrowed book.
pub proof fn counts_after_add(books: Seq<BookView>, b: BookView)
    ensures
        borrowed_of(books.push(b)).len() == borrowed_of(books).len() + out(b),
        available_of(books.push(b)).len() == available_of(books).len() + 1 - out(b),
{
    books.lemma_filter_push(b, |b: BookView| !b.is_available);
    books.lemma_filter_push(b, |b: BookView| b.is_available);
}

/// Putting another book in the place of one changes the number of borrowed
/// books by the difference between the two, and the number of available
/// books the other way.
pub proof fn counts_after_change(books: Seq<BookView>, i: int, b: BookView)
    requires
        0 <= i < books.len(),
    ensures
        borrowed_of(books.update(i, b)).len() == borrowed_of(books).len() - out(books[i]) + out(b),
        available_of(books.update(i, b)).len() == available_of(books).len() + out(books[i]) - out(
            b,
        ),
{
    let changed = books.update(i, b);
    assert(changed.take(i) =~= books.take(i));
    assert(changed.skip(i + 1) =~= books.skip(i + 1));
    count_by_parts(books, i, |b: BookView| !b.is_available);
    count_by_parts(changed, i, |b: BookView| !b.is_available);
    count_by_parts(books, i, |b: BookView| b.is_available);
    count_by_parts(changed, i, |b: BookView| b.is_available);
}

/// Borrowing an available book makes one more borrowed and one less
/// available book; borrowing a borrowed one changes neither number.
pub proof fn counts_after_borrow(books: Seq<BookView>, i: int)
    requires
        0 <= i < books.len(),
    ensures
        borrowed_of(books.update(i, lent(books[i]))).len() == borrowed_of(books).len() + 1 - out(
            books[i],
        ),
        available_of(books.update(i, lent(books[i]))).len() == available_of(books).len() - 1 + out(
            books[i],
        ),
{
    counts_after_change(books, i, lent(books[i]));
}

/// Returning a borrowed book makes one less borrowed and one more available
/// book; returning an available one changes neither number.
pub proof fn counts_after_return(books: Seq<BookView>, i: int)
    requires
        0 <= i < books.len(),
    ensures
        borrowed_of(books.update(i, back(books[i]))).len() == borrowed_of(books).len() - out(
            books[i],
        ),
        available_of(books.update(i, back(books[i]))).len() == available_of(books).len() + out(
            books[i],
        ),
{
    counts_after_change(books, i, back(books[i]));
}

/// Deleting a book is one book less, and one less of its kind.
pub proof fn counts_after_delete(books: Seq<BookView>, i: int)
    requires
        0 <= i < books.len(),
    ensures
        borrowed_of(books.remove(i)).len() == borrowed_of(books).len() - out(books[i]),
        available_of(books.remove(i)).len() == available_of(books).len() - 1 + out(books[i]),
{
    count_by_parts(books, i, |b: BookView| !b.is_available);
    count_without(books, i, |b: BookView| !b.is_available);
    count_by_parts(books, i, |b: BookView| b.is_available);
    count_without(books, i, |b: BookView| b.is_available);
}

/// The empty query finds every book, in the order of the collection.
pub proof fn empty_query_finds_all(books: Seq<Book>)
    ensures
        matching(books, Seq::<char>::empty()) == books,
        found(views(books), Seq::<char>::empty()) == views(books),
    decreases books.len(),
{
    reveal(Seq::filter);
    if books.len() > 0 {
        empty_query_finds_all(books.drop_last());
        assert(books.drop_last().push(books.last()) =~= books);
    }
    matching_views(books, Seq::<char>::empty());
}

/// Whether `needle` is part of `title` or of `author`, letter for letter.
pub fn mentions(title: &str, author: &str, needle: &str) -> (yes: bool)
    ensures
        yes == (occurs_in(needle@, title@) || occurs_in(needle@, author@)),
{
    contains(title, needle) || contains(author, needle)
}

/// The books whose title or author holds the query, whatever the case of
/// the letters, in the order of the collection. The empty query finds all.
pub fn search_books<'a>(books: &'a Vec<Book>, query: &str) -> (hits: Vec<&'a Book>)
    ensures
        pointees(hits@) == matching(books@, query@),
        query@.len() == 0 ==> pointees(hits@) == books@,
{
    proof {
        if query@.len() == 0 {
            assert(query@ =~= Seq::<char>::empty());
            empty_query_finds_all(books@);
        }
    }
    let every = query.is_empty();
    let needle = query.to_lowercase();
    let mut hits: Vec<&'a Book> = Vec::new();
    let mut i: usize = 0;
    assert(books@.take(0) =~= Seq::<Book>::empty());
    assert(pointees(hits@) =~= matching(books@.take(0), query@)) by {
        reveal(Seq::filter);
    }
    while i < books.len()
        invariant
            i <= books@.len(),
            every == (query@.len() == 0),
            needle@ == lowercase(query@),
            pointees(hits@) == matching(books@.take(i as int), query@),
        decreases books@.len() - i,
    {
        let book = &books[i];
        let ghost before = hits@;
        let keep = every || mentions(
            book.title.as_str().to_lowercase().as_str(),
            book.author.as_str().to_lowercase().as_str(),
            needle.as_str(),
        );
        if keep {
            hits.push(book);
        }
        proof {
            let answering = |b: Book| answers(b@, query@);
            assert(books@.take(i + 1) =~= books@.take(i as int).push(books@[i as int]));
            books@.take(i as int).lemma_filter_push(books@[i as int], answering);
            assert(keep == answering(books@[i as int]));
            if keep {
                assert(pointees(hits@) =~= pointees(before).push(books@[i as int]));
            }
        }
        i += 1;
    }
    assert(books@.take(i as int) =~= books@);
    hits
}

impl Store {
    /// A collection without books.
    pub fn new() -> (store: Store)
        ensures
            store.books@ == Seq::<Book>::empty(),
            store@ == Seq::<BookView>::empty(),
    {
        let store = Store { books: Vec::new() };
        assert(store@ =~= Seq::<BookView>::empty());
        store
    }

    /// The collection of the given books, in their order.
    pub fn from_books(books: Vec<Book>) -> (store: Store)
        ensures
            store.books == books,
    {
        Store { books }
    }

    /// The number of books.
    pub fn len(&self) -> (n: usize)
        ensures
            n == self@.len(),
    {
        self.books.len()
    }

    /// Puts `book` at the end of the collection.
    pub fn add(&mut self, book: Book)
        ensures
            final(self)@ == old(self)@.push(book@),
            final(self).books@ == old(self).books@.push(book),
    {
        self.books.push(book);
        assert(self@ =~= old(self)@.push(book@));
    }

    /// The book at `index`.
    pub fn get(&self, index: usize) -> (book: Result<&Book, StoreError>)
        ensures
            index < self@.len() ==> book == Ok::<&Book, StoreError>(&self.books@[index as int]),
            index >= self@.len() ==> book == Err::<&Book, StoreError>(StoreError::InvalidIndex),
    {
        if index < self.books.len() {
            Ok(&self.books[index])
        } else {
            Err(StoreError::InvalidIndex)
        }
    }

    /// The book at `index`, to be changed in place.
    pub fn get_mut(&mut self, index: usize) -> (book: Result<&mut Book, StoreError>)
        ensures
            index < old(self)@.len() ==> book is Ok,
            index < old(self)@.len() ==> *book->Ok_0 == old(self).books@[index as int],
            index < old(self)@.len() ==> final(self).books@ == old(self).books@.update(
                index as int,
                *final(book->Ok_0),
            ),
            index >= old(self)@.len() ==> book is Err && book->Err_0 == StoreError::InvalidIndex,
            index >= old(self)@.len() ==> *final(self) == *old(self),
    {
        if index < self.books.len() {
            Ok(&mut self.books[index])
        } else {
            Err(StoreError::InvalidIndex)
        }
    }

    /// Takes the book at `index` out of the collection and hands it back.
    /// Every later book moves one position down. A position that holds no
    /// book leaves the collection as it is.
    pub fn delete(&mut self, index: usize) -> (removed: Result<Book, StoreError>)
        ensures
            index < old(self)@.len() ==> removed == Ok::<Book, StoreError>(
                old(self).books@[index as int],
            ),
            index < old(self)@.len() ==> final(self).books@ == old(self).books@.remove(
                index as int,
            ),
            index < old(self)@.len() ==> final(self)@ == old(self)@.remove(index as int),
            index < old(self)@.len() ==> final(self)@.len() == old(self)@.len() - 1,
            index < old(self)@.len() ==> forall|i: int|
                0 <= i < index ==> final(self)@[i] == old(self)@[i],
            index < old(self)@.len() ==> forall|i: int|
                index <= i < old(self)@.len() - 1 ==> final(self)@[i] == old(self)@[i + 1],
            index >= old(self)@.len() ==> removed == Err::<Book, StoreError>(
                StoreError::InvalidIndex,
            ),
            index >= old(self)@.len() ==> *final(self) == *old(self),
    {
        if index < self.books.len() {
            let book = self.books.remove(index);
            assert(self@ =~= old(self)@.remove(index as int));
            Ok(book)
        } else {
            Err(StoreError::InvalidIndex)
        }
    }

    /// Borrows the book at `index`. A position that holds no book leaves
    /// the collection as it is.
    pub fn borrow(&mut self, index: usize) -> (outcome: Result<BorrowOutcome, StoreError>)
        ensures
            index < old(self)@.len() ==> outcome == Ok::<BorrowOutcome, StoreError>(
                borrow_outcome(old(self)@[index as int]),
            ),
            index < old(self)@.len() ==> final(self)@ == old(self)@.update(
                index as int,
                lent(old(self)@[index as int]),
            ),
            index >= old(self)@.len() ==> outcome == Err::<BorrowOutcome, StoreError>(
                StoreError::InvalidIndex,
            ),
            index >= old(self)@.len() ==> *final(self) == *old(self),
    {
        if index < self.books.len() {
            let outcome = self.books[index].borrow();
            assert(self@ =~= old(self)@.update(index as int, lent(old(self)@[index as int])));
            Ok(outcome)
        } else {
            Err(StoreError::InvalidIndex)
        }
    }

    /// Takes back the book at `index`. A position that holds no book leaves
    /// the collection as it is.
    pub fn return_book(&mut self, index: usize) -> (outcome: Result<ReturnOutcome, StoreError>)
        ensures
            index < old(self)@.len() ==> outcome == Ok::<ReturnOutcome, StoreError>(
                return_outcome(old(self)@[index as int]),
            ),
            index < old(self)@.len() ==> final(self)@ == old(self)@.update(
                index as int,
                back(old(self)@[index as int]),
            ),
            index >= old(self)@.len() ==> outcome == Err::<ReturnOutcome, StoreError>(
                StoreError::InvalidIndex,
            ),
            index >= old(self)@.len() ==> *final(self) == *old(self),
    {
        if index < self.books.len() {
            let outcome = self.books[index].return_book();
            assert(self@ =~= old(self)@.update(index as int, back(old(self)@[index as int])));
            Ok(outcome)
        } else {
            Err(StoreError::InvalidIndex)
        }
    }

    /// Edits the book at `index` as the three entries say. A position that
    /// holds no book leaves the collection as it is.
    pub fn edit(&mut self, index: usize, title: &str, author: &str, pages: &str) -> (done: Result<
        (),
        StoreError,
    >)
        ensures
            index < old(self)@.len() ==> done is Ok,
            index < old(self)@.len() ==> final(self)@ == old(self)@.update(
                index as int,
                edited(old(self)@[index as int], title@, author@, pages@),
            ),
            index >= old(self)@.len() ==> done == Err::<(), StoreError>(StoreError::InvalidIndex),
            index >= old(self)@.len() ==> *final(self) == *old(self),
    {
        if index < self.books.len() {
            edit_book(&mut self.books[index], title, author, pages);
            assert(self@ =~= old(self)@.update(
                index as int,
                edited(old(self)@[index as int], title@, author@, pages@),
            ));
            Ok(())
        } else {
            Err(StoreError::InvalidIndex)
        }
    }

    /// The books that answer `query`, in the order of the collection.
    pub fn search(&self, query: &str) -> (hits: Vec<&Book>)
        ensures
            pointees(hits@) == matching(self.books@, query@),
            views(pointees(hits@)) == found(self@, query@),
            query@.len() == 0 ==> pointees(hits@) == self.books@,
    {
        proof {
            matching_views(self.books@, query@);
        }
        search_books(&self.books, query)
    }

    /// Counts the books, and the borrowed and the available ones among them.
    pub fn statistics(&self) -> (stats: Statistics)
        ensures
            stats.total == self@.len(),
            stats.borrowed == borrowed_of(self@).len(),
            stats.available == available_of(self@).len(),
            stats.available + stats.borrowed == stats.total,
    {
        let total: usize = self.books.len();
        let mut borrowed: usize = 0;
        let mut i: usize = 0;
        assert(self@.take(0) =~= Seq::<BookView>::empty());
        assert(borrowed_of(self@.take(0)).len() == 0) by {
            reveal(Seq::filter);
        }
        while i < total
            invariant
                total == self@.len(),
                total == self.books@.len(),
                i <= total,
                borrowed <= i,
                borrowed == borrowed_of(self@.take(i as int)).len(),
            decreases total - i,
        {
            proof {
                assert(self@.take(i + 1) =~= self@.take(i as int).push(self@[i as int]));
                self@.take(i as int).lemma_filter_push(
                    self@[i as int],
                    |b: BookView| !b.is_available,
                );
            }
            if !self.books[i].is_available {
                borrowed += 1;
            }
            i += 1;
        }
        proof {
            assert(self@.take(total as int) =~= self@);
            counts_add_up(self@);
        }
        Statistics { total, borrowed, available: total - borrowed }
    }
}

impl Statistics {
    /// The three lines that report these statistics.
    pub fn lines(&self) -> (lines: Vec<String>)
        ensures
            texts(lines@) == statistics_lines(
                self.total as nat,
                self.borrowed as nat,
                self.available as nat,
            ),
    {
        let mut total = String::from_str("Total books: ");
        total.append(decimal_text(self.total as u64).as_str());
        let mut borrowed = String::from_str("Borrowed books: ");
        borrowed.append(decimal_text(self.borrowed as u64).as_str());
        let mut available = String::from_str("Available books: ");
        available.append(decimal_text(self.available as u64).as_str());
        let mut lines: Vec<String> = Vec::new();
        lines.push(total);
        lines.push(borrowed);
        lines.push(available);
        assert(texts(lines@) =~= statistics_lines(
            self.total as nat,
            self.borrowed as nat,
            self.available as nat,
        ));
        lines
    }
}

} // verus!
