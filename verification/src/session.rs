//! The interactive session: a state machine that takes one entered line at
//! a time, acts on the collection, and says what to show and whether the
//! collection has to be saved.
//!
//! The caller reads the lines, prints what it is handed, and writes the
//! collection out whenever a reply asks for it.

use crate::book::borrow_outcome;
use crate::book::borrow_report;
use crate::book::description;
use crate::book::edited;
use crate::book::entered;
use crate::book::lent;
use crate::book::back;
use crate::book::return_outcome;
use crate::book::return_report;
use crate::book::Book;
use crate::book::BookView;
use crate::store::available_of;
use crate::store::borrowed_of;
use crate::store::found;
use crate::store::pointees;
use crate::store::statistics_lines;
use crate::store::views;
use crate::store::Store;
use crate::text::decimal;
use crate::text::decimal_reads_back;
use crate::text::parse_number;
use crate::text::read_number;
use crate::text::texts;
use crate::text::to_chars;
use crate::text::trim;
use crate::text::trimmed;
use vstd::prelude::*;
use vstd::string::StringExecFns;

verus! {

/// A choice from the menu.
#[derive(Debug, Clone, Copy, PartialEq, Eq, Structural)]
pub enum Command {
    Add,
    Search,
    Borrow,
    Return,
    Edit,
    Delete,
    Statistics,
    Exit,
}

/// What the session waits for. While title, author and page count of a book
/// are entered one after the other, the stage keeps what has been entered.
#[derive(Debug, PartialEq, Eq)]
pub enum Stage {
    /// A choice from the menu.
    Menu,
    /// The title of a book to add.
    AddTitle,
    /// The author of a book to add.
    AddAuthor { title: String },
    /// The page count of a book to add.
    AddPages { title: String, author: String },
    /// A query to search for.
    SearchQuery,
    /// The position of a book to borrow.
    BorrowIndex,
    /// The position of a book to return.
    ReturnIndex,
    /// The position of a book to edit.
    EditIndex,
    /// The new title of the book at `index`.
    EditTitle { index: usize },
    /// The new author of the book at `index`.
    EditAuthor { index: usize, title: String },
    /// The new page count of the book at `index`.
    EditPages { index: usize, title: String, author: String },
    /// The position of a book to delete.
    DeleteIndex,
    /// Nothing: the session is over.
    Exited,
}

/// A `Stage` as plain mathematical values.
pub enum StageView {
    Menu,
    AddTitle,
    AddAuthor { title: Seq<char> },
    AddPages { title: Seq<char>, author: Seq<char> },
    SearchQuery,
    BorrowIndex,
    ReturnIndex,
    EditIndex,
    EditTitle { index: nat },
    EditAuthor { index: nat, title: Seq<char> },
    EditPages { index: nat, title: Seq<char>, author: Seq<char> },
    DeleteIndex,
    Exited,
}

impl View for Stage {
    type V = StageView;

    open spec fn view(&self) -> StageView {
        match self {
            Stage::Menu => StageView::Menu,
            Stage::AddTitle => StageView::AddTitle,
            Stage::AddAuthor { title } => StageView::AddAuthor { title: title@ },
            Stage::AddPages { title, author } => StageView::AddPages {
                title: title@,
                author: author@,
            },
            Stage::SearchQuery => StageView::SearchQuery,
            Stage::BorrowIndex => StageView::BorrowIndex,
            Stage::ReturnIndex => StageView::ReturnIndex,
            Stage::EditIndex => StageView::EditIndex,
            Stage::EditTitle { index } => StageView::EditTitle { index: *index as nat },
            Stage::EditAuthor { index, title } => StageView::EditAuthor {
                index: *index as nat,
                title: title@,
            },
            Stage::EditPages { index, title, author } => StageView::EditPages {
                index: *index as nat,
                title: title@,
                author: author@,
            },
            Stage::DeleteIndex => StageView::DeleteIndex,
            Stage::Exited => StageView::Exited,
        }
    }
}

/// The answer to one entered line.
#[derive(Debug, PartialEq, Eq)]
pub struct Reply {
    /// What to show, line by line.
    pub lines: Vec<String>,
    /// Whether the collection has to be written out now.
    pub save: bool,
}

/// A collection and the stage of the conversation about it.
#[derive(Debug, PartialEq, Eq)]
pub struct Session {
    pub store: Store,
    pub stage: Stage,
}

/// What one entered line leads to: the collection and the stage after it,
/// what is shown, and whether the collection is saved.
pub struct Turn {
    pub books: Seq<BookView>,
    pub stage: StageView,
    pub lines: Seq<Seq<char>>,
    pub save: bool,
}

/// The menu choice that an entry makes: one of the digits 1 to 8 and
/// nothing else.
pub open spec fn command_of(choice: Seq<char>) -> Option<Command> {
    if choice.len() != 1 {
        None
    } else if choice[0] == '1' {
        Some(Command::Add)
    } else if choice[0] == '2' {
        Some(Command::Search)
    } else if choice[0] == '3' {
        Some(Command::Borrow)
    } else if choice[0] == '4' {
        Some(Command::Return)
    } else if choice[0] == '5' {
        Some(Command::Edit)
    } else if choice[0] == '6' {
        Some(Command::Delete)
    } else if choice[0] == '7' {
        Some(Command::Statistics)
    } else if choice[0] == '8' {
        Some(Command::Exit)
    } else {
        None
    }
}

/// The position that an entry names in a collection of `count` books: a
/// decimal number below `count`.
pub open spec fn position(count: nat, entry: Seq<char>) -> Option<nat> {
    if count == 0 {
        None
    } else {
        parse_number(entry, (count - 1) as nat)
    }
}

/// What is shown before the next line is read.
pub open spec fn prompt_lines(stage: StageView) -> Seq<Seq<char>> {
    match stage {
        StageView::Menu => seq![
            "\nLibrary Menu:"@,
            "1. Add a book"@,
            "2. Search for a book"@,
            "3. Borrow a book"@,
            "4. Return a book"@,
            "5. Edit a book"@,
            "6. Delete a book"@,
            "7. Show library statistics"@,
            "8. Exit"@,
        ],
        StageView::AddTitle => seq!["Enter the title of the book:"@],
        StageView::AddAuthor { .. } => seq!["Enter the author of the book:"@],
        StageView::AddPages { .. } => seq!["Enter the number of pages:"@],
        StageView::SearchQuery => seq!["Enter your search query (title or author):"@],
        StageView::BorrowIndex => seq!["Enter the index of the book to borrow:"@],
        StageView::ReturnIndex => seq!["Enter the index of the book to return:"@],
        StageView::EditIndex => seq!["Enter the index of the book to edit:"@],
        StageView::EditTitle { .. } => seq!["Enter a new title (leave blank to keep current):"@],
        StageView::EditAuthor { .. } => seq![
            "Enter a new author (leave blank to keep current):"@,
        ],
        StageView::EditPages { .. } => seq![
            "Enter a new page count (leave blank to keep current):"@,
        ],
        StageView::DeleteIndex => seq!["Enter the index of the book to delete:"@],
        StageView::Exited => Seq::empty(),
    }
}

/// The collection stays, nothing is shown or saved, and the session goes on
/// at `stage`.
pub open spec fn asks(books: Seq<BookView>, stage: StageView) -> Turn {
    Turn { books, stage, lines: Seq::empty(), save: false }
}

/// The collection stays, `lines` are shown, nothing is saved, and the
/// session is back at the menu.
pub open spec fn tells(books: Seq<BookView>, lines: Seq<Seq<char>>) -> Turn {
    Turn { books, stage: StageView::Menu, lines, save: false }
}

/// The collection becomes `books` and is saved, `lines` are shown, and the
/// session is back at the menu.
pub open spec fn saves(books: Seq<BookView>, lines: Seq<Seq<char>>) -> Turn {
    Turn { books, stage: StageView::Menu, lines, save: true }
}

/// What is shown after a book has left the collection: that it is gone,
/// and that the positions of the books after it have changed.
pub open spec fn removed_lines() -> Seq<Seq<char>> {
    seq!["Book removed."@, "Every book after it has moved down by one index."@]
}

/// What is shown for a position that names no book.
pub open spec fn invalid_index() -> Seq<Seq<char>> {
    seq!["Invalid index."@]
}

/// A choice from the menu: the next question, the statistics, the end of
/// the session, or a complaint about the choice.
pub open spec fn menu_turn(books: Seq<BookView>, entry: Seq<char>) -> Turn {
    match command_of(entry) {
        Some(Command::Add) => asks(books, StageView::AddTitle),
        Some(Command::Search) => asks(books, StageView::SearchQuery),
        Some(Command::Borrow) => asks(books, StageView::BorrowIndex),
        Some(Command::Return) => asks(books, StageView::ReturnIndex),
        Some(Command::Edit) => asks(books, StageView::EditIndex),
        Some(Command::Delete) => asks(books, StageView::DeleteIndex),
        Some(Command::Statistics) => tells(
            books,
            statistics_lines(books.len(), borrowed_of(books).len(), available_of(books).len()),
        ),
        Some(Command::Exit) => asks(books, StageView::Exited),
        None => tells(books, seq!["Invalid choice! Please try again."@]),
    }
}

/// The last entry for a new book: the book joins the collection, or its
/// page count is refused and nothing changes.
pub open spec fn add_turn(
    books: Seq<BookView>,
    title: Seq<char>,
    author: Seq<char>,
    pages: Seq<char>,
) -> Turn {
    match entered(title, author, pages) {
        Ok(book) => saves(books.push(book), Seq::empty()),
        Err(_) => tells(books, seq!["Invalid page count."@]),
    }
}

/// What a search shows: the description of each book found, or one line
/// that says that there is none.
pub open spec fn search_lines(books: Seq<BookView>, entry: Seq<char>) -> Seq<Seq<char>> {
    let hits = found(books, entry);
    if hits.len() == 0 {
        seq!["No books found."@]
    } else {
        hits.map_values(|b: BookView| description(b))
    }
}

/// A position to borrow at.
pub open spec fn borrow_turn(books: Seq<BookView>, entry: Seq<char>) -> Turn {
    match position(books.len(), entry) {
        Some(i) => saves(
            books.update(i as int, lent(books[i as int])),
            seq![borrow_report(borrow_outcome(books[i as int]), books[i as int].title)],
        ),
        None => tells(books, invalid_index()),
    }
}

/// A position to return at.
pub open spec fn return_turn(books: Seq<BookView>, entry: Seq<char>) -> Turn {
    match position(books.len(), entry) {
        Some(i) => saves(
            books.update(i as int, back(books[i as int])),
            seq![return_report(return_outcome(books[i as int]), books[i as int].title)],
        ),
        None => tells(books, invalid_index()),
    }
}

/// A position to edit at.
pub open spec fn edit_index_turn(books: Seq<BookView>, entry: Seq<char>) -> Turn {
    match position(books.len(), entry) {
        Some(i) => asks(books, StageView::EditTitle { index: i }),
        None => tells(books, invalid_index()),
    }
}

/// The last entry of an edit.
pub open spec fn edit_turn(
    books: Seq<BookView>,
    index: nat,
    title: Seq<char>,
    author: Seq<char>,
    pages: Seq<char>,
) -> Turn {
    if index < books.len() {
        saves(
            books.update(index as int, edited(books[index as int], title, author, pages)),
            Seq::empty(),
        )
    } else {
        tells(books, invalid_index())
    }
}

/// A position to delete at.
pub open spec fn delete_turn(books: Seq<BookView>, entry: Seq<char>) -> Turn {
    match position(books.len(), entry) {
        Some(i) => saves(books.remove(i as int), removed_lines()),
        None => tells(books, invalid_index()),
    }
}

/// What the entered line `line` leads to when the collection holds `books`
/// and the session is at `stage`: what the line leads to as an entry,
/// without the white space around it.
pub open spec fn turn(books: Seq<BookView>, stage: StageView, line: Seq<char>) -> Turn {
    after(books, stage, trimmed(line))
}

/// What the entry `entry` leads to when the collection holds `books` and
/// the session is at `stage`.
pub open spec fn after(books: Seq<BookView>, stage: StageView, entry: Seq<char>) -> Turn {
    match stage {
        StageView::Menu => menu_turn(books, entry),
        StageView::AddTitle => asks(books, StageView::AddAuthor { title: entry }),
        StageView::AddAuthor { title } => asks(books, StageView::AddPages { title, author: entry }),
        StageView::AddPages { title, author } => add_turn(books, title, author, entry),
        StageView::SearchQuery => tells(books, search_lines(books, entry)),
        StageView::BorrowIndex => borrow_turn(books, entry),
        StageView::ReturnIndex => return_turn(books, entry),
        StageView::EditIndex => edit_index_turn(books, entry),
        StageView::EditTitle { index } => asks(books, StageView::EditAuthor { index, title: entry }),
        StageView::EditAuthor { index, title } => asks(
            books,
            StageView::EditPages { index, title, author: entry },
        ),
        StageView::EditPages { index, title, author } => edit_turn(
            books,
            index,
            title,
            author,
            entry,
        ),
        StageView::DeleteIndex => delete_turn(books, entry),
        StageView::Exited => asks(books, StageView::Exited),
    }
}

/// A position that names no book leaves the collection as it is, shows one
/// line that says so, saves nothing and leads back to the menu, whether the
/// book was to be borrowed, returned, edited or deleted.
pub proof fn no_book_there(books: Seq<BookView>, stage: StageView, entry: Seq<char>)
    requires
        stage is BorrowIndex || stage is ReturnIndex || stage is EditIndex || stage is DeleteIndex,
        position(books.len(), entry) is None,
    ensures
        after(books, stage, entry) == tells(books, invalid_index()),
{
}

/// An entry that names a position does so below the number of books.
pub proof fn position_in_range(count: nat, entry: Seq<char>)
    ensures
        position(count, entry) is Some ==> position(count, entry)->0 < count,
{
}

/// A number written in decimal names a position exactly where it is below
/// the number of books.
pub proof fn position_of_number(count: nat, n: nat)
    ensures
        n < count ==> position(count, decimal(n)) == Some(n),
        n >= count ==> position(count, decimal(n)) is None,
{
    if count > 0 {
        decimal_reads_back(n, (count - 1) as nat);
    }
}

/// Adding a book takes three entries in a row: title, author and page
/// count. The first two change and show nothing; the third makes the book
/// and saves, or refuses the page count.
pub proof fn adding_takes_three_entries(
    books: Seq<BookView>,
    title: Seq<char>,
    author: Seq<char>,
    pages: Seq<char>,
)
    ensures
        ({
            let first = after(books, StageView::AddTitle, title);
            let second = after(first.books, first.stage, author);
            let third = after(second.books, second.stage, pages);
            &&& first == asks(books, StageView::AddAuthor { title })
            &&& second == asks(books, StageView::AddPages { title, author })
            &&& third == add_turn(books, title, author, pages)
        }),
{
}

/// Editing a book takes four entries in a row: a position, then title,
/// author and page count. Nothing changes before the last of them, which
/// edits the book at that position and saves.
pub proof fn editing_takes_four_entries(
    books: Seq<BookView>,
    index: Seq<char>,
    title: Seq<char>,
    author: Seq<char>,
    pages: Seq<char>,
)
    requires
        position(books.len(), index) is Some,
    ensures
        ({
            let i = position(books.len(), index)->0;
            let first = after(books, StageView::EditIndex, index);
            let second = after(first.books, first.stage, title);
            let third = after(second.books, second.stage, author);
            let fourth = after(third.books, third.stage, pages);
            &&& first == asks(books, StageView::EditTitle { index: i })
            &&& second == asks(books, StageView::EditAuthor { index: i, title })
            &&& third == asks(books, StageView::EditPages { index: i, title, author })
            &&& fourth == saves(
                books.update(i as int, edited(books[i as int], title, author, pages)),
                Seq::empty(),
            )
        }),
{
}

/// A turn that does not save leaves the collection as it is: every change
/// of the collection is saved at once.
pub proof fn changes_are_saved(books: Seq<BookView>, stage: StageView, entry: Seq<char>)
    ensures
        !after(books, stage, entry).save ==> after(books, stage, entry).books == books,
{
}

/// Choosing from the menu and searching never change the collection and
/// never save it.
pub proof fn looking_changes_nothing(books: Seq<BookView>, stage: StageView, entry: Seq<char>)
    requires
        stage is Menu || stage is SearchQuery,
    ensures
        after(books, stage, entry).books == books,
        !after(books, stage, entry).save,
{
}

/// A choice that the menu does not offer is answered with a complaint, and
/// the session stays at the menu.
pub proof fn unknown_choice_stays(books: Seq<BookView>, entry: Seq<char>)
    requires
        command_of(entry) is None,
    ensures
        after(books, StageView::Menu, entry) == tells(
            books,
            seq!["Invalid choice! Please try again."@],
        ),
{
}

/// A session that is over stays over, whatever is entered.
pub proof fn over_is_over(books: Seq<BookView>, entry: Seq<char>)
    ensures
        after(books, StageView::Exited, entry) == asks(books, StageView::Exited),
{
}

/// Reads a choice from the menu.
pub fn read_command(entry: &str) -> (command: Option<Command>)
    ensures
        command == command_of(entry@),
{
    let choice = to_chars(entry);
    if choice.len() != 1 {
        return None;
    }
    let c: char = choice[0];
    if c == '1' {
        Some(Command::Add)
    } else if c == '2' {
        Some(Command::Search)
    } else if c == '3' {
        Some(Command::Borrow)
    } else if c == '4' {
        Some(Command::Return)
    } else if c == '5' {
        Some(Command::Edit)
    } else if c == '6' {
        Some(Command::Delete)
    } else if c == '7' {
        Some(Command::Statistics)
    } else if c == '8' {
        Some(Command::Exit)
    } else {
        None
    }
}

/// Reads a position in a collection of `count` books.
pub fn read_position(count: usize, entry: &str) -> (index: Option<usize>)
    ensures
        index is Some <==> position(count as nat, entry@) is Some,
        index is Some ==> index->0 == position(count as nat, entry@)->0,
        index is Some ==> index->0 < count,
{
    if count == 0 {
        return None;
    }
    match read_number(entry, (count - 1) as u64) {
        Some(n) => Some(n as usize),
        None => None,
    }
}

/// One line, as a list of lines.
fn one_line(text: &str) -> (lines: Vec<String>)
    ensures
        texts(lines@) == seq![text@],
{
    let mut lines: Vec<String> = Vec::new();
    lines.push(String::from_str(text));
    assert(texts(lines@) =~= seq![text@]);
    lines
}

/// No line at all.
fn no_lines() -> (lines: Vec<String>)
    ensures
        texts(lines@) == Seq::<Seq<char>>::empty(),
{
    let lines: Vec<String> = Vec::new();
    assert(texts(lines@) =~= Seq::<Seq<char>>::empty());
    lines
}

/// The lines that a search for `entry` shows.
fn search_reply(store: &Store, entry: &str) -> (lines: Vec<String>)
    ensures
        texts(lines@) == search_lines(store@, entry@),
{
    let hits = store.search(entry);
    if hits.len() == 0 {
        return one_line("No books found.");
    }
    let ghost wanted = found(store@, entry@);
    let mut lines: Vec<String> = Vec::new();
    let mut i: usize = 0;
    assert(texts(lines@) =~= wanted.take(0).map_values(|b: BookView| description(b)));
    while i < hits.len()
        invariant
            i <= hits@.len(),
            views(pointees(hits@)) == wanted,
            texts(lines@) == wanted.take(i as int).map_values(|b: BookView| description(b)),
        decreases hits@.len() - i,
    {
        let book: &Book = hits[i];
        let line = book.describe();
        let ghost before = lines@;
        lines.push(line);
        proof {
            assert(wanted[i as int] == book@);
            assert(texts(lines@) =~= texts(before).push(line@));
            assert(wanted.take(i + 1) =~= wanted.take(i as int).push(wanted[i as int]));
            assert(texts(lines@) =~= wanted.take(i + 1).map_values(
                |b: BookView| description(b),
            ));
        }
        i += 1;
    }
    assert(wanted.take(i as int) =~= wanted);
    lines
}

impl Session {
    /// A session about `store`, at the menu.
    pub fn new(store: Store) -> (session: Session)
        ensures
            session.store == store,
            session.stage@ == StageView::Menu,
    {
        Session { store, stage: Stage::Menu }
    }

    /// Whether the session still takes lines.
    pub fn is_running(&self) -> (running: bool)
        ensures
            running == !(self.stage@ is Exited),
    {
        match self.stage {
            Stage::Exited => false,
            _ => true,
        }
    }

    /// What to show before the next line is read: the menu, or the question
    /// that the session is at.
    pub fn prompt(&self) -> (lines: Vec<String>)
        ensures
            texts(lines@) == prompt_lines(self.stage@),
    {
        match &self.stage {
            Stage::Menu => {
                let mut lines: Vec<String> = Vec::new();
                lines.push(String::from_str("\nLibrary Menu:"));
                lines.push(String::from_str("1. Add a book"));
                lines.push(String::from_str("2. Search for a book"));
                lines.push(String::from_str("3. Borrow a book"));
                lines.push(String::from_str("4. Return a book"));
                lines.push(String::from_str("5. Edit a book"));
                lines.push(String::from_str("6. Delete a book"));
                lines.push(String::from_str("7. Show library statistics"));
                lines.push(String::from_str("8. Exit"));
                assert(texts(lines@) =~= prompt_lines(StageView::Menu));
                lines
            },
            Stage::AddTitle => one_line("Enter the title of the book:"),
            Stage::AddAuthor { .. } => one_line("Enter the author of the book:"),
            Stage::AddPages { .. } => one_line("Enter the number of pages:"),
            Stage::SearchQuery => one_line("Enter your search query (title or author):"),
            Stage::BorrowIndex => one_line("Enter the index of the book to borrow:"),
            Stage::ReturnIndex => one_line("Enter the index of the book to return:"),
            Stage::EditIndex => one_line("Enter the index of the book to edit:"),
            Stage::EditTitle { .. } => one_line("Enter a new title (leave blank to keep current):"),
            Stage::EditAuthor { .. } => one_line(
                "Enter a new author (leave blank to keep current):",
            ),
            Stage::EditPages { .. } => one_line(
                "Enter a new page count (leave blank to keep current):",
            ),
            Stage::DeleteIndex => one_line("Enter the index of the book to delete:"),
            Stage::Exited => no_lines(),
        }
    }

    /// Takes one entered line: drops the white space around it and takes
    /// the rest as an entry.
    pub fn step(&mut self, line: &str) -> (reply: Reply)
        ensures
            final(self).store@ == turn(old(self).store@, old(self).stage@, line@).books,
            final(self).stage@ == turn(old(self).store@, old(self).stage@, line@).stage,
            texts(reply.lines@) == turn(old(self).store@, old(self).stage@, line@).lines,
            reply.save == turn(old(self).store@, old(self).stage@, line@).save,
    {
        self.enter(trim(line))
    }

    /// Takes one entry: acts on the collection, moves to the next stage,
    /// and answers with what to show and whether to save.
    pub fn enter(&mut self, entry: &str) -> (reply: Reply)
        ensures
            final(self).store@ == after(old(self).store@, old(self).stage@, entry@).books,
            final(self).stage@ == after(old(self).store@, old(self).stage@, entry@).stage,
            texts(reply.lines@) == after(old(self).store@, old(self).stage@, entry@).lines,
            reply.save == after(old(self).store@, old(self).stage@, entry@).save,
    {
        let mut stage = Stage::Menu;
        core::mem::swap(&mut self.stage, &mut stage);
        match stage {
            Stage::Menu => self.pick(entry),
            Stage::AddTitle => {
                self.stage = Stage::AddAuthor { title: String::from_str(entry) };
                Reply { lines: no_lines(), save: false }
            },
            Stage::AddAuthor { title } => {
                self.stage = Stage::AddPages { title, author: String::from_str(entry) };
                Reply { lines: no_lines(), save: false }
            },
            Stage::AddPages { title, author } => {
                match Book::from_entries(title.as_str(), author.as_str(), entry) {
                    Ok(book) => {
                        self.store.add(book);
                        Reply { lines: no_lines(), save: true }
                    },
                    Err(_) => Reply { lines: one_line("Invalid page count."), save: false },
                }
            },
            Stage::SearchQuery => Reply { lines: search_reply(&self.store, entry), save: false },
            Stage::BorrowIndex => {
                match read_position(self.store.len(), entry) {
                    Some(index) => {
                        match self.store.borrow(index) {
                            Ok(outcome) => {
                                assert(self.store@.len() == self.store.books@.len());
                                assert(self.store@[index as int] == self.store.books@[index as int]@);
                                let title = self.store.books[index].title.as_str();
                                let mut lines: Vec<String> = Vec::new();
                                lines.push(outcome.report(title));
                                assert(texts(lines@) =~= borrow_turn(
                                    old(self).store@,
                                    entry@,
                                ).lines);
                                Reply { lines, save: true }
                            },
                            Err(_) => Reply { lines: one_line("Invalid index."), save: false },
                        }
                    },
                    None => Reply { lines: one_line("Invalid index."), save: false },
                }
            },
            Stage::ReturnIndex => {
                match read_position(self.store.len(), entry) {
                    Some(index) => {
                        match self.store.return_book(index) {
                            Ok(outcome) => {
                                assert(self.store@.len() == self.store.books@.len());
                                assert(self.store@[index as int] == self.store.books@[index as int]@);
                                let title = self.store.books[index].title.as_str();
                                let mut lines: Vec<String> = Vec::new();
                                lines.push(outcome.report(title));
                                assert(texts(lines@) =~= return_turn(
                                    old(self).store@,
                                    entry@,
                                ).lines);
                                Reply { lines, save: true }
                            },
                            Err(_) => Reply { lines: one_line("Invalid index."), save: false },
                        }
                    },
                    None => Reply { lines: one_line("Invalid index."), save: false },
                }
            },
            Stage::EditIndex => {
                match read_position(self.store.len(), entry) {
                    Some(index) => {
                        self.stage = Stage::EditTitle { index };
                        Reply { lines: no_lines(), save: false }
                    },
                    None => Reply { lines: one_line("Invalid index."), save: false },
                }
            },
            Stage::EditTitle { index } => {
                self.stage = Stage::EditAuthor { index, title: String::from_str(entry) };
                Reply { lines: no_lines(), save: false }
            },
            Stage::EditAuthor { index, title } => {
                self.stage = Stage::EditPages { index, title, author: String::from_str(entry) };
                Reply { lines: no_lines(), save: false }
            },
            Stage::EditPages { index, title, author } => {
                match self.store.edit(index, title.as_str(), author.as_str(), entry) {
                    Ok(_) => Reply { lines: no_lines(), save: true },
                    Err(_) => Reply { lines: one_line("Invalid index."), save: false },
                }
            },
            Stage::DeleteIndex => {
                match read_position(self.store.len(), entry) {
                    Some(index) => {
                        match self.store.delete(index) {
                            Ok(_) => {
                                let mut lines: Vec<String> = Vec::new();
                                lines.push(String::from_str("Book removed."));
                                lines.push(
                                    String::from_str(
                                        "Every book after it has moved down by one index.",
                                    ),
                                );
                                assert(texts(lines@) =~= removed_lines());
                                Reply { lines, save: true }
                            },
                            Err(_) => Reply { lines: one_line("Invalid index."), save: false },
                        }
                    },
                    None => Reply { lines: one_line("Invalid index."), save: false },
                }
            },
            Stage::Exited => {
                self.stage = Stage::Exited;
                Reply { lines: no_lines(), save: false }
            },
        }
    }

    /// Takes a choice from the menu.
    fn pick(&mut self, entry: &str) -> (reply: Reply)
        requires
            old(self).stage@ is Menu,
        ensures
            final(self).store == old(self).store,
            final(self).stage@ == menu_turn(old(self).store@, entry@).stage,
            texts(reply.lines@) == menu_turn(old(self).store@, entry@).lines,
            reply.save == menu_turn(old(self).store@, entry@).save,
    {
        match read_command(entry) {
            Some(Command::Add) => {
                self.stage = Stage::AddTitle;
                Reply { lines: no_lines(), save: false }
            },
            Some(Command::Search) => {
                self.stage = Stage::SearchQuery;
                Reply { lines: no_lines(), save: false }
            },
            Some(Command::Borrow) => {
                self.stage = Stage::BorrowIndex;
                Reply { lines: no_lines(), save: false }
            },
            Some(Command::Return) => {
                self.stage = Stage::ReturnIndex;
                Reply { lines: no_lines(), save: false }
            },
            Some(Command::Edit) => {
                self.stage = Stage::EditIndex;
                Reply { lines: no_lines(), save: false }
            },
            Some(Command::Delete) => {
                self.stage = Stage::DeleteIndex;
                Reply { lines: no_lines(), save: false }
            },
            Some(Command::Statistics) => {
                let stats = self.store.statistics();
                Reply { lines: stats.lines(), save: false }
            },
            Some(Command::Exit) => {
                self.stage = Stage::Exited;
                Reply { lines: no_lines(), save: false }
            },
            None => Reply { lines: one_line("Invalid choice! Please try again."), save: false },
        }
    }
}

} // verus!
