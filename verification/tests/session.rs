use bookshelf::book::Book;
use bookshelf::session::read_command;
use bookshelf::session::read_position;
use bookshelf::session::Command;
use bookshelf::session::Reply;
use bookshelf::session::Session;
use bookshelf::session::Stage;
use bookshelf::store::Store;

fn desk_book(title: &str, author: &str, pages: u32) -> Book {
    Book::new(title.to_string(), author.to_string(), pages)
}

fn desk() -> Session {
    let mut store = Store::new();
    store.add(desk_book("The Great Gatsby", "F. Scott Fitzgerald", 180));
    store.add(desk_book("Dune", "Frank Herbert", 412));
    store.add(desk_book("Emma", "Jane Austen", 474));
    Session::new(store)
}

fn silent() -> Reply {
    Reply { lines: Vec::new(), save: false }
}

fn shown(lines: &[&str]) -> Reply {
    Reply { lines: lines.iter().map(|line| line.to_string()).collect(), save: false }
}

fn saved(lines: &[&str]) -> Reply {
    Reply { lines: lines.iter().map(|line| line.to_string()).collect(), save: true }
}

#[test]
fn read_command_knows_the_eight_choices() {
    assert_eq!(read_command("1"), Some(Command::Add));
    assert_eq!(read_command("2"), Some(Command::Search));
    assert_eq!(read_command("3"), Some(Command::Borrow));
    assert_eq!(read_command("4"), Some(Command::Return));
    assert_eq!(read_command("5"), Some(Command::Edit));
    assert_eq!(read_command("6"), Some(Command::Delete));
    assert_eq!(read_command("7"), Some(Command::Statistics));
    assert_eq!(read_command("8"), Some(Command::Exit));
}

#[test]
fn read_command_refuses_anything_else() {
    assert_eq!(read_command(""), None);
    assert_eq!(read_command("0"), None);
    assert_eq!(read_command("9"), None);
    assert_eq!(read_command("11"), None);
    assert_eq!(read_command("01"), None);
    assert_eq!(read_command("+1"), None);
    assert_eq!(read_command(" 1"), None);
    assert_eq!(read_command("add"), None);
    assert_eq!(read_command("１"), None);
}

#[test]
fn read_position_is_below_the_count() {
    assert_eq!(read_position(3, "0"), Some(0));
    assert_eq!(read_position(3, "2"), Some(2));
    assert_eq!(read_position(3, "+1"), Some(1));
    assert_eq!(read_position(3, "002"), Some(2));
    assert_eq!(read_position(3, "3"), None);
    assert_eq!(read_position(3, "100"), None);
    assert_eq!(read_position(3, "99999999999999999999999"), None);
    assert_eq!(read_position(3, "-1"), None);
    assert_eq!(read_position(3, "one"), None);
    assert_eq!(read_position(3, ""), None);
    assert_eq!(read_position(0, "0"), None);
    assert_eq!(read_position(1, "0"), Some(0));
}

#[test]
fn session_starts_at_the_menu() {
    let session = desk();
    assert_eq!(session.stage, Stage::Menu);
    assert!(session.is_running());
    assert_eq!(session.store.len(), 3);
}

#[test]
fn prompt_at_the_menu_lists_the_choices() {
    assert_eq!(
        desk().prompt(),
        vec![
            "\nLibrary Menu:",
            "1. Add a book",
            "2. Search for a book",
            "3. Borrow a book",
            "4. Return a book",
            "5. Edit a book",
            "6. Delete a book",
            "7. Show library statistics",
            "8. Exit",
        ]
    );
}

#[test]
fn prompt_asks_for_what_the_stage_waits_for() {
    let mut session = desk();
    session.stage = Stage::AddTitle;
    assert_eq!(session.prompt(), vec!["Enter the title of the book:"]);
    session.stage = Stage::AddAuthor { title: "T".to_string() };
    assert_eq!(session.prompt(), vec!["Enter the author of the book:"]);
    session.stage = Stage::AddPages { title: "T".to_string(), author: "A".to_string() };
    assert_eq!(session.prompt(), vec!["Enter the number of pages:"]);
    session.stage = Stage::SearchQuery;
    assert_eq!(session.prompt(), vec!["Enter your search query (title or author):"]);
    session.stage = Stage::BorrowIndex;
    assert_eq!(session.prompt(), vec!["Enter the index of the book to borrow:"]);
    session.stage = Stage::ReturnIndex;
    assert_eq!(session.prompt(), vec!["Enter the index of the book to return:"]);
    session.stage = Stage::EditIndex;
    assert_eq!(session.prompt(), vec!["Enter the index of the book to edit:"]);
    session.stage = Stage::EditTitle { index: 0 };
    assert_eq!(session.prompt(), vec!["Enter a new title (leave blank to keep current):"]);
    session.stage = Stage::EditAuthor { index: 0, title: String::new() };
    assert_eq!(session.prompt(), vec!["Enter a new author (leave blank to keep current):"]);
    session.stage = Stage::EditPages { index: 0, title: String::new(), author: String::new() };
    assert_eq!(session.prompt(), vec!["Enter a new page count (leave blank to keep current):"]);
    session.stage = Stage::DeleteIndex;
    assert_eq!(session.prompt(), vec!["Enter the index of the book to delete:"]);
    session.stage = Stage::Exited;
    assert_eq!(session.prompt(), Vec::<String>::new());
}

#[test]
fn step_drops_the_white_space_around_a_line() {
    let mut session = desk();
    assert_eq!(session.step("  1 \n"), silent());
    assert_eq!(session.stage, Stage::AddTitle);
    assert_eq!(session.step("  Brave New World \r\n"), silent());
    assert_eq!(session.stage, Stage::AddAuthor { title: "Brave New World".to_string() });
}

#[test]
fn add_flow_appends_an_available_book_and_saves() {
    let mut session = desk();
    assert_eq!(session.step("1\n"), silent());
    assert_eq!(session.step("Ulysses\n"), silent());
    assert_eq!(session.step("James Joyce\n"), silent());
    assert_eq!(
        session.stage,
        Stage::AddPages { title: "Ulysses".to_string(), author: "James Joyce".to_string() }
    );
    assert_eq!(session.step("730\n"), saved(&[]));
    assert_eq!(session.stage, Stage::Menu);
    assert_eq!(session.store.len(), 4);
    assert_eq!(session.store.books[3], desk_book("Ulysses", "James Joyce", 730));
    assert!(session.store.books[3].is_available);
}

#[test]
fn add_flow_refuses_a_bad_page_count() {
    let mut session = desk();
    session.step("1\n");
    session.step("Ulysses\n");
    session.step("James Joyce\n");
    assert_eq!(session.step("a lot\n"), shown(&["Invalid page count."]));
    assert_eq!(session.stage, Stage::Menu);
    assert_eq!(session.store, desk().store);
}

#[test]
fn search_flow_describes_each_match() {
    let mut session = desk();
    assert_eq!(session.step("2\n"), silent());
    assert_eq!(session.stage, Stage::SearchQuery);
    assert_eq!(
        session.step("AN\n"),
        shown(&[
            "Title: Dune\nAuthor: Frank Herbert\nPages: 412\nStatus: Available",
            "Title: Emma\nAuthor: Jane Austen\nPages: 474\nStatus: Available",
        ])
    );
    assert_eq!(session.stage, Stage::Menu);
    assert_eq!(session.store, desk().store);
}

#[test]
fn search_flow_says_when_nothing_matches() {
    let mut session = desk();
    session.step("2\n");
    assert_eq!(session.step("tolstoy\n"), shown(&["No books found."]));
    assert_eq!(session.stage, Stage::Menu);
}

#[test]
fn search_flow_with_a_blank_line_shows_every_book() {
    let mut session = desk();
    session.step("2\n");
    let reply = session.step("\n");
    assert_eq!(reply.lines.len(), 3);
    assert!(!reply.save);
    assert_eq!(
        reply.lines[0],
        "Title: The Great Gatsby\nAuthor: F. Scott Fitzgerald\nPages: 180\nStatus: Available"
    );
}

#[test]
fn search_flow_in_an_empty_collection() {
    let mut session = Session::new(Store::new());
    session.step("2\n");
    assert_eq!(session.step("\n"), shown(&["No books found."]));
}

#[test]
fn borrow_flow_borrows_and_saves() {
    let mut session = desk();
    assert_eq!(session.step("3\n"), silent());
    assert_eq!(session.stage, Stage::BorrowIndex);
    assert_eq!(session.step("1\n"), saved(&["You have borrowed \"Dune\"."]));
    assert_eq!(session.stage, Stage::Menu);
    assert!(!session.store.books[1].is_available);
    assert!(session.store.books[0].is_available);
}

#[test]
fn borrow_flow_twice_reports_already_borrowed_and_saves() {
    let mut session = desk();
    session.step("3\n");
    session.step("1\n");
    session.step("3\n");
    assert_eq!(session.step("1\n"), saved(&["\"Dune\" is already borrowed."]));
    assert!(!session.store.books[1].is_available);
}

#[test]
fn borrow_flow_out_of_range_changes_nothing() {
    let mut session = desk();
    session.step("3\n");
    assert_eq!(session.step("3\n"), shown(&["Invalid index."]));
    assert_eq!(session.stage, Stage::Menu);
    assert_eq!(session.store, desk().store);
}

#[test]
fn borrow_flow_not_a_number_changes_nothing() {
    let mut session = desk();
    session.step("3\n");
    assert_eq!(session.step("first\n"), shown(&["Invalid index."]));
    assert_eq!(session.stage, Stage::Menu);
    assert_eq!(session.store, desk().store);
}

#[test]
fn return_flow_returns_and_saves() {
    let mut session = desk();
    session.store.borrow(2).unwrap();
    assert_eq!(session.step("4\n"), silent());
    assert_eq!(session.stage, Stage::ReturnIndex);
    assert_eq!(session.step("2\n"), saved(&["You have returned \"Emma\"."]));
    assert!(session.store.books[2].is_available);
    session.step("4\n");
    assert_eq!(session.step("2\n"), saved(&["\"Emma\" was not borrowed."]));
    assert!(session.store.books[2].is_available);
}

#[test]
fn return_flow_out_of_range_changes_nothing() {
    let mut session = desk();
    session.step("4\n");
    assert_eq!(session.step("17\n"), shown(&["Invalid index."]));
    assert_eq!(session.stage, Stage::Menu);
    assert_eq!(session.store, desk().store);
}

#[test]
fn edit_flow_replaces_what_is_entered() {
    let mut session = desk();
    assert_eq!(session.step("5\n"), silent());
    assert_eq!(session.stage, Stage::EditIndex);
    assert_eq!(session.step("2\n"), silent());
    assert_eq!(session.stage, Stage::EditTitle { index: 2 });
    assert_eq!(session.step("Persuasion\n"), silent());
    assert_eq!(session.stage, Stage::EditAuthor { index: 2, title: "Persuasion".to_string() });
    assert_eq!(session.step("\n"), silent());
    assert_eq!(
        session.stage,
        Stage::EditPages { index: 2, title: "Persuasion".to_string(), author: String::new() }
    );
    assert_eq!(session.step("249\n"), saved(&[]));
    assert_eq!(session.stage, Stage::Menu);
    assert_eq!(session.store.books[2], desk_book("Persuasion", "Jane Austen", 249));
    assert_eq!(session.store.books[1], desk_book("Dune", "Frank Herbert", 412));
}

#[test]
fn edit_flow_with_blank_lines_keeps_the_book_and_saves() {
    let mut session = desk();
    session.step("5\n");
    session.step("0\n");
    session.step("\n");
    session.step("   \n");
    assert_eq!(session.step("\n"), saved(&[]));
    assert_eq!(session.store, desk().store);
}

#[test]
fn edit_flow_keeps_pages_when_the_entry_is_no_number() {
    let mut session = desk();
    session.step("5\n");
    session.step("1\n");
    session.step("Dune Messiah\n");
    session.step("\n");
    assert_eq!(session.step("unknown\n"), saved(&[]));
    assert_eq!(session.store.books[1], desk_book("Dune Messiah", "Frank Herbert", 412));
}

#[test]
fn edit_flow_out_of_range_goes_back_to_the_menu() {
    let mut session = desk();
    session.step("5\n");
    assert_eq!(session.step("3\n"), shown(&["Invalid index."]));
    assert_eq!(session.stage, Stage::Menu);
    assert_eq!(session.store, desk().store);
}

#[test]
fn edit_at_a_position_that_is_gone_changes_nothing() {
    let mut session = desk();
    session.stage = Stage::EditPages { index: 9, title: "X".to_string(), author: "Y".to_string() };
    assert_eq!(session.enter("1"), shown(&["Invalid index."]));
    assert_eq!(session.stage, Stage::Menu);
    assert_eq!(session.store, desk().store);
}

#[test]
fn delete_flow_removes_and_saves() {
    let mut session = desk();
    assert_eq!(session.step("6\n"), silent());
    assert_eq!(session.stage, Stage::DeleteIndex);
    assert_eq!(
        session.step("0\n"),
        saved(&["Book removed.", "Every book after it has moved down by one index."])
    );
    assert_eq!(session.stage, Stage::Menu);
    assert_eq!(session.store.len(), 2);
    assert_eq!(session.store.books[0].title, "Dune");
    assert_eq!(session.store.books[1].title, "Emma");
}

#[test]
fn delete_flow_out_of_range_changes_nothing() {
    let mut session = desk();
    session.step("6\n");
    assert_eq!(session.step("3\n"), shown(&["Invalid index."]));
    assert_eq!(session.stage, Stage::Menu);
    assert_eq!(session.store, desk().store);
    session.step("6\n");
    assert_eq!(session.step("x\n"), shown(&["Invalid index."]));
    assert_eq!(session.store, desk().store);
}

#[test]
fn statistics_are_shown_and_not_saved() {
    let mut session = desk();
    session.store.borrow(0).unwrap();
    assert_eq!(
        session.step("7\n"),
        shown(&["Total books: 3", "Borrowed books: 1", "Available books: 2"])
    );
    assert_eq!(session.stage, Stage::Menu);
}

#[test]
fn unknown_choice_is_answered_and_the_menu_stays() {
    let mut session = desk();
    assert_eq!(session.step("9\n"), shown(&["Invalid choice! Please try again."]));
    assert_eq!(session.stage, Stage::Menu);
    assert_eq!(session.step("\n"), shown(&["Invalid choice! Please try again."]));
    assert_eq!(session.step("help\n"), shown(&["Invalid choice! Please try again."]));
    assert!(session.is_running());
    assert_eq!(session.store, desk().store);
}

#[test]
fn exit_ends_the_session() {
    let mut session = desk();
    assert_eq!(session.step("8\n"), silent());
    assert_eq!(session.stage, Stage::Exited);
    assert!(!session.is_running());
    assert_eq!(session.store, desk().store);
}

#[test]
fn ended_session_stays_ended() {
    let mut session = desk();
    session.step("8\n");
    assert_eq!(session.step("1\n"), silent());
    assert_eq!(session.stage, Stage::Exited);
    assert!(!session.is_running());
    assert_eq!(session.store, desk().store);
}

#[test]
fn enter_takes_the_entry_as_it_is() {
    let mut session = desk();
    assert_eq!(session.enter(" 1"), shown(&["Invalid choice! Please try again."]));
    assert_eq!(session.enter("1"), silent());
    assert_eq!(session.enter(" spaced "), silent());
    assert_eq!(session.stage, Stage::AddAuthor { title: " spaced ".to_string() });
}

#[test]
fn a_whole_conversation() {
    let mut session = Session::new(Store::new());
    let mut saves = 0;
    for line in [
        "1", "Dune", "Frank Herbert", "412", "1", "Emma", "Jane Austen", "474", "3", "0", "7", "6",
        "0", "2", "emma", "8",
    ] {
        if session.step(line).save {
            saves += 1;
        }
    }
    assert_eq!(saves, 4);
    assert!(!session.is_running());
    assert_eq!(session.store.len(), 1);
    assert_eq!(session.store.books[0], desk_book("Emma", "Jane Austen", 474));
}
