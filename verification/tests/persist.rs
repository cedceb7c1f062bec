use bookshelf::book::Book;
use bookshelf::persist::open_store;
use bookshelf::persist::LoadError;
use bookshelf::persist::Saved;

#[test]
fn open_store_without_a_file_is_empty() {
    let store = open_store(Saved::Missing).unwrap();
    assert_eq!(store.len(), 0);
}

#[test]
fn open_store_keeps_the_books_of_the_file() {
    let mut second = Book::new("Emma".to_string(), "Jane Austen".to_string(), 474);
    second.borrow();
    let books = vec![Book::new("Dune".to_string(), "Frank Herbert".to_string(), 412), second];
    let store = open_store(Saved::Books(books)).unwrap();
    assert_eq!(store.len(), 2);
    assert_eq!(store.books[0], Book::new("Dune".to_string(), "Frank Herbert".to_string(), 412));
    assert_eq!(store.books[1].title, "Emma");
    assert!(!store.books[1].is_available);
}

#[test]
fn open_store_with_an_empty_file_list_is_empty() {
    let store = open_store(Saved::Books(Vec::new())).unwrap();
    assert_eq!(store.len(), 0);
}

#[test]
fn open_store_refuses_a_malformed_file() {
    let opened = open_store(Saved::Malformed { reason: "expected value at line 1".to_string() });
    assert_eq!(
        opened,
        Err(LoadError::Malformed { reason: "expected value at line 1".to_string() })
    );
}
