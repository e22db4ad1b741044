use bookshelf::book::{Book, BookSummary, Timestamp};
use bookshelf::filter::matches_filters;
use bookshelf::inmemory::InMemoryBookRepo;
use bookshelf::repo::BookRepo;

fn book(id: u128, name: &str, reading: bool, finished: bool) -> Book {
    Book {
        id,
        name: name.to_string(),
        year: 2010,
        author: "John Doe".to_string(),
        summary: "Lorem ipsum dolor sit amet".to_string(),
        publisher: format!("Penerbit {}", id),
        page_count: 100,
        read_page: if finished { 100 } else { 25 },
        reading,
        finished,
        updated_at: Timestamp { secs: 20, nanos: 2 },
        inserted_at: Timestamp { secs: 10, nanos: 1 },
    }
}

fn shelf() -> InMemoryBookRepo {
    let mut repo = InMemoryBookRepo::new();
    repo.save_book(&book(1, "Buku A", true, true)).unwrap();
    repo.save_book(&book(2, "Buku B", false, false)).unwrap();
    repo.save_book(&book(3, "Kamus", true, false)).unwrap();
    repo.save_book(&book(4, "buku tulis", true, false)).unwrap();
    repo
}

fn ids(mut list: Vec<BookSummary>) -> Vec<u128> {
    list.sort_by_key(|s| s.id);
    list.into_iter().map(|s| s.id).collect()
}

fn list(
    repo: &InMemoryBookRepo,
    name: Option<&str>,
    reading: Option<bool>,
    finished: Option<bool>,
) -> Vec<u128> {
    ids(repo.get_books(name.map(|n| n.to_string()), reading, finished).unwrap())
}

#[test]
fn a_new_repository_is_empty() {
    assert_eq!(InMemoryBookRepo::new().get_books(None, None, None).unwrap(), vec![]);
    assert_eq!(InMemoryBookRepo::default().get_books(None, None, None).unwrap(), vec![]);
    assert_eq!(InMemoryBookRepo::new().get_book_by_id(1).unwrap(), None);
}

#[test]
fn a_saved_book_is_found_as_it_was_saved() {
    let mut repo = InMemoryBookRepo::new();
    let b = book(0xa1a2a3a4b1b2c1c2d1d2d3d4d5d6d7d8, "Buku A", true, false);
    assert_eq!(repo.save_book(&b).unwrap(), b.id);
    assert_eq!(repo.get_book_by_id(b.id).unwrap(), Some(b));
}

#[test]
fn saving_under_a_known_id_replaces_the_book() {
    let mut repo = shelf();
    let replacement = book(2, "Buku B, edisi kedua", true, true);
    assert_eq!(repo.save_book(&replacement).unwrap(), 2);
    assert_eq!(repo.get_book_by_id(2).unwrap(), Some(replacement));
    assert_eq!(repo.get_book_by_id(1).unwrap(), Some(book(1, "Buku A", true, true)));
    assert_eq!(list(&repo, None, None, None), vec![1, 2, 3, 4]);
}

#[test]
fn a_miss_is_no_failure() {
    let repo = shelf();
    assert_eq!(repo.get_book_by_id(5).unwrap(), None);
}

#[test]
fn delete_hands_the_id_back_whether_or_not_a_book_was_held() {
    let mut repo = shelf();
    assert_eq!(repo.delete_book(3).unwrap(), 3);
    assert_eq!(repo.get_book_by_id(3).unwrap(), None);
    assert_eq!(repo.delete_book(3).unwrap(), 3);
    assert_eq!(repo.get_book_by_id(3).unwrap(), None);
    assert_eq!(repo.delete_book(99).unwrap(), 99);
    assert_eq!(list(&repo, None, None, None), vec![1, 2, 4]);
}

#[test]
fn a_list_holds_the_summary_of_each_book_once() {
    let repo = shelf();
    let mut all = repo.get_books(None, None, None).unwrap();
    all.sort_by_key(|s| s.id);
    assert_eq!(
        all,
        vec![
            BookSummary { id: 1, name: "Buku A".to_string(), publisher: "Penerbit 1".to_string() },
            BookSummary { id: 2, name: "Buku B".to_string(), publisher: "Penerbit 2".to_string() },
            BookSummary { id: 3, name: "Kamus".to_string(), publisher: "Penerbit 3".to_string() },
            BookSummary {
                id: 4,
                name: "buku tulis".to_string(),
                publisher: "Penerbit 4".to_string()
            },
        ]
    );
}

#[test]
fn each_filter_selects_by_its_own_rule() {
    let repo = shelf();
    assert_eq!(list(&repo, Some("buku"), None, None), vec![1, 2, 4]);
    assert_eq!(list(&repo, Some("KAMUS"), None, None), vec![3]);
    assert_eq!(list(&repo, None, Some(true), None), vec![1, 3, 4]);
    assert_eq!(list(&repo, None, Some(false), None), vec![2]);
    assert_eq!(list(&repo, None, None, Some(true)), vec![1]);
    assert_eq!(list(&repo, None, None, Some(false)), vec![2, 3, 4]);
}

#[test]
fn several_filters_select_what_each_of_them_selects() {
    let repo = shelf();
    let names = [None, Some("buku"), Some("a"), Some("zzz")];
    let flags = [None, Some(true), Some(false)];
    for name in names {
        for reading in flags {
            for finished in flags {
                let together = list(&repo, name, reading, finished);
                let by_name = list(&repo, name, None, None);
                let by_reading = list(&repo, None, reading, None);
                let by_finished = list(&repo, None, None, finished);
                let shared: Vec<u128> = by_name
                    .into_iter()
                    .filter(|id| by_reading.contains(id) && by_finished.contains(id))
                    .collect();
                assert_eq!(together, shared, "{:?} {:?} {:?}", name, reading, finished);
            }
        }
    }
}

#[test]
fn the_filter_evaluator_decides_for_one_book() {
    let b = book(1, "Buku A", true, false);
    assert!(matches_filters(&b, &None, None, None));
    assert!(matches_filters(&b, &Some("uku".to_string()), Some(true), Some(false)));
    assert!(!matches_filters(&b, &Some("uku".to_string()), Some(true), Some(true)));
    assert!(!matches_filters(&b, &Some("uku".to_string()), Some(false), Some(false)));
    assert!(!matches_filters(&b, &Some("ukuu".to_string()), Some(true), Some(false)));
    assert!(matches_filters(&b, &Some(String::new()), None, None));
}

#[test]
fn a_book_gives_its_summary() {
    let b = book(9, "Buku A", true, false);
    assert_eq!(
        b.to_summary(),
        BookSummary { id: 9, name: "Buku A".to_string(), publisher: "Penerbit 9".to_string() }
    );
    assert_eq!(b.clone(), b);
    assert_eq!(b.to_summary().clone(), b.to_summary());
}
