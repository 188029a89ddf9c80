use distrust::data::{
    after_count, after_lookup, Database, NewPaste, Paste, ReadStep, Resource, StorageError,
};

fn upload(content: &[u8], content_type: &str) -> NewPaste {
    NewPaste { content: content.to_vec(), content_type: content_type.to_string() }
}

#[test]
fn create_then_get_returns_what_was_stored() {
    let mut db = Database::new();
    assert_eq!(db.create_paste("abc", upload(b"hello", "text/plain"), 1_700_000_000), Ok(()));
    let paste = db.get_paste("abc").unwrap().unwrap();
    assert_eq!(paste.id, "abc");
    assert_eq!(paste.content, b"hello".to_vec());
    assert_eq!(paste.content_type, "text/plain");
    assert_eq!(paste.size, 5);
    assert_eq!(paste.created_at, 1_700_000_000);
    assert_eq!(paste.view_count, 0);
}

#[test]
fn create_keeps_binary_content_byte_for_byte() {
    let mut db = Database::new();
    let bytes: Vec<u8> = vec![0, 159, 146, 150, 255, 10, 13, 0];
    assert_eq!(db.create_paste("bin", upload(&bytes, "image/png"), -5), Ok(()));
    let paste = db.get_paste("bin").unwrap().unwrap();
    assert_eq!(paste.content, bytes);
    assert_eq!(paste.content_type, "image/png");
    assert_eq!(paste.size, 8);
    assert_eq!(paste.created_at, -5);
}

#[test]
fn empty_content_has_size_zero() {
    let mut db = Database::new();
    assert_eq!(db.create_paste("e", upload(b"", "text/plain"), 0), Ok(()));
    let paste = db.get_paste("e").unwrap().unwrap();
    assert_eq!(paste.size, 0);
    assert!(paste.content.is_empty());
}

#[test]
fn view_count_starts_at_zero_and_counts_each_get() {
    let mut db = Database::new();
    db.create_paste("v", upload(b"x", "text/plain"), 0).unwrap();
    assert_eq!(db.select("v").unwrap().view_count, 0);
    assert_eq!(db.get_paste("v").unwrap().unwrap().view_count, 0);
    assert_eq!(db.get_paste("v").unwrap().unwrap().view_count, 1);
    assert_eq!(db.get_paste("v").unwrap().unwrap().view_count, 2);
    assert_eq!(db.select("v").unwrap().view_count, 3);
}

#[test]
fn select_does_not_count_a_view() {
    let mut db = Database::new();
    db.create_paste("s", upload(b"x", "text/plain"), 0).unwrap();
    assert_eq!(db.select("s").unwrap().view_count, 0);
    assert_eq!(db.select("s").unwrap().view_count, 0);
}

#[test]
fn count_view_touches_only_its_record() {
    let mut db = Database::new();
    db.create_paste("a", upload(b"1", "text/plain"), 1).unwrap();
    db.create_paste("b", upload(b"22", "text/css"), 2).unwrap();
    assert_eq!(db.count_view("a"), Ok(()));
    assert_eq!(db.count_view("a"), Ok(()));
    assert_eq!(db.count_view("nobody"), Ok(()));
    let a = db.select("a").unwrap();
    let b = db.select("b").unwrap();
    assert_eq!(a.view_count, 2);
    assert_eq!(a.content, b"1".to_vec());
    assert_eq!(a.created_at, 1);
    assert_eq!(
        b,
        Paste {
            id: "b".to_string(),
            content: b"22".to_vec(),
            content_type: "text/css".to_string(),
            size: 2,
            created_at: 2,
            view_count: 0,
        }
    );
    assert_eq!(db.select("nobody"), None);
}

#[test]
fn get_of_unknown_id_is_not_found_and_not_an_error() {
    let mut db = Database::new();
    assert_eq!(db.get_paste("never"), Ok(None));
    assert_eq!(db.get_resource("never"), Ok(None));
    db.create_paste("other", upload(b"x", "text/plain"), 0).unwrap();
    assert_eq!(db.get_paste("never"), Ok(None));
    assert_eq!(db.get_paste("othe"), Ok(None));
    assert_eq!(db.get_paste("other "), Ok(None));
    assert_eq!(db.get_paste(""), Ok(None));
}

#[test]
fn duplicate_id_is_refused_and_changes_nothing() {
    let mut db = Database::new();
    assert_eq!(db.create_paste("dup", upload(b"first", "text/plain"), 10), Ok(()));
    assert_eq!(
        db.create_paste("dup", upload(b"second", "text/html"), 20),
        Err(StorageError::DuplicateKey)
    );
    assert_eq!(db.post_resource("dup", "third", 30), Err(StorageError::DuplicateKey));
    let paste = db.get_paste("dup").unwrap().unwrap();
    assert_eq!(paste.content, b"first".to_vec());
    assert_eq!(paste.content_type, "text/plain");
    assert_eq!(paste.created_at, 10);
    assert_eq!(paste.view_count, 0);
}

#[test]
fn ids_are_compared_exactly() {
    let mut db = Database::new();
    assert_eq!(db.create_paste("Key", upload(b"1", "text/plain"), 0), Ok(()));
    assert_eq!(db.create_paste("key", upload(b"2", "text/plain"), 0), Ok(()));
    assert_eq!(db.create_paste("k\u{e9}y", upload(b"3", "text/plain"), 0), Ok(()));
    assert_eq!(db.create_paste("ke\u{301}y", upload(b"4", "text/plain"), 0), Ok(()));
    assert_eq!(db.get_paste("key").unwrap().unwrap().content, b"2".to_vec());
    assert_eq!(db.get_paste("k\u{e9}y").unwrap().unwrap().content, b"3".to_vec());
}

#[test]
fn post_then_get_resource_gives_the_text_back() {
    let mut db = Database::new();
    assert_eq!(db.post_resource("u1", "hello world", 7), Ok(()));
    assert_eq!(
        db.get_resource("u1"),
        Ok(Some(Resource { uid: "u1".to_string(), content: "hello world".to_string() }))
    );
    assert_eq!(db.post_resource("u2", "gr\u{fc}\u{df}e \u{2713}", 7), Ok(()));
    assert_eq!(db.get_resource("u2").unwrap().unwrap().content, "gr\u{fc}\u{df}e \u{2713}");
}

#[test]
fn posted_text_is_a_plain_text_record() {
    let mut db = Database::new();
    db.post_resource("u", "h\u{e9}", 42).unwrap();
    let paste = db.select("u").unwrap();
    assert_eq!(paste.content, vec![b'h', 0xc3, 0xa9]);
    assert_eq!(paste.content_type, "text/plain");
    assert_eq!(paste.size, 3);
    assert_eq!(paste.created_at, 42);
    assert_eq!(paste.view_count, 0);
}

#[test]
fn get_resource_counts_a_view() {
    let mut db = Database::new();
    db.post_resource("u", "t", 0).unwrap();
    db.get_resource("u").unwrap();
    db.get_resource("u").unwrap();
    assert_eq!(db.select("u").unwrap().view_count, 2);
}

#[test]
fn malformed_bytes_read_as_replacement_characters() {
    let mut db = Database::new();
    db.create_paste("m", upload(&[b'a', 0xff, b'b', 0xc3], "application/octet-stream"), 0)
        .unwrap();
    assert_eq!(db.get_resource("m").unwrap().unwrap().content, "a\u{fffd}b\u{fffd}");
}

#[test]
fn new_record_has_size_of_content_and_no_views() {
    let row = Paste::new("id", upload(b"12345678", "text/x-rust"), 99);
    assert_eq!(
        row,
        Paste {
            id: "id".to_string(),
            content: b"12345678".to_vec(),
            content_type: "text/x-rust".to_string(),
            size: 8,
            created_at: 99,
            view_count: 0,
        }
    );
}

#[test]
fn into_resource_reads_content_as_text() {
    let row = Paste::new("id", upload("na\u{ef}ve".as_bytes(), "text/plain"), 0);
    assert_eq!(
        row.into_resource(),
        Resource { uid: "id".to_string(), content: "na\u{ef}ve".to_string() }
    );
}

#[test]
fn a_found_record_has_its_view_counted() {
    let row = Paste::new("id", upload(b"x", "text/plain"), 0);
    let same = Paste::new("id", upload(b"x", "text/plain"), 0);
    assert_eq!(after_lookup(Ok(Some(row))), ReadStep::CountView(same));
    assert_eq!(after_lookup(Ok(None)), ReadStep::Return(Ok(None)));
    assert_eq!(
        after_lookup(Err(StorageError::StorageUnavailable)),
        ReadStep::Return(Err(StorageError::StorageUnavailable))
    );
}

#[test]
fn a_failed_count_is_not_surfaced() {
    let row = Paste::new("id", upload(b"x", "text/plain"), 0);
    let same = Paste::new("id", upload(b"x", "text/plain"), 0);
    assert_eq!(after_count(row, Err(StorageError::StorageUnavailable)), Ok(Some(same)));
    let row = Paste::new("id", upload(b"x", "text/plain"), 0);
    let same = Paste::new("id", upload(b"x", "text/plain"), 0);
    assert_eq!(after_count(row, Ok(())), Ok(Some(same)));
}
