use backend::archive::{archive_plan, restore_plan, MessageStore, Write};
use backend::error::AppError;
use backend::models::{ArchiveRequest, Message};
use backend::time::Timestamp;

fn request(action: &str) -> ArchiveRequest {
    ArchiveRequest { action: action.to_string() }
}

fn message(id: i64, name: &str) -> Message {
    Message {
        id,
        name: name.to_string(),
        email: format!("{}@example.com", name),
        phone: Some("555-0100".to_string()),
        subject: None,
        message: "Hello".to_string(),
        created_at: Timestamp::new(1_700_000_000, 123),
    }
}

#[test]
fn archive_then_restore_scenario() {
    let mut store = MessageStore::new();
    assert_eq!(store.insert(message(7, "seven")), Ok(()));
    assert_eq!(store.insert(message(8, "eight")), Ok(()));

    assert_eq!(store.archive_message(true, 7, &request("archive"), Timestamp::new(1_700_000_100, 0)), Ok(()));
    assert!(store.active.iter().all(|m| m.id != 7));
    assert_eq!(store.active.len(), 1);
    assert_eq!(store.archive.len(), 1);
    assert_eq!(store.archive[0].original_id, 7);
    assert_eq!(store.archive[0].id, 1);
    assert_eq!(store.archive[0].archived_at, Timestamp::new(1_700_000_100, 0));
    let row_id = store.archive[0].id;

    assert_eq!(store.archive_message(true, 7, &request("restore"), Timestamp::new(1_700_000_200, 0)), Ok(()));
    assert!(store.active.iter().any(|m| m.id == 7));
    assert!(store.archive.iter().all(|a| a.id != row_id));
    assert!(store.archive.is_empty());
}

#[test]
fn round_trip_keeps_the_message() {
    let mut store = MessageStore::new();
    let original = message(42, "answer");
    store.insert(original.clone()).unwrap();
    store.archive(42, Timestamp::new(1_700_000_500, 9)).unwrap();
    assert_eq!(store.find_active(42), None);
    store.restore(42).unwrap();
    let place = store.find_active(42).expect("the message is active again");
    assert_eq!(store.active[place], original);
    assert_eq!(store.active[place].id, 42);
    assert_eq!(store.active[place].created_at, Timestamp::new(1_700_000_000, 123));
}

#[test]
fn archiving_a_missing_message_changes_nothing() {
    let mut store = MessageStore::new();
    store.insert(message(1, "one")).unwrap();
    store.archive(1, Timestamp::new(10, 0)).unwrap();
    store.insert(message(2, "two")).unwrap();
    let before = store.clone();
    assert_eq!(store.archive(99, Timestamp::new(20, 0)), Err(AppError::NotFound));
    assert_eq!(store, before);
    assert_eq!(store.delete_message(true, 99, Timestamp::new(20, 0)), Err(AppError::NotFound));
    assert_eq!(store, before);
}

#[test]
fn restoring_without_a_row_changes_nothing() {
    let mut store = MessageStore::new();
    store.insert(message(1, "one")).unwrap();
    let before = store.clone();
    assert_eq!(store.restore(1), Err(AppError::NotFound));
    assert_eq!(store.restore(5), Err(AppError::NotFound));
    assert_eq!(store, before);
}

#[test]
fn two_cycles_make_two_rows() {
    let mut store = MessageStore::new();
    store.insert(message(3, "three")).unwrap();
    store.archive(3, Timestamp::new(100, 0)).unwrap();
    let first = store.archive[0].id;
    store.restore(3).unwrap();
    store.archive(3, Timestamp::new(200, 0)).unwrap();
    let second = store.archive[0].id;
    assert_ne!(first, second);
    assert_eq!((first, second), (1, 2));
    assert_eq!(store.archive.len(), 1);
    assert_eq!(store.archive[0].archived_at, Timestamp::new(200, 0));
}

#[test]
fn restore_picks_the_row_archived_last() {
    let mut store = MessageStore::new();
    let mut old = message(3, "old");
    old.message = "first version".to_string();
    store.insert(old).unwrap();
    store.archive(3, Timestamp::new(100, 0)).unwrap();
    let mut new = message(3, "new");
    new.message = "second version".to_string();
    store.insert(new.clone()).unwrap();
    store.archive(3, Timestamp::new(100, 1)).unwrap();
    store.insert(message(4, "four")).unwrap();
    store.archive(4, Timestamp::new(900, 0)).unwrap();
    assert_eq!(store.find_latest(3), Some(1));

    store.restore(3).unwrap();
    assert_eq!(store.active, vec![new]);
    // The older row of the same message and the row of the other message stay.
    assert_eq!(store.archive.len(), 2);
    assert_eq!(store.archive[0].id, 1);
    assert_eq!(store.archive[0].message, "first version");
    assert_eq!(store.archive[1].original_id, 4);
}

#[test]
fn restore_onto_a_taken_id_is_a_conflict() {
    let mut store = MessageStore::new();
    store.insert(message(3, "three")).unwrap();
    store.archive(3, Timestamp::new(100, 0)).unwrap();
    store.insert(message(3, "usurper")).unwrap();
    let before = store.clone();
    let r = store.restore(3);
    assert_eq!(r, Err(AppError::Conflict));
    assert_eq!(r.unwrap_err().status(), 409);
    assert_eq!(store, before);
}

#[test]
fn insert_onto_a_taken_id_is_a_conflict() {
    let mut store = MessageStore::new();
    store.insert(message(3, "three")).unwrap();
    assert_eq!(store.insert(message(3, "again")), Err(AppError::Conflict));
    assert_eq!(store.active.len(), 1);
    assert_eq!(store.active[0].name, "three");
}

#[test]
fn unknown_action_is_invalid_input() {
    let mut store = MessageStore::new();
    store.insert(message(3, "three")).unwrap();
    let before = store.clone();
    let r = store.archive_message(true, 3, &request("destroy"), Timestamp::new(1, 0));
    assert_eq!(r, Err(AppError::InvalidInput("Invalid archive action".to_string())));
    assert_eq!(r.unwrap_err().status(), 400);
    assert_eq!(store, before);
}

#[test]
fn purge_removes_one_row_for_good() {
    let mut store = MessageStore::new();
    store.insert(message(1, "one")).unwrap();
    store.insert(message(2, "two")).unwrap();
    store.archive(1, Timestamp::new(10, 0)).unwrap();
    store.archive(2, Timestamp::new(11, 0)).unwrap();
    assert_eq!(store.find_row(1), Some(0));
    assert_eq!(store.find_row(2), Some(1));
    assert_eq!(store.permanently_delete_archived_message(true, 1), Ok(()));
    assert_eq!(store.archive.len(), 1);
    assert_eq!(store.archive[0].original_id, 2);
    assert_eq!(store.restore(1), Err(AppError::NotFound));
    let before = store.clone();
    assert_eq!(store.permanently_delete_archived_message(true, 77), Ok(()));
    assert_eq!(store, before);
}

#[test]
fn delete_archives_the_message() {
    let mut store = MessageStore::new();
    store.insert(message(1, "one")).unwrap();
    assert_eq!(store.delete_message(true, 1, Timestamp::new(10, 0)), Ok(()));
    assert!(store.active.is_empty());
    assert_eq!(store.archive.len(), 1);
    assert_eq!(store.archive[0].clone().into_restored(), message(1, "one"));
}

#[test]
fn archive_without_a_key_left_is_a_store_failure() {
    let mut store = MessageStore::new();
    store.insert(message(1, "one")).unwrap();
    store.next_archive_id = i64::MAX;
    let before = store.clone();
    let r = store.archive(1, Timestamp::new(10, 0));
    assert!(matches!(r, Err(AppError::Database(_))));
    assert_eq!(r.unwrap_err().status(), 500);
    assert_eq!(store, before);
}

#[test]
fn plans_name_the_two_writes() {
    let m = message(7, "seven");
    let now = Timestamp::new(50, 5);
    let (first, second) = archive_plan(m.clone(), now);
    assert_eq!(first, Write::ArchiveInsert(m.clone().into_archived(), now));
    assert_eq!(second, Write::ActiveDelete(7));

    let row = m.clone().into_archived().into_row(3, now);
    let (first, second) = restore_plan(row);
    assert_eq!(first, Write::ActiveInsert(m));
    assert_eq!(second, Write::ArchiveDelete(3));
}

#[test]
fn commit_is_all_or_nothing() {
    let mut store = MessageStore::new();
    store.insert(message(1, "one")).unwrap();
    store.insert(message(2, "two")).unwrap();
    store.archive(2, Timestamp::new(10, 0)).unwrap();
    let before = store.clone();

    // The second write fails: the first is taken back.
    let new = message(9, "nine").into_archived();
    assert!(!store.commit(Write::ArchiveInsert(new.clone(), Timestamp::new(11, 0)), Write::ActiveDelete(5)));
    assert_eq!(store, before);
    assert!(!store.commit(Write::ActiveDelete(1), Write::ArchiveDelete(77)));
    assert_eq!(store, before);
    assert!(!store.commit(Write::ActiveInsert(message(3, "three")), Write::ActiveInsert(message(1, "again"))));
    assert_eq!(store, before);
    assert!(!store.commit(Write::ArchiveDelete(1), Write::ActiveInsert(message(1, "again"))));
    assert_eq!(store, before);
    // The first write fails: nothing is tried.
    assert!(!store.commit(Write::ActiveDelete(5), Write::ActiveInsert(message(3, "three"))));
    assert_eq!(store, before);

    // Both can be made: both take effect.
    assert!(store.commit(Write::ArchiveInsert(new, Timestamp::new(11, 0)), Write::ActiveDelete(1)));
    assert!(store.active.is_empty());
    assert_eq!(store.archive.len(), 2);
    assert_eq!(store.archive[1].id, 2);
    assert_eq!(store.archive[1].original_id, 9);
    assert_eq!(store.next_archive_id, 3);
}

#[test]
fn copies_are_equal() {
    let m = message(7, "seven");
    assert_eq!(m.duplicate(), m);
    let row = m.clone().into_archived().into_row(3, Timestamp::new(1, 2));
    assert_eq!(row.duplicate(), row);
}

#[test]
fn stranger_moves_and_deletes_nothing() {
    let mut store = MessageStore::new();
    store.insert(message(1, "one")).unwrap();
    store.insert(message(2, "two")).unwrap();
    store.archive(2, Timestamp::new(10, 0)).unwrap();
    let before = store.clone();
    let now = Timestamp::new(20, 0);

    for word in ["archive", "restore", "destroy", ""] {
        for id in [1, 2, 99] {
            let r = store.archive_message(false, id, &request(word), now);
            assert_eq!(r, Err(AppError::Unauthorized));
            assert_eq!(store, before);
        }
    }
    assert_eq!(store.delete_message(false, 1, now), Err(AppError::Unauthorized));
    assert_eq!(store.delete_message(false, 99, now), Err(AppError::Unauthorized));
    assert_eq!(store.permanently_delete_archived_message(false, 1), Err(AppError::Unauthorized));
    assert_eq!(store.permanently_delete_archived_message(false, 77), Err(AppError::Unauthorized));
    assert_eq!(store, before);
    assert_eq!(AppError::Unauthorized.status(), 401);

    // The same requests from an admin take effect.
    assert_eq!(store.archive_message(true, 2, &request("restore"), now), Ok(()));
    assert_eq!(store.delete_message(true, 1, now), Ok(()));
    assert_eq!(store.active.len(), 1);
    assert_eq!(store.active[0].id, 2);
    assert_eq!(store.archive.len(), 1);
    assert_eq!(store.archive[0].original_id, 1);
}
