use tower_sesh::dynamodb::{delete_batches, session_data, unprocessed_count};
use tower_sesh::table_names::{PostgresTable, SqliteTable};
use tower_sesh::{
    is_valid_identifier, is_valid_table_name, DateTime, Duration, DynamoDBStoreKey,
    DynamoDBStoreProps, Id,
};

#[test]
fn identifiers() {
    assert!(is_valid_identifier("session"));
    assert!(is_valid_identifier("_tower$1"));
    assert!(is_valid_identifier("séance"));
    assert!(is_valid_identifier("セッション"));
    assert!(!is_valid_identifier(""));
    assert!(!is_valid_identifier("1session"));
    assert!(!is_valid_identifier("$session"));
    assert!(!is_valid_identifier("my-table"));
    // Only the digits 0-9 are allowed, not other Unicode digits.
    assert!(!is_valid_identifier("t\u{0663}"));
    assert!(is_valid_identifier("t3"));
    assert!(!is_valid_identifier("a\"; drop table x; --"));
}

#[test]
fn table_names() {
    assert!(is_valid_table_name("tower_sessions"));
    assert!(is_valid_table_name("my-table-2"));
    assert!(is_valid_table_name("1"));
    assert!(!is_valid_table_name(""));
    assert!(!is_valid_table_name("séance"));
    assert!(!is_valid_table_name("a b"));
    assert!(!is_valid_table_name("x;"));
}

#[test]
fn postgres_names() {
    let names = PostgresTable::new();
    assert_eq!(names.schema_name(), "tower_sessions");
    assert_eq!(names.table_name(), "session");
    let names = names.with_schema_name("app").unwrap().with_table_name("sessions").unwrap();
    assert_eq!(names.schema_name(), "app");
    assert_eq!(names.table_name(), "sessions");
    assert_eq!(
        names.clone().with_table_name("bad-name").unwrap_err(),
        "Invalid table name 'bad-name'. Table names must start with a letter or underscore (including letters with diacritical marks and non-Latin letters).Subsequent characters can be letters, underscores, digits (0-9), or dollar signs ($)."
    );
    assert_eq!(
        names.with_schema_name("9").unwrap_err(),
        "Invalid schema name '9'. Schema names must start with a letter or underscore (including letters with diacritical marks and non-Latin letters).Subsequent characters can be letters, underscores, digits (0-9), or dollar signs ($)."
    );
}

#[test]
fn sqlite_names() {
    let names = SqliteTable::new();
    assert_eq!(names.table_name(), "tower_sessions");
    assert_eq!(names.clone().with_table_name("my-sessions").unwrap().table_name(), "my-sessions");
    assert_eq!(
        names.with_table_name("my sessions").unwrap_err(),
        "Invalid table name 'my sessions'. Table names must be alphanumeric and may contain hyphens or underscores."
    );
}

#[test]
fn dynamodb_defaults_and_keys() {
    let props = DynamoDBStoreProps::default();
    assert_eq!(props.table_name, "tower-sessions");
    assert_eq!(props.partition_key.name, "session_id");
    assert_eq!(props.partition_key.prefix.as_deref(), Some("SESSIONS::TOWER::"));
    assert_eq!(props.expirey_name, "expire_at");
    assert_eq!(props.data_name, "data");
    let id = Id(0);
    assert_eq!(props.pk(&id), "SESSIONS::TOWER::AAAAAAAAAAAAAAAAAAAAAA");
    assert_eq!(props.sk(&id), "");
    let props = DynamoDBStoreProps {
        sort_key: Some(DynamoDBStoreKey {
            name: "sk".to_string(),
            prefix: None,
            suffix: Some("#S".to_string()),
        }),
        ..DynamoDBStoreProps::default()
    };
    assert_eq!(props.sk(&id), "AAAAAAAAAAAAAAAAAAAAAA#S");
}

#[test]
fn deletions_are_sent_in_batches_of_25() {
    assert!(delete_batches(Vec::<u32>::new()).is_empty());
    let batches = delete_batches((0..25).collect::<Vec<u32>>());
    assert_eq!(batches.len(), 1);
    let batches = delete_batches((0..60).collect::<Vec<u32>>());
    assert_eq!(batches.iter().map(Vec::len).collect::<Vec<_>>(), vec![25, 25, 10]);
    assert_eq!(batches.concat(), (0..60).collect::<Vec<u32>>());
}

#[test]
fn durations_and_instants() {
    assert_eq!(Duration::hours(2).whole_seconds(), 7200);
    assert_eq!(Duration::weeks(1).whole_seconds(), 604800);
    assert_eq!(Duration::from_nanoseconds(-1_500_000_000).whole_seconds(), -1);
    assert_eq!(Duration::from_nanoseconds(-1_500_000_000).subsec_nanoseconds(), -500_000_000);
    let start = DateTime::from_unix_timestamp(946_684_800).unwrap();
    let later = start.checked_add(Duration::days(1)).unwrap();
    assert_eq!(later.since(start), Duration::seconds(86_400));
    assert_eq!(start.since(later).whole_seconds(), -86_400);
    assert!(DateTime::from_unix_timestamp(253_402_300_800).is_none());
    assert!(DateTime::from_unix_timestamp(-377_705_116_801).is_none());
    assert!(DateTime::now_utc() > start);
}

#[test]
fn unprocessed_deletions_of_the_table_are_counted() {
    assert_eq!(unprocessed_count(&None, "sessions"), 0);
    assert_eq!(unprocessed_count(&Some(vec![]), "sessions"), 0);
    let reported = Some(vec![("other".to_string(), 4), ("sessions".to_string(), 3)]);
    assert_eq!(unprocessed_count(&reported, "sessions"), 3);
    assert_eq!(unprocessed_count(&reported, "missing"), 0);
}

#[test]
fn loading_queries_by_the_keys_and_takes_the_first_item() {
    let props = DynamoDBStoreProps::default();
    assert_eq!(props.key_condition(), "#pk = :pk");
    let props = DynamoDBStoreProps { sort_key: Some(DynamoDBStoreKey::default()), ..DynamoDBStoreProps::default() };
    assert_eq!(props.key_condition(), "#pk = :pk AND #sk = :sk");
    assert_eq!(session_data(vec![]), None);
    assert_eq!(session_data(vec![None, Some(vec![1])]), None);
    assert_eq!(session_data(vec![Some(vec![7, 8]), Some(vec![1])]), Some(vec![7, 8]));
}
