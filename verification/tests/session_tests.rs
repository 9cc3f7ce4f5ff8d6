use mongoc_rs::error::SessionError;
use mongoc_rs::session::{initial, prompt_text, step, Action, Event, SessionState};
use mongoc_rs::url::make_url;

fn strings(items: &[&str]) -> Vec<String> {
    items.iter().map(|s| s.to_string()).collect()
}

#[test]
fn a_fresh_session_asks_for_the_databases() {
    let start = initial();
    assert!(start.output.is_empty());
    assert!(matches!(start.state, SessionState::AwaitingDatabaseList));
    assert!(matches!(start.action, Action::FetchDatabases));
}

#[test]
fn database_listing_uses_the_letter_scheme_and_alias_b_picks_the_second() {
    let listed = step(
        SessionState::AwaitingDatabaseList,
        Event::DatabaseList(strings(&["admin", "mydb"])),
    );
    assert_eq!(listed.output, strings(&["a:\tadmin", "b:\tmydb", ""]));
    assert!(matches!(listed.action, Action::PromptAlias));

    let chosen = step(listed.state, Event::Alias("b".to_string()));
    assert!(chosen.output.is_empty());
    match chosen.action {
        Action::FetchCollections { database } => assert_eq!(database, "mydb"),
        other => panic!("unexpected action {:?}", other),
    }
    match chosen.state {
        SessionState::AwaitingCollectionList { database } => assert_eq!(database, "mydb"),
        other => panic!("unexpected state {:?}", other),
    }
}

#[test]
fn collection_listing_uses_the_decimal_scheme_and_alias_1_picks_the_second() {
    let listed = step(
        SessionState::AwaitingCollectionList {
            database: "mydb".to_string(),
        },
        Event::CollectionList(strings(&["users", "orders"])),
    );
    assert_eq!(listed.output, strings(&["0:\tusers", "1:\torders", ""]));
    assert!(matches!(listed.action, Action::PromptAlias));

    let chosen = step(listed.state, Event::Alias("1".to_string()));
    assert!(chosen.output.is_empty());
    match chosen.action {
        Action::FetchDocuments {
            database,
            collection,
        } => {
            assert_eq!(database, "mydb");
            assert_eq!(collection, "orders");
        }
        other => panic!("unexpected action {:?}", other),
    }
}

#[test]
fn an_empty_collection_prints_nothing_and_finishes_well() {
    let done = step(
        SessionState::AwaitingDocumentBrowse {
            database: "mydb".to_string(),
            collection: "empty".to_string(),
        },
        Event::CursorExhausted,
    );
    assert!(done.output.is_empty());
    assert!(matches!(done.state, SessionState::Done));
    assert!(matches!(done.action, Action::Finish));
}

#[test]
fn each_document_is_printed_and_the_next_one_asked_for() {
    let browsing = SessionState::AwaitingDocumentBrowse {
        database: "mydb".to_string(),
        collection: "users".to_string(),
    };
    let shown = step(browsing, Event::Document("{ \"name\": \"ada\" }".to_string()));
    assert_eq!(shown.output, strings(&["{ \"name\": \"ada\" }"]));
    assert!(matches!(shown.action, Action::NextDocument));
    assert!(matches!(
        shown.state,
        SessionState::AwaitingDocumentBrowse { .. }
    ));
}

#[test]
fn an_alias_beyond_the_listed_items_aborts_with_a_range_error() {
    let listed = step(
        SessionState::AwaitingCollectionList {
            database: "mydb".to_string(),
        },
        Event::CollectionList(strings(&["users", "orders"])),
    );
    let aborted = step(listed.state, Event::Alias("9".to_string()));
    assert!(aborted.output.is_empty());
    assert!(matches!(aborted.state, SessionState::Done));
    match aborted.action {
        Action::Abort { error } => assert_eq!(error, SessionError::AliasRangeError),
        other => panic!("unexpected action {:?}", other),
    }
}

#[test]
fn an_unparsable_alias_aborts_with_a_parse_error() {
    let listed = step(
        SessionState::AwaitingDatabaseList,
        Event::DatabaseList(strings(&["admin", "mydb"])),
    );
    let aborted = step(listed.state, Event::Alias("7".to_string()));
    assert!(matches!(aborted.state, SessionState::Done));
    match aborted.action {
        Action::Abort { error } => assert_eq!(error, SessionError::AliasParseError),
        other => panic!("unexpected action {:?}", other),
    }
}

#[test]
fn a_failed_listing_aborts_with_a_retrieval_error() {
    let aborted = step(SessionState::AwaitingDatabaseList, Event::RetrievalFailed);
    assert!(aborted.output.is_empty());
    assert!(matches!(aborted.state, SessionState::Done));
    match aborted.action {
        Action::Abort { error } => assert_eq!(error, SessionError::RetrievalError),
        other => panic!("unexpected action {:?}", other),
    }
}

#[test]
fn a_failed_cursor_aborts_with_a_retrieval_error() {
    let aborted = step(
        SessionState::AwaitingDocumentBrowse {
            database: "mydb".to_string(),
            collection: "users".to_string(),
        },
        Event::RetrievalFailed,
    );
    assert!(matches!(aborted.state, SessionState::Done));
    match aborted.action {
        Action::Abort { error } => assert_eq!(error, SessionError::RetrievalError),
        other => panic!("unexpected action {:?}", other),
    }
}

#[test]
fn each_error_describes_itself() {
    assert_eq!(
        SessionError::ConnectionError.describe(),
        "could not connect to the server"
    );
    assert_eq!(
        SessionError::RetrievalError.describe(),
        "could not retrieve results from the server"
    );
    assert_eq!(
        SessionError::AliasParseError.describe(),
        "the alias does not match the expected encoding"
    );
    assert_eq!(
        SessionError::AliasRangeError.describe(),
        "the alias is out of range for the listed items"
    );
}

#[test]
fn the_prompt_asks_for_an_alias() {
    assert_eq!(prompt_text(), "Enter an alias: ");
}

#[test]
fn the_connection_url_is_assembled_from_location_and_port() {
    assert_eq!(
        make_url(27017, "localhost".to_string()),
        "mongodb://localhost:27017"
    );
    assert_eq!(
        make_url(80, "example.com".to_string()),
        "mongodb://example.com:80"
    );
}
