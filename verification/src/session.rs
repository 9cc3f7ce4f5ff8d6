//! The session workflow: a finite state machine for the three-step
//! drill-down (databases, then the chosen database's collections, then the
//! chosen collection's documents). Each transition takes the current state
//! and one event from the environment, and yields the lines to print, the
//! next state, and the next thing the environment must do. The caller
//! performs the prompts, the reads and the database calls, and feeds the
//! outcome back in as the next event.

use vstd::prelude::*;
use vstd::string::StringExecFns;
use crate::alias::{resolve_decimal, resolve_decimal_spec, resolve_letter, resolve_letter_spec};
use crate::error::SessionError;
use crate::format::{decimal_lines, enumerate_print, letter_lines, letter_print};

verus! {

/// Where the drill-down stands. Each state owns exactly the data the next
/// transition needs.
#[derive(Debug)]
pub enum SessionState {
    /// The database listing has been requested and has not arrived yet.
    AwaitingDatabaseList,
    /// The databases were listed; the next typed alias chooses one.
    AwaitingDatabaseChoice { databases: Vec<String> },
    /// A database was chosen; its collection listing is on its way.
    AwaitingCollectionList { database: String },
    /// The collections were listed; the next typed alias chooses one.
    AwaitingCollectionChoice { database: String, collections: Vec<String> },
    /// A collection was chosen; its documents arrive one at a time.
    AwaitingDocumentBrowse { database: String, collection: String },
    /// The session is over, well or badly.
    Done,
}

/// What the environment reports back to the state machine.
#[derive(Debug)]
pub enum Event {
    /// The names of the server's databases, in the server's order.
    DatabaseList(Vec<String>),
    /// The names of the chosen database's collections, in the server's
    /// order.
    CollectionList(Vec<String>),
    /// One line typed at the alias prompt, trailing newline stripped.
    Alias(String),
    /// One document from the open cursor, rendered as text.
    Document(String),
    /// The open cursor has no further documents.
    CursorExhausted,
    /// A listing call or the cursor failed at the server side.
    RetrievalFailed,
}

/// What the environment must do after a transition.
#[derive(Debug)]
pub enum Action {
    /// Ask the server for its database names.
    FetchDatabases,
    /// Print the alias prompt and read one line.
    PromptAlias,
    /// Ask the server for the collection names of `database`.
    FetchCollections { database: String },
    /// Open a full-scan cursor over `collection` within `database`.
    FetchDocuments { database: String, collection: String },
    /// Pull the next document from the open cursor.
    NextDocument,
    /// The session finished; exit reporting success.
    Finish,
    /// The session failed; report `error` and exit reporting failure.
    Abort { error: SessionError },
}

/// One transition's outcome: the lines to print (in order, one per line),
/// the state the session moves to, and the next action owed.
#[derive(Debug)]
pub struct StepResult {
    pub output: Vec<String>,
    pub state: SessionState,
    pub action: Action,
}

/// The event kinds each state is prepared for. Database listings are only
/// accepted up to six names: the letter scheme they are rendered under
/// stops at the last hexadecimal digit, and a longer listing is undefined.
pub open spec fn state_accepts(state: SessionState, event: Event) -> bool {
    match (state, event) {
        (SessionState::AwaitingDatabaseList, Event::DatabaseList(names)) => names@.len() <= 6,
        (SessionState::AwaitingDatabaseList, Event::RetrievalFailed) => true,
        (SessionState::AwaitingDatabaseChoice { .. }, Event::Alias(_)) => true,
        (SessionState::AwaitingCollectionList { .. }, Event::CollectionList(_)) => true,
        (SessionState::AwaitingCollectionList { .. }, Event::RetrievalFailed) => true,
        (SessionState::AwaitingCollectionChoice { .. }, Event::Alias(_)) => true,
        (SessionState::AwaitingDocumentBrowse { .. }, Event::Document(_)) => true,
        (SessionState::AwaitingDocumentBrowse { .. }, Event::CursorExhausted) => true,
        (SessionState::AwaitingDocumentBrowse { .. }, Event::RetrievalFailed) => true,
        _ => false,
    }
}

/// Everything a transition does, pinned down per state and event: which
/// lines come out, which state comes next, and which action is owed.
pub open spec fn step_post(state: SessionState, event: Event, r: StepResult) -> bool {
    match (state, event) {
        (SessionState::AwaitingDatabaseList, Event::DatabaseList(names)) => {
            &&& r.output.deep_view() == letter_lines(names.deep_view()).push(Seq::<char>::empty())
            &&& r.state matches SessionState::AwaitingDatabaseChoice { databases }
                && databases.deep_view() == names.deep_view()
            &&& r.action is PromptAlias
        },
        (SessionState::AwaitingDatabaseChoice { databases }, Event::Alias(tok)) => match resolve_letter_spec(
            tok@,
            databases@.len() as nat,
        ) {
            Ok(i) => {
                &&& r.output@.len() == 0
                &&& r.state matches SessionState::AwaitingCollectionList { database }
                    && database@ == databases@[i]@
                &&& r.action matches Action::FetchCollections { database }
                    && database@ == databases@[i]@
            },
            Err(e) => {
                &&& r.output@.len() == 0
                &&& r.state is Done
                &&& r.action matches Action::Abort { error } && error == e
            },
        },
        (SessionState::AwaitingCollectionList { database }, Event::CollectionList(names)) => {
            &&& r.output.deep_view() == decimal_lines(names.deep_view()).push(Seq::<char>::empty())
            &&& r.state matches SessionState::AwaitingCollectionChoice { database: db, collections }
                && db@ == database@ && collections.deep_view() == names.deep_view()
            &&& r.action is PromptAlias
        },
        (
            SessionState::AwaitingCollectionChoice { database, collections },
            Event::Alias(tok),
        ) => match resolve_decimal_spec(tok@, collections@.len() as nat) {
            Ok(i) => {
                &&& r.output@.len() == 0
                &&& r.state matches SessionState::AwaitingDocumentBrowse { database: db, collection }
                    && db@ == database@ && collection@ == collections@[i]@
                &&& r.action matches Action::FetchDocuments { database: db, collection }
                    && db@ == database@ && collection@ == collections@[i]@
            },
            Err(e) => {
                &&& r.output@.len() == 0
                &&& r.state is Done
                &&& r.action matches Action::Abort { error } && error == e
            },
        },
        (SessionState::AwaitingDocumentBrowse { database, collection }, Event::Document(text)) => {
            &&& r.output.deep_view() == seq![text@]
            &&& r.state matches SessionState::AwaitingDocumentBrowse { database: db, collection: c }
                && db@ == database@ && c@ == collection@
            &&& r.action is NextDocument
        },
        (SessionState::AwaitingDocumentBrowse { .. }, Event::CursorExhausted) => {
            &&& r.output@.len() == 0
            &&& r.state is Done
            &&& r.action is Finish
        },
        (_, Event::RetrievalFailed) => {
            &&& r.output@.len() == 0
            &&& r.state is Done
            &&& r.action matches Action::Abort { error } && error == SessionError::RetrievalError
        },
        _ => false,
    }
}

/// The text shown before each alias is read. The caller prints it without
/// a line break, so the alias is typed on the same line.
pub fn prompt_text() -> (r: String)
    ensures
        r@ == "Enter an alias: "@,
{
    String::from_str("Enter an alias: ")
}

/// The state a fresh session starts from, and the action that enters it:
/// nothing printed yet, the database listing owed.
pub fn initial() -> (r: StepResult)
    ensures
        r.output@.len() == 0,
        r.state is AwaitingDatabaseList,
        r.action is FetchDatabases,
{
    StepResult {
        output: Vec::new(),
        state: SessionState::AwaitingDatabaseList,
        action: Action::FetchDatabases,
    }
}

/// One transition of the drill-down. Listings are rendered with their alias
/// column (letter scheme for databases, decimal for collections) followed by
/// a blank separator line; aliases are resolved under the same scheme the
/// listing was rendered with; any resolution failure, retrieval failure or
/// exhausted cursor ends the session.
pub fn step(state: SessionState, event: Event) -> (r: StepResult)
    requires
        state_accepts(state, event),
    ensures
        step_post(state, event, r),
{
    match (state, event) {
        (SessionState::AwaitingDatabaseList, Event::DatabaseList(names)) => {
            let mut output = letter_print(&names);
            output.push(String::new());
            proof {
                assert(output.deep_view() =~= letter_lines(names.deep_view()).push(
                    Seq::<char>::empty(),
                ));
            }
            StepResult {
                output,
                state: SessionState::AwaitingDatabaseChoice { databases: names },
                action: Action::PromptAlias,
            }
        },
        (SessionState::AwaitingDatabaseChoice { databases }, Event::Alias(tok)) => {
            match resolve_letter(tok.as_str(), databases.len()) {
                Ok(i) => {
                    let database = databases[i].clone();
                    let target = database.clone();
                    StepResult {
                        output: Vec::new(),
                        state: SessionState::AwaitingCollectionList { database },
                        action: Action::FetchCollections { database: target },
                    }
                },
                Err(e) => StepResult {
                    output: Vec::new(),
                    state: SessionState::Done,
                    action: Action::Abort { error: e },
                },
            }
        },
        (SessionState::AwaitingCollectionList { database }, Event::CollectionList(names)) => {
            let mut output = enumerate_print(&names);
            output.push(String::new());
            proof {
                assert(output.deep_view() =~= decimal_lines(names.deep_view()).push(
                    Seq::<char>::empty(),
                ));
            }
            StepResult {
                output,
                state: SessionState::AwaitingCollectionChoice { database, collections: names },
                action: Action::PromptAlias,
            }
        },
        (SessionState::AwaitingCollectionChoice { database, collections }, Event::Alias(tok)) => {
            match resolve_decimal(tok.as_str(), collections.len()) {
                Ok(i) => {
                    let collection = collections[i].clone();
                    let target_collection = collection.clone();
                    let target_database = database.clone();
                    StepResult {
                        output: Vec::new(),
                        state: SessionState::AwaitingDocumentBrowse { database, collection },
                        action: Action::FetchDocuments {
                            database: target_database,
                            collection: target_collection,
                        },
                    }
                },
                Err(e) => StepResult {
                    output: Vec::new(),
                    state: SessionState::Done,
                    action: Action::Abort { error: e },
                },
            }
        },
        (SessionState::AwaitingDocumentBrowse { database, collection }, Event::Document(text)) => {
            let mut output: Vec<String> = Vec::new();
            output.push(text);
            proof {
                assert(output.deep_view() =~= seq![output@[0]@]);
            }
            StepResult {
                output,
                state: SessionState::AwaitingDocumentBrowse { database, collection },
                action: Action::NextDocument,
            }
        },
        (SessionState::AwaitingDocumentBrowse { .. }, Event::CursorExhausted) => StepResult {
            output: Vec::new(),
            state: SessionState::Done,
            action: Action::Finish,
        },
        (_, Event::RetrievalFailed) => StepResult {
            output: Vec::new(),
            state: SessionState::Done,
            action: Action::Abort { error: SessionError::RetrievalError },
        },
        _ => {
            // No other state and event pair is accepted, so this arm is
            // never reached.
            proof {
                assert(false);
            }
            StepResult {
                output: Vec::new(),
                state: SessionState::Done,
                action: Action::Finish,
            }
        },
    }
}

} // verus!
