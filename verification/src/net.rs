//! The line protocol, one step at a time.
//!
//! A session never touches a socket or the store. It is handed what was read
//! or what the store answered, and says what to write and what to do next;
//! whoever owns the connection carries that out and comes back with the
//! outcome.

use crate::data::{
    after_create, create_result, fetched_view, get_result, new_row, plain_text, resource_of,
    Resource, ResourceView, StorageError, Table,
};
use crate::text::{decode_lossy, same, text_of, to_chars, trim_text, trimmed, uppercased};
use crate::uid::{is_uid, new_uid};
use vstd::prelude::*;
use vstd::string::*;
use vstd::utf8::*;

verus! {

/// What a client may ask for.
#[derive(Debug, Clone, Copy, PartialEq, Eq, Structural)]
pub enum Command {
    Get,
    Post,
    Exit,
    Unknown,
}

/// Where a session stands.
#[derive(Debug, PartialEq, Eq)]
pub enum Session {
    /// The mode prompt is out; a command is awaited.
    Idle,
    /// `GET` was chosen; the identifier is awaited.
    AwaitingUid,
    /// `POST` was chosen; the text is awaited.
    AwaitingContent,
    /// The store has been asked for `uid`.
    Fetching { uid: String },
    /// The store has been asked to file `content` under `uid`; `retried`
    /// says whether this is the second attempt.
    Saving { uid: String, content: String, retried: bool },
    /// The session is over.
    Closed,
}

/// What happened since the last step.
#[derive(Debug, PartialEq, Eq)]
pub enum Event {
    /// The bytes of one read; none at all means the peer has gone.
    Received(Vec<u8>),
    /// The store's answer to a `Fetch`.
    Fetched(Result<Option<Resource>, StorageError>),
    /// The store's answer to a `Save`.
    Saved(Result<(), StorageError>),
}

/// What is to be done after the reply and the prompt have been written.
#[derive(Debug, PartialEq, Eq)]
pub enum Request {
    /// Read once from the connection.
    Read,
    /// Read the text filed under `uid`.
    Fetch { uid: String },
    /// File `content` under `uid`.
    Save { uid: String, content: String },
    /// Close the connection.
    Close,
}

/// The outcome of a step: what to write, then what to do.
#[derive(Debug, PartialEq, Eq)]
pub struct Step {
    /// The answer to what just happened; may be empty.
    pub reply: String,
    /// What invites the next input; may be empty.
    pub prompt: String,
    pub request: Request,
}

/// The model of a [`Session`].
pub enum SessionView {
    Idle,
    AwaitingUid,
    AwaitingContent,
    Fetching { uid: Seq<char> },
    Saving { uid: Seq<char>, content: Seq<char>, retried: bool },
    Closed,
}

/// The model of an [`Event`].
pub enum EventView {
    Received(Seq<u8>),
    Fetched(Result<Option<ResourceView>, StorageError>),
    Saved(Result<(), StorageError>),
}

/// The model of a [`Request`].
pub enum RequestView {
    Read,
    Fetch { uid: Seq<char> },
    Save { uid: Seq<char>, content: Seq<char> },
    Close,
}

/// The model of a [`Step`].
pub struct StepView {
    pub reply: Seq<char>,
    pub prompt: Seq<char>,
    pub request: RequestView,
}

impl View for Session {
    type V = SessionView;

    open spec fn view(&self) -> SessionView {
        match self {
            Session::Idle => SessionView::Idle,
            Session::AwaitingUid => SessionView::AwaitingUid,
            Session::AwaitingContent => SessionView::AwaitingContent,
            Session::Fetching { uid } => SessionView::Fetching { uid: uid@ },
            Session::Saving { uid, content, retried } => SessionView::Saving {
                uid: uid@,
                content: content@,
                retried: *retried,
            },
            Session::Closed => SessionView::Closed,
        }
    }
}

impl View for Event {
    type V = EventView;

    open spec fn view(&self) -> EventView {
        match self {
            Event::Received(bytes) => EventView::Received(bytes@),
            Event::Fetched(fetched) => EventView::Fetched(fetched_view(*fetched)),
            Event::Saved(saved) => EventView::Saved(*saved),
        }
    }
}

impl View for Request {
    type V = RequestView;

    open spec fn view(&self) -> RequestView {
        match self {
            Request::Read => RequestView::Read,
            Request::Fetch { uid } => RequestView::Fetch { uid: uid@ },
            Request::Save { uid, content } => RequestView::Save { uid: uid@, content: content@ },
            Request::Close => RequestView::Close,
        }
    }
}

impl View for Step {
    type V = StepView;

    open spec fn view(&self) -> StepView {
        StepView { reply: self.reply@, prompt: self.prompt@, request: self.request@ }
    }
}

/// The command that a token stands for; only the three words in capitals
/// are commands.
pub open spec fn command_of(token: Seq<char>) -> Command {
    if token == "GET"@ {
        Command::Get
    } else if token == "POST"@ {
        Command::Post
    } else if token == "EXIT"@ {
        Command::Exit
    } else {
        Command::Unknown
    }
}

/// The command in a line as it was read: decoded, put in upper case, then
/// trimmed.
pub open spec fn command_in(line: Seq<u8>) -> Command {
    command_of(trimmed(uppercased(text_of(line))))
}

/// The argument in a line as it was read: decoded and trimmed.
pub open spec fn argument_in(line: Seq<u8>) -> Seq<char> {
    trimmed(text_of(line))
}

/// The prompt that opens every exchange.
pub open spec fn mode_prompt() -> Seq<char> {
    "Choose mode: GET | POST:\t"@
}

/// A step that ends the session without a word.
pub open spec fn hang_up() -> (SessionView, StepView) {
    (
        SessionView::Closed,
        StepView { reply: Seq::empty(), prompt: Seq::empty(), request: RequestView::Close },
    )
}

/// A step that answers with `reply` and goes back to the mode prompt.
pub open spec fn answer(reply: Seq<char>) -> (SessionView, StepView) {
    (SessionView::Idle, StepView { reply, prompt: mode_prompt(), request: RequestView::Read })
}

/// A step that writes nothing and puts `request` to the store.
pub open spec fn ask(session: SessionView, request: RequestView) -> (SessionView, StepView) {
    (session, StepView { reply: Seq::empty(), prompt: Seq::empty(), request })
}

/// The first step of a session: the mode prompt, then a read.
pub open spec fn opening() -> (SessionView, StepView) {
    answer(Seq::empty())
}

/// What an idle session makes of a line.
pub open spec fn on_command(line: Seq<u8>) -> (SessionView, StepView) {
    match command_in(line) {
        Command::Get => (
            SessionView::AwaitingUid,
            StepView {
                reply: "Processing your GET request...\n"@,
                prompt: "Enter resource's UID: "@,
                request: RequestView::Read,
            },
        ),
        Command::Post => (
            SessionView::AwaitingContent,
            StepView {
                reply: "Processing your POST request...\n"@,
                prompt: "Enter text to be saved: "@,
                request: RequestView::Read,
            },
        ),
        Command::Exit => (
            SessionView::Closed,
            StepView {
                reply: "Exiting...\n"@,
                prompt: Seq::empty(),
                request: RequestView::Close,
            },
        ),
        Command::Unknown => answer("Unavailable command!\n"@),
    }
}

/// The reply to a read that found `resource`.
pub open spec fn found_reply(resource: ResourceView) -> Seq<char> {
    "\nID: "@ + resource.uid + "\nContent: "@ + resource.content + "\n"@
}

/// The reply to a read that found nothing under `uid`.
pub open spec fn missing_reply(uid: Seq<char>) -> Seq<char> {
    "\nNo data associated with ID: "@ + uid
}

/// The reply to a text filed under `uid`.
pub open spec fn saved_reply(uid: Seq<char>) -> Seq<char> {
    "\nResource saved successfully with ID: "@ + uid
}

/// The steps of a `GET` exchange. The identifier is read, the store is
/// asked, and each of its three answers has its own reply; the session is
/// idle again afterwards, also after a failure of the store.
pub open spec fn get_step(session: SessionView, event: EventView) -> (SessionView, StepView) {
    match (session, event) {
        (SessionView::AwaitingUid, EventView::Received(line)) => if line.len() == 0 {
            hang_up()
        } else {
            ask(
                SessionView::Fetching { uid: argument_in(line) },
                RequestView::Fetch { uid: argument_in(line) },
            )
        },
        (SessionView::Fetching { uid }, EventView::Fetched(Ok(Some(resource)))) => answer(
            found_reply(resource),
        ),
        (SessionView::Fetching { uid }, EventView::Fetched(Ok(None))) => answer(
            missing_reply(uid),
        ),
        (SessionView::Fetching { uid }, EventView::Fetched(Err(_))) => answer(
            "\nCould not retrieve data.\n"@,
        ),
        _ => hang_up(),
    }
}

/// Whether the step draws a new identifier: when the text arrives, and when
/// the first attempt to file it met a taken identifier.
pub open spec fn draws_uid(session: SessionView, event: EventView) -> bool {
    match (session, event) {
        (SessionView::AwaitingContent, EventView::Received(line)) => line.len() > 0,
        (
            SessionView::Saving { uid, content, retried },
            EventView::Saved(Err(StorageError::DuplicateKey)),
        ) => !retried,
        _ => false,
    }
}

/// The steps of a `POST` exchange, where `fresh` is the identifier drawn if
/// the step draws one. The text is filed under a new identifier; if that one
/// is taken, a second one is tried, once; any other failure, and a failure
/// of the second attempt, is final.
pub open spec fn post_step(session: SessionView, event: EventView, fresh: Seq<char>) -> (
    SessionView,
    StepView,
) {
    match (session, event) {
        (SessionView::AwaitingContent, EventView::Received(line)) => if line.len() == 0 {
            hang_up()
        } else {
            ask(
                SessionView::Saving { uid: fresh, content: argument_in(line), retried: false },
                RequestView::Save { uid: fresh, content: argument_in(line) },
            )
        },
        (SessionView::Saving { uid, content, retried }, EventView::Saved(Ok(()))) => answer(
            saved_reply(uid),
        ),
        (
            SessionView::Saving { uid, content, retried },
            EventView::Saved(Err(StorageError::DuplicateKey)),
        ) => if retried {
            answer("Failed to save resource.\n"@)
        } else {
            ask(
                SessionView::Saving { uid: fresh, content, retried: true },
                RequestView::Save { uid: fresh, content },
            )
        },
        (
            SessionView::Saving { uid, content, retried },
            EventView::Saved(Err(StorageError::StorageUnavailable)),
        ) => answer("Failed to save resource.\n"@),
        _ => hang_up(),
    }
}

/// One step of a session, where `fresh` is the identifier drawn if the step
/// draws one. An empty read ends the session wherever it stands, and so
/// does an event that the session was not waiting for.
pub open spec fn client_step(session: SessionView, event: EventView, fresh: Seq<char>) -> (
    SessionView,
    StepView,
) {
    match session {
        SessionView::Idle => match event {
            EventView::Received(line) => if line.len() == 0 {
                hang_up()
            } else {
                on_command(line)
            },
            _ => hang_up(),
        },
        SessionView::AwaitingUid | SessionView::Fetching { .. } => get_step(session, event),
        SessionView::AwaitingContent | SessionView::Saving { .. } => post_step(
            session,
            event,
            fresh,
        ),
        SessionView::Closed => hang_up(),
    }
}

/// Nothing is read before something has been written: every step that asks
/// for a read carries a prompt.
pub proof fn law_reads_follow_writes(session: SessionView, event: EventView, fresh: Seq<char>)
    ensures
        client_step(session, event, fresh).1.request is Read ==> client_step(
            session,
            event,
            fresh,
        ).1.prompt.len() > 0,
{
    reveal_strlit("Enter resource's UID: ");
    reveal_strlit("Enter text to be saved: ");
    reveal_strlit("Choose mode: GET | POST:\t");
}

/// An empty read ends the session wherever it stands.
pub proof fn law_empty_read_ends_session(session: SessionView, fresh: Seq<char>)
    ensures
        client_step(session, EventView::Received(Seq::empty()), fresh) == hang_up(),
{
}

/// A closed session stays closed.
pub proof fn law_closed_is_final(event: EventView, fresh: Seq<char>)
    ensures
        client_step(SessionView::Closed, event, fresh) == hang_up(),
{
}

/// An idle session that reads a line closes exactly when the line is the
/// command `EXIT`; after any other line it is still open and has asked for
/// the next read.
pub proof fn law_only_exit_closes(line: Seq<u8>, fresh: Seq<char>)
    requires
        line.len() > 0,
    ensures
        ({
            let (next, step) = client_step(SessionView::Idle, EventView::Received(line), fresh);
            &&& next is Closed <==> command_in(line) == Command::Exit
            &&& next !is Closed ==> step.request is Read && step.prompt.len() > 0
            &&& command_in(line) == Command::Unknown ==> next is Idle && step.reply
                == "Unavailable command!\n"@ && step.prompt == mode_prompt()
            &&& command_in(line) == Command::Exit ==> step.reply == "Exiting...\n"@
                && step.request is Close
        }),
{
    reveal_strlit("Enter resource's UID: ");
    reveal_strlit("Enter text to be saved: ");
    reveal_strlit("Choose mode: GET | POST:\t");
}

/// Whatever the store answers, a session that was waiting for it is idle
/// afterwards, with one exception: a first attempt to file a text that met a
/// taken identifier is followed by a second attempt.
pub proof fn law_answers_lead_to_idle(
    uid: Seq<char>,
    content: Seq<char>,
    fetched: Result<Option<ResourceView>, StorageError>,
    saved: Result<(), StorageError>,
    fresh: Seq<char>,
)
    ensures
        client_step(SessionView::Fetching { uid }, EventView::Fetched(fetched), fresh).0 is Idle,
        client_step(
            SessionView::Saving { uid, content, retried: true },
            EventView::Saved(saved),
            fresh,
        ).0 is Idle,
        saved != Err::<(), StorageError>(StorageError::DuplicateKey) ==> client_step(
            SessionView::Saving { uid, content, retried: false },
            EventView::Saved(saved),
            fresh,
        ).0 is Idle,
{
}

/// When the identifier drawn for a text is taken, the store reports
/// `DuplicateKey` and keeps its table; the session then asks once more under
/// a new identifier, and if that one is free the text is filed and the
/// client is told the identifier it was filed under.
pub proof fn law_collision_is_retried_once(
    table: Table,
    content: Seq<char>,
    taken: Seq<char>,
    fresh: Seq<char>,
    later: Seq<char>,
    now: int,
)
    requires
        table.dom().contains(taken),
        !table.dom().contains(fresh),
    ensures
        create_result(table, taken) == Err::<(), StorageError>(StorageError::DuplicateKey),
        after_create(table, new_row(taken, encode_utf8(content), plain_text(), now)) == table,
        post_step(
            SessionView::Saving { uid: taken, content, retried: false },
            EventView::Saved(create_result(table, taken)),
            fresh,
        ) == ask(
            SessionView::Saving { uid: fresh, content, retried: true },
            RequestView::Save { uid: fresh, content },
        ),
        post_step(
            SessionView::Saving { uid: fresh, content, retried: true },
            EventView::Saved(create_result(table, fresh)),
            later,
        ) == answer(saved_reply(fresh)),
{
}

/// When the second identifier is taken as well, the client is told that the
/// text was not saved, no third attempt is made, and the table is as it was.
pub proof fn law_second_collision_is_final(
    table: Table,
    content: Seq<char>,
    taken: Seq<char>,
    fresh: Seq<char>,
    later: Seq<char>,
    now: int,
)
    requires
        table.dom().contains(taken),
        table.dom().contains(fresh),
    ensures
        post_step(
            SessionView::Saving { uid: fresh, content, retried: true },
            EventView::Saved(create_result(table, fresh)),
            later,
        ) == answer("Failed to save resource.\n"@),
        after_create(
            after_create(table, new_row(taken, encode_utf8(content), plain_text(), now)),
            new_row(fresh, encode_utf8(content), plain_text(), now),
        ) == table,
{
}

/// A text that was filed is what a later `GET` of its identifier shows:
/// the reply holds the identifier and the text as it was typed.
pub proof fn law_saved_text_is_shown(table: Table, uid: Seq<char>, content: Seq<char>, now: int)
    requires
        !table.dom().contains(uid),
    ensures
        ({
            let filed = after_create(table, new_row(uid, encode_utf8(content), plain_text(), now));
            get_step(
                SessionView::Fetching { uid },
                EventView::Fetched(Ok(resource_of(get_result(filed, uid)))),
            ) == answer(found_reply(ResourceView { uid, content }))
        }),
{
    encode_utf8_valid_utf8(content);
    encode_utf8_decode_utf8(content);
}

/// A `GET` of an identifier that is not in the table is answered with the
/// identifier that was asked for; it is not an error.
pub proof fn law_unknown_uid_is_reported(table: Table, uid: Seq<char>)
    requires
        !table.dom().contains(uid),
    ensures
        get_step(
            SessionView::Fetching { uid },
            EventView::Fetched(Ok(resource_of(get_result(table, uid)))),
        ) == answer(missing_reply(uid)),
{
}

fn closing() -> (r: (Session, Step))
    ensures
        (r.0@, r.1@) == hang_up(),
{
    (Session::Closed, Step { reply: String::new(), prompt: String::new(), request: Request::Close })
}

fn answering(reply: String) -> (r: (Session, Step))
    ensures
        (r.0@, r.1@) == answer(reply@),
{
    (
        Session::Idle,
        Step { reply, prompt: "Choose mode: GET | POST:\t".to_owned(), request: Request::Read },
    )
}

fn asking(session: Session, request: Request) -> (r: (Session, Step))
    ensures
        (r.0@, r.1@) == ask(session@, request@),
{
    (session, Step { reply: String::new(), prompt: String::new(), request })
}

/// Starts a session: the mode prompt goes out and a command is awaited.
pub fn open_session() -> (r: (Session, Step))
    ensures
        (r.0@, r.1@) == opening(),
{
    answering(String::new())
}

/// The command that `token` stands for.
pub fn command_of_token(token: &str) -> (command: Command)
    ensures
        command == command_of(token@),
{
    let t = to_chars(token);
    let get = to_chars("GET");
    let post = to_chars("POST");
    let exit = to_chars("EXIT");
    if same(t.as_slice(), get.as_slice()) {
        Command::Get
    } else if same(t.as_slice(), post.as_slice()) {
        Command::Post
    } else if same(t.as_slice(), exit.as_slice()) {
        Command::Exit
    } else {
        Command::Unknown
    }
}

/// Reads a line as a command.
pub fn parse_command(line: &[u8]) -> (command: Command)
    ensures
        command == command_in(line@),
{
    let text = decode_lossy(line);
    let upper = text.as_str().to_uppercase();
    let token = trim_text(upper.as_str());
    command_of_token(token.as_str())
}

/// Reads a line as an argument: an identifier or a text.
pub fn parse_argument(line: &[u8]) -> (argument: String)
    ensures
        argument@ == argument_in(line@),
{
    let text = decode_lossy(line);
    trim_text(text.as_str())
}

/// One step of a `GET` exchange.
pub fn process_get(session: Session, event: Event) -> (r: (Session, Step))
    ensures
        (r.0@, r.1@) == get_step(session@, event@),
{
    match session {
        Session::AwaitingUid => match event {
            Event::Received(line) => {
                if line.len() == 0 {
                    closing()
                } else {
                    let uid = parse_argument(line.as_slice());
                    let asked = uid.clone();
                    asking(Session::Fetching { uid }, Request::Fetch { uid: asked })
                }
            },
            _ => closing(),
        },
        Session::Fetching { uid } => match event {
            Event::Fetched(Ok(Some(resource))) => {
                let mut reply = "\nID: ".to_owned();
                reply.append(resource.uid.as_str());
                reply.append("\nContent: ");
                reply.append(resource.content.as_str());
                reply.append("\n");
                answering(reply)
            },
            Event::Fetched(Ok(None)) => {
                let mut reply = "\nNo data associated with ID: ".to_owned();
                reply.append(uid.as_str());
                answering(reply)
            },
            Event::Fetched(Err(_)) => answering("\nCould not retrieve data.\n".to_owned()),
            _ => closing(),
        },
        _ => closing(),
    }
}

/// One step of a `POST` exchange in which `fresh` is used wherever the step
/// draws an identifier.
pub fn process_post_with(session: Session, event: Event, fresh: String) -> (r: (Session, Step))
    ensures
        (r.0@, r.1@) == post_step(session@, event@, fresh@),
{
    match session {
        Session::AwaitingContent => match event {
            Event::Received(line) => {
                if line.len() == 0 {
                    closing()
                } else {
                    let content = parse_argument(line.as_slice());
                    let sent = content.clone();
                    let uid = fresh.clone();
                    asking(
                        Session::Saving { uid, content, retried: false },
                        Request::Save { uid: fresh, content: sent },
                    )
                }
            },
            _ => closing(),
        },
        Session::Saving { uid, content, retried } => match event {
            Event::Saved(Ok(())) => {
                let mut reply = "\nResource saved successfully with ID: ".to_owned();
                reply.append(uid.as_str());
                answering(reply)
            },
            Event::Saved(Err(StorageError::DuplicateKey)) => {
                if retried {
                    answering("Failed to save resource.\n".to_owned())
                } else {
                    let sent = content.clone();
                    let uid = fresh.clone();
                    asking(
                        Session::Saving { uid, content, retried: true },
                        Request::Save { uid: fresh, content: sent },
                    )
                }
            },
            Event::Saved(Err(StorageError::StorageUnavailable)) => answering(
                "Failed to save resource.\n".to_owned(),
            ),
            _ => closing(),
        },
        _ => closing(),
    }
}

/// Whether the step draws a new identifier.
pub fn needs_uid(session: &Session, event: &Event) -> (needed: bool)
    ensures
        needed == draws_uid(session@, event@),
{
    match session {
        Session::AwaitingContent => match event {
            Event::Received(line) => line.len() > 0,
            _ => false,
        },
        Session::Saving { uid: _, content: _, retried } => match event {
            Event::Saved(Err(StorageError::DuplicateKey)) => !*retried,
            _ => false,
        },
        _ => false,
    }
}

/// One step of a `POST` exchange. Where the step draws an identifier it is
/// a new random one; everything else is as [`post_step`] says.
pub fn process_post(session: Session, event: Event) -> (r: (Session, Step))
    ensures
        exists|fresh: Seq<char>|
            (draws_uid(session@, event@) ==> is_uid(fresh)) && (r.0@, r.1@) == #[trigger] post_step(
                session@,
                event@,
                fresh,
            ),
{
    let fresh = if needs_uid(&session, &event) {
        new_uid()
    } else {
        String::new()
    };
    process_post_with(session, event, fresh)
}

/// One step of a session.
///
/// The session is handed what was read or what the store answered. An idle
/// session takes a line as a command; a session in the middle of an exchange
/// goes on with it.
pub fn handle_client(session: Session, event: Event) -> (r: (Session, Step))
    ensures
        exists|fresh: Seq<char>|
            (draws_uid(session@, event@) ==> is_uid(fresh)) && (r.0@, r.1@)
                == #[trigger] client_step(session@, event@, fresh),
{
    match session {
        Session::Idle => {
            let r = match event {
                Event::Received(line) => {
                    if line.len() == 0 {
                        closing()
                    } else {
                        match parse_command(line.as_slice()) {
                            Command::Get => (
                                Session::AwaitingUid,
                                Step {
                                    reply: "Processing your GET request...\n".to_owned(),
                                    prompt: "Enter resource's UID: ".to_owned(),
                                    request: Request::Read,
                                },
                            ),
                            Command::Post => (
                                Session::AwaitingContent,
                                Step {
                                    reply: "Processing your POST request...\n".to_owned(),
                                    prompt: "Enter text to be saved: ".to_owned(),
                                    request: Request::Read,
                                },
                            ),
                            Command::Exit => (
                                Session::Closed,
                                Step {
                                    reply: "Exiting...\n".to_owned(),
                                    prompt: String::new(),
                                    request: Request::Close,
                                },
                            ),
                            Command::Unknown => answering("Unavailable command!\n".to_owned()),
                        }
                    }
                },
                _ => closing(),
            };
            assert((r.0@, r.1@) == client_step(session@, event@, Seq::empty()));
            r
        },
        Session::AwaitingUid | Session::Fetching { .. } => {
            let r = process_get(session, event);
            assert((r.0@, r.1@) == client_step(session@, event@, Seq::empty()));
            r
        },
        Session::AwaitingContent | Session::Saving { .. } => {
            let r = process_post(session, event);
            proof {
                let fresh = choose|fresh: Seq<char>|
                    (draws_uid(session@, event@) ==> is_uid(fresh)) && (r.0@, r.1@)
                        == #[trigger] post_step(session@, event@, fresh);
                assert((r.0@, r.1@) == client_step(session@, event@, fresh));
            }
            r
        },
        Session::Closed => {
            let r = closing();
            assert((r.0@, r.1@) == client_step(session@, event@, Seq::empty()));
            r
        },
    }
}

} // verus!
