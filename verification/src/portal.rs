//! The conversation with the desktop portal that opens a screen cast.
//!
//! Three requests are sent one after the other, each answered by a response that carries a code
//! and a dictionary of results. [`Handshake`] decides what to send next and what to make of each
//! answer; sending and receiving are the caller's.

use crate::text::{
    decimal, digit_char, digits, digits_read_back, digits_tell_numbers_apart, lower_hex, number_in,
    object_path, path_char, same_text,
};
use vstd::prelude::*;
use vstd::string::StringExecFns;

verus! {

/// A screen or window that the portal hands out.
#[derive(Debug, Clone, Copy, PartialEq, Eq)]
pub struct PortalStream {
    pub node_id: u32,
    pub pipewire_serial: Option<u64>,
}

/// A reading of the wall clock: whole seconds since the Unix epoch and the nanoseconds on top of
/// them, or nothing where the clock stands before the epoch.
pub type ClockReading = Option<(u64, u32)>;

/// The nanoseconds since the Unix epoch that `clock` shows.
pub open spec fn clock_nanos(clock: ClockReading) -> nat {
    match clock {
        Some((seconds, nanos)) => seconds as nat * 1_000_000_000 + nanos as nat,
        None => 0,
    }
}

/// Whether the part of `clock` below a second is less than a second.
pub open spec fn clock_reading(clock: ClockReading) -> bool {
    clock matches Some((_, nanos)) ==> nanos < 1_000_000_000
}

/// Reads the wall clock with `std::time::SystemTime::elapsed`, asked of the Unix epoch.
///
/// Claimed is only that the part below a second is less than a billion nanoseconds: what the
/// clock shows is not.
#[verifier::external_body]
fn since_epoch() -> (clock: ClockReading)
    ensures
        clock_reading(clock),
{
    match std::time::UNIX_EPOCH.elapsed() {
        Ok(elapsed) => Some((elapsed.as_secs(), elapsed.subsec_nanos())),
        Err(_) => None,
    }
}

/// The token for the moment that `clock` shows: its nanoseconds in hexadecimal.
pub fn id_at(clock: ClockReading) -> (r: String)
    ensures
        r@ == digits(clock_nanos(clock), 16),
{
    let nanos: u128 = match clock {
        Some((seconds, nanos)) => seconds as u128 * 1_000_000_000 + nanos as u128,
        None => 0,
    };
    lower_hex(nanos)
}

/// Whether the wall clock has been read and has shown `clock`.
pub closed spec fn clock_shown(clock: ClockReading) -> bool {
    call_ensures(since_epoch, (), clock)
}

/// What the clock has shown is nothing but an outcome of reading it. Like the reading itself, this is
/// for this module alone to speak of.
proof fn shown_time_has_been_read(clock: ClockReading)
    requires
        clock_shown(clock),
    ensures
        call_ensures(since_epoch, (), clock),
{
}

/// Reads the given clock, so that what comes of it is known to be what it shows.
fn read<F: Fn() -> ClockReading>(source: F) -> (r: ClockReading)
    requires
        call_requires(source, ()),
    ensures
        call_ensures(source, (), r),
{
    source()
}

/// A token made from the present time.
pub fn rand_id() -> (r: String)
    ensures
        exists|clock: ClockReading|
            clock_shown(clock) && clock_reading(clock) && r@ == #[trigger] digits(
                clock_nanos(clock),
                16,
            ),
{
    let clock = read(since_epoch);
    id_at(clock)
}

/// The part of a request path that stands for the connection with the given unique name: the name
/// without its leading colon, every dot turned into an underscore.
pub open spec fn sender_text(unique_name: Option<Seq<char>>) -> Seq<char> {
    let name = match unique_name {
        Some(name) => name,
        None => Seq::empty(),
    };
    let bare = if name.len() > 0 && name[0] == ':' {
        name.drop_first()
    } else {
        name
    };
    bare.map_values(
        |c: char|
            if c == '.' {
                '_'
            } else {
                c
            },
    )
}

/// The text of an optional string.
pub open spec fn opt_text(s: Option<&str>) -> Option<Seq<char>> {
    match s {
        Some(s) => Some(s@),
        None => None,
    }
}

/// The name under which the portal knows the connection with the given unique name.
pub fn get_sender_name(unique_name: Option<&str>) -> (r: String)
    ensures
        r@ == sender_text(opt_text(unique_name)),
{
    let name = match unique_name {
        Some(name) => name,
        None => "",
    };
    proof {
        reveal_strlit("");
        assert(""@ =~= Seq::<char>::empty());
    }
    let ghost bare = if name@.len() > 0 && name@[0] == ':' {
        name@.drop_first()
    } else {
        name@
    };
    let ghost skipped = name@.len() - bare.len();
    let mut r = String::new();
    let mut first = true;
    for c in iter: name.chars()
        invariant
            iter.seq() == name@,
            first == (iter.index() == 0),
            skipped == name@.len() - bare.len(),
            skipped == (if name@.len() > 0 && name@[0] == ':' {
                1int
            } else {
                0int
            }),
            bare == name@.skip(skipped),
            iter.index() > 0 ==> r@ =~= sender_text(Some(name@)).take(iter.index() - skipped),
            iter.index() == 0 ==> r@ =~= Seq::<char>::empty(),
    {
        if !(first && c == ':') {
            r.push(
                if c == '.' {
                    '_'
                } else {
                    c
                },
            );
        }
        first = false;
    }
    r
}

/// The requests of the screen cast portal, in the order in which they are made.
#[derive(Debug, Clone, Copy, PartialEq, Eq, Structural)]
pub enum PortalCall {
    CreateSession,
    SelectSources,
    Start,
}

impl PortalCall {
    /// The name of the method on the bus.
    pub open spec fn name(self) -> Seq<char> {
        match self {
            PortalCall::CreateSession => "CreateSession"@,
            PortalCall::SelectSources => "SelectSources"@,
            PortalCall::Start => "Start"@,
        }
    }

    /// The name of the method on the bus.
    pub fn member(self) -> (r: &'static str)
        ensures
            r@ == self.name(),
    {
        match self {
            PortalCall::CreateSession => "CreateSession",
            PortalCall::SelectSources => "SelectSources",
            PortalCall::Start => "Start",
        }
    }
}

/// What can go wrong in the conversation.
#[derive(Debug, Clone, Copy, PartialEq, Eq, Structural)]
pub enum PortalError {
    /// The bus closed the subscription before the request was answered.
    NoResponse(PortalCall),
    /// The request was answered with a code other than zero.
    Refused(PortalCall, u32),
    /// The answer to the first request names no session.
    MissingSessionHandle,
    /// The session is named by something that is neither a text nor an object path.
    SessionHandleType,
    /// The session is named by a text that is no object path.
    SessionHandlePath,
    /// The answer to the last request lists no streams.
    MissingStreams,
    /// The streams are not listed as node identifiers with their properties.
    StreamsType,
}

impl PortalError {
    /// The text of the error.
    pub open spec fn text(self) -> Seq<char> {
        match self {
            PortalError::NoResponse(call) => "No response for "@ + call.name(),
            PortalError::Refused(call, code) => call.name() + " failed with response code "@
                + digits(code as nat, 10),
            PortalError::MissingSessionHandle =>
                "Missing session_handle in CreateSession response"@,
            PortalError::SessionHandleType => "Failed to extract string from variant"@,
            PortalError::SessionHandlePath => "Invalid object path"@,
            PortalError::MissingStreams => "Missing streams in Start response"@,
            PortalError::StreamsType => "incorrect type"@,
        }
    }

    /// The text of the error.
    pub fn message(self) -> (r: String)
        ensures
            r@ == self.text(),
    {
        match self {
            PortalError::NoResponse(call) => {
                let mut r = String::from_str("No response for ");
                r.append(call.member());
                r
            },
            PortalError::Refused(call, code) => {
                let mut r = String::from_str(call.member());
                r.append(" failed with response code ");
                r.append(decimal(code as u64).as_str());
                r
            },
            PortalError::MissingSessionHandle => String::from_str(
                "Missing session_handle in CreateSession response",
            ),
            PortalError::SessionHandleType => String::from_str(
                "Failed to extract string from variant",
            ),
            PortalError::SessionHandlePath => String::from_str("Invalid object path"),
            PortalError::MissingStreams => String::from_str("Missing streams in Start response"),
            PortalError::StreamsType => String::from_str("incorrect type"),
        }
    }
}

/// A value in a dictionary of the portal, as far as the conversation looks into it. A value that
/// is wrapped in one more variant stands for the value inside.
#[derive(Debug)]
pub enum PortalScalar {
    Text(String),
    Path(String),
    Unsigned(u64),
    Other,
}

/// A stream as the portal lists it.
#[derive(Debug)]
pub struct StreamEntry {
    pub node_id: u32,
    pub props: Vec<(String, PortalScalar)>,
}

/// A result of a portal request.
#[derive(Debug)]
pub enum PortalValue {
    Scalar(PortalScalar),
    Streams(Vec<StreamEntry>),
}

/// The answer to a portal request.
#[derive(Debug)]
pub struct PortalResponse {
    pub code: u32,
    pub results: Vec<(String, PortalValue)>,
}

/// The value under `key`: that of the first entry with this key.
pub open spec fn value_of<V>(entries: Seq<(String, V)>, key: Seq<char>) -> Option<V>
    decreases entries.len(),
{
    if entries.len() == 0 {
        None
    } else if entries[0].0@ == key {
        Some(entries[0].1)
    } else {
        value_of(entries.drop_first(), key)
    }
}

/// The value under `key`, if there is one.
pub fn lookup<'a, V>(entries: &'a Vec<(String, V)>, key: &str) -> (r: Option<&'a V>)
    ensures
        match r {
            Some(value) => value_of(entries@, key@) == Some(*value),
            None => value_of(entries@, key@) is None,
        },
{
    let mut i: usize = 0;
    proof {
        assert(entries@.skip(0) =~= entries@);
    }
    while i < entries.len()
        invariant
            i <= entries@.len(),
            value_of(entries@, key@) == value_of(entries@.skip(i as int), key@),
        decreases entries@.len() - i,
    {
        proof {
            assert(entries@.skip(i as int).drop_first() =~= entries@.skip(i + 1));
        }
        if same_text(entries[i].0.as_str(), key) {
            return Some(&entries[i].1);
        }
        i = i + 1;
    }
    None
}

/// The text that `value` holds, be it a string or an object path.
pub open spec fn string_in(value: PortalValue) -> Option<Seq<char>> {
    match value {
        PortalValue::Scalar(PortalScalar::Text(s)) => Some(s@),
        PortalValue::Scalar(PortalScalar::Path(s)) => Some(s@),
        _ => None,
    }
}

/// The text that `val` holds, be it a string or an object path.
pub fn extract_string(val: &PortalValue) -> (r: Result<String, PortalError>)
    ensures
        match string_in(*val) {
            Some(text) => r matches Ok(s) && s@ == text,
            None => r == Err::<String, PortalError>(PortalError::SessionHandleType),
        },
{
    match val {
        PortalValue::Scalar(PortalScalar::Text(s)) => Ok(s.clone()),
        PortalValue::Scalar(PortalScalar::Path(s)) => Ok(s.clone()),
        _ => Err(PortalError::SessionHandleType),
    }
}

/// The serial number among the properties of a stream: an unsigned number of 64 bits under
/// `pipewire-serial`.
pub open spec fn serial_in(props: Seq<(String, PortalScalar)>) -> Option<u64> {
    match value_of(props, "pipewire-serial"@) {
        Some(PortalScalar::Unsigned(serial)) => Some(serial),
        _ => None,
    }
}

/// The streams that `entries` list.
pub open spec fn streams_in(entries: Seq<StreamEntry>) -> Seq<PortalStream> {
    entries.map_values(
        |entry: StreamEntry|
            (PortalStream {
                node_id: entry.node_id,
                pipewire_serial: serial_in(entry.props@),
            }),
    )
}

/// The streams that `entries` list.
pub fn collect_streams(entries: &Vec<StreamEntry>) -> (r: Vec<PortalStream>)
    ensures
        r@ == streams_in(entries@),
{
    let mut r: Vec<PortalStream> = Vec::new();
    let mut i: usize = 0;
    while i < entries.len()
        invariant
            i <= entries@.len(),
            r@ =~= streams_in(entries@).take(i as int),
        decreases entries@.len() - i,
    {
        let pipewire_serial = match lookup(&entries[i].props, "pipewire-serial") {
            Some(PortalScalar::Unsigned(serial)) => Some(*serial),
            _ => None,
        };
        r.push(PortalStream { node_id: entries[i].node_id, pipewire_serial });
        i = i + 1;
    }
    r
}

/// The error type of the bus library's values.
#[verifier::external_type_specification]
#[verifier::external_body]
pub struct ExVariantError(zbus::zvariant::Error);

/// Takes `path` for an object path with `zbus::zvariant::OwnedObjectPath::try_from`.
///
/// Claimed of it: it accepts the object paths, as [`object_path`] describes them, and no other
/// text, and it keeps the text.
#[verifier::external_body]
fn parse_object_path(path: String) -> (r: Result<String, zbus::zvariant::Error>)
    ensures
        r is Ok <==> object_path(path@),
        r matches Ok(kept) ==> kept@ == path@,
{
    match zbus::zvariant::OwnedObjectPath::try_from(path) {
        Ok(path) => Ok(path.as_str().to_owned()),
        Err(error) => Err(error),
    }
}

/// A value among the options of a request.
#[derive(Debug)]
pub enum OptionValue {
    Text(String),
    Number(u32),
    Flag(bool),
}

/// The contents of an [`OptionValue`].
pub enum OptionModel {
    Text(Seq<char>),
    Number(u32),
    Flag(bool),
}

impl View for OptionValue {
    type V = OptionModel;

    open spec fn view(&self) -> OptionModel {
        match self {
            OptionValue::Text(s) => OptionModel::Text(s@),
            OptionValue::Number(n) => OptionModel::Number(*n),
            OptionValue::Flag(b) => OptionModel::Flag(*b),
        }
    }
}

/// A request to be sent to the portal.
#[derive(Debug)]
pub struct PortalRequest {
    /// The method to call.
    pub call: PortalCall,
    /// The object on which the answer will be announced.
    pub path: String,
    /// The session that the request is about, the first argument where there is one.
    pub session_handle: Option<String>,
    /// The window that asks, the next argument where there is one.
    pub parent_window: Option<String>,
    /// The options, the last argument.
    pub options: Vec<(String, OptionValue)>,
}

/// The contents of a [`PortalRequest`].
pub struct RequestModel {
    pub call: PortalCall,
    pub path: Seq<char>,
    pub session_handle: Option<Seq<char>>,
    pub parent_window: Option<Seq<char>>,
    pub options: Seq<(Seq<char>, OptionModel)>,
}

/// The text of an optional string.
pub open spec fn opt_string(s: Option<String>) -> Option<Seq<char>> {
    match s {
        Some(s) => Some(s@),
        None => None,
    }
}

impl View for PortalRequest {
    type V = RequestModel;

    open spec fn view(&self) -> RequestModel {
        RequestModel {
            call: self.call,
            path: self.path@,
            session_handle: opt_string(self.session_handle),
            parent_window: opt_string(self.parent_window),
            options: self.options@.map_values(
                |option: (String, OptionValue)| (option.0@, option.1@),
            ),
        }
    }
}

/// The token of a request.
pub open spec fn request_token(id: Seq<char>) -> Seq<char> {
    "req_"@ + id
}

/// The object on which the answer to the request with the given token is announced.
pub open spec fn request_path(sender: Seq<char>, token: Seq<char>) -> Seq<char> {
    "/org/freedesktop/portal/desktop/request/"@ + sender + "/"@ + token
}

/// The request for a session, which takes its own token from `session_id`.
pub open spec fn create_session(
    sender: Seq<char>,
    request_id: Seq<char>,
    session_id: Seq<char>,
) -> RequestModel {
    RequestModel {
        call: PortalCall::CreateSession,
        path: request_path(sender, request_token(request_id)),
        session_handle: None,
        parent_window: None,
        options: seq![
            ("session_handle_token"@, OptionModel::Text("sess_"@ + session_id)),
            ("handle_token"@, OptionModel::Text(request_token(request_id))),
        ],
    }
}

/// The request that lets the user choose one monitor or window, with the pointer drawn into the
/// picture.
pub open spec fn select_sources(
    sender: Seq<char>,
    request_id: Seq<char>,
    session_handle: Seq<char>,
) -> RequestModel {
    RequestModel {
        call: PortalCall::SelectSources,
        path: request_path(sender, request_token(request_id)),
        session_handle: Some(session_handle),
        parent_window: None,
        options: seq![
            ("handle_token"@, OptionModel::Text(request_token(request_id))),
            ("types"@, OptionModel::Number(3)),
            ("multiple"@, OptionModel::Flag(false)),
            ("cursor_mode"@, OptionModel::Number(2)),
        ],
    }
}

/// The request that starts the cast, made on behalf of no window in particular.
pub open spec fn start_cast(
    sender: Seq<char>,
    request_id: Seq<char>,
    session_handle: Seq<char>,
) -> RequestModel {
    RequestModel {
        call: PortalCall::Start,
        path: request_path(sender, request_token(request_id)),
        session_handle: Some(session_handle),
        parent_window: Some(""@),
        options: seq![("handle_token"@, OptionModel::Text(request_token(request_id)))],
    }
}

fn token_for(id: &str) -> (r: String)
    ensures
        r@ == request_token(id@),
{
    String::from_str("req_").concat(id)
}

fn path_for(sender: &str, token: &str) -> (r: String)
    ensures
        r@ == request_path(sender@, token@),
{
    String::from_str("/org/freedesktop/portal/desktop/request/").concat(sender).concat("/").concat(
        token,
    )
}

fn text_option(key: &str, value: &str) -> (r: (String, OptionValue))
    ensures
        r.0@ == key@,
        r.1@ == OptionModel::Text(value@),
{
    (String::from_str(key), OptionValue::Text(String::from_str(value)))
}

fn create_session_request(sender: &str, request_id: &str, session_id: &str) -> (r: PortalRequest)
    ensures
        r@ == create_session(sender@, request_id@, session_id@),
{
    let token = token_for(request_id);
    let session_token = String::from_str("sess_").concat(session_id);
    let mut options: Vec<(String, OptionValue)> = Vec::new();
    options.push(text_option("session_handle_token", session_token.as_str()));
    options.push(text_option("handle_token", token.as_str()));
    let r = PortalRequest {
        call: PortalCall::CreateSession,
        path: path_for(sender, token.as_str()),
        session_handle: None,
        parent_window: None,
        options,
    };
    assert(r@.options =~= create_session(sender@, request_id@, session_id@).options);
    r
}

fn select_sources_request(sender: &str, request_id: &str, session_handle: &str) -> (r:
    PortalRequest)
    ensures
        r@ == select_sources(sender@, request_id@, session_handle@),
{
    let token = token_for(request_id);
    let mut options: Vec<(String, OptionValue)> = Vec::new();
    options.push(text_option("handle_token", token.as_str()));
    options.push((String::from_str("types"), OptionValue::Number(3)));
    options.push((String::from_str("multiple"), OptionValue::Flag(false)));
    options.push((String::from_str("cursor_mode"), OptionValue::Number(2)));
    let r = PortalRequest {
        call: PortalCall::SelectSources,
        path: path_for(sender, token.as_str()),
        session_handle: Some(String::from_str(session_handle)),
        parent_window: None,
        options,
    };
    assert(r@.options =~= select_sources(sender@, request_id@, session_handle@).options);
    r
}

fn start_request(sender: &str, request_id: &str, session_handle: &str) -> (r: PortalRequest)
    ensures
        r@ == start_cast(sender@, request_id@, session_handle@),
{
    let token = token_for(request_id);
    let mut options: Vec<(String, OptionValue)> = Vec::new();
    options.push(text_option("handle_token", token.as_str()));
    let r = PortalRequest {
        call: PortalCall::Start,
        path: path_for(sender, token.as_str()),
        session_handle: Some(String::from_str(session_handle)),
        parent_window: Some(String::from_str("")),
        options,
    };
    assert(r@.options =~= start_cast(sender@, request_id@, session_handle@).options);
    r
}

/// How far the conversation has come.
#[derive(Debug, Clone, Copy, PartialEq, Eq, Structural)]
pub enum Stage {
    /// The session has been asked for.
    AwaitSession,
    /// The choice of a source has been asked for.
    AwaitSources,
    /// The cast has been asked to start.
    AwaitStart,
    /// Every request has been granted; the stream's connection is still to be opened.
    AwaitRemote,
    /// A request has come to nothing.
    Failed,
}

impl Stage {
    /// The request that is waiting for its answer, if one is.
    pub open spec fn pending(self) -> Option<PortalCall> {
        match self {
            Stage::AwaitSession => Some(PortalCall::CreateSession),
            Stage::AwaitSources => Some(PortalCall::SelectSources),
            Stage::AwaitStart => Some(PortalCall::Start),
            Stage::AwaitRemote => None,
            Stage::Failed => None,
        }
    }
}

/// The contents of a [`Handshake`].
pub struct HandshakeModel {
    pub sender: Seq<char>,
    pub stage: Stage,
    pub session_handle: Seq<char>,
    pub streams: Seq<PortalStream>,
}

/// What is to be done next.
#[derive(Debug)]
pub enum PortalAction {
    /// Subscribe to the answer, send the request and wait.
    Send(PortalRequest),
    /// Open the stream's connection for the session with this handle.
    OpenRemote(String),
}

/// The contents of a [`PortalAction`].
pub enum ActionModel {
    Send(RequestModel),
    OpenRemote(Seq<char>),
}

impl View for PortalAction {
    type V = ActionModel;

    open spec fn view(&self) -> ActionModel {
        match self {
            PortalAction::Send(request) => ActionModel::Send(request@),
            PortalAction::OpenRemote(handle) => ActionModel::OpenRemote(handle@),
        }
    }
}

/// The reason for which `response`, the answer to the request `call`, ends the conversation, if
/// there is one.
pub open spec fn objection(call: PortalCall, response: Option<PortalResponse>) -> Option<
    PortalError,
> {
    match response {
        None => Some(PortalError::NoResponse(call)),
        Some(response) => if response.code != 0 {
            Some(PortalError::Refused(call, response.code))
        } else {
            match call {
                PortalCall::CreateSession => match value_of(response.results@, "session_handle"@) {
                    None => Some(PortalError::MissingSessionHandle),
                    Some(value) => match string_in(value) {
                        None => Some(PortalError::SessionHandleType),
                        Some(handle) => if object_path(handle) {
                            None
                        } else {
                            Some(PortalError::SessionHandlePath)
                        },
                    },
                },
                PortalCall::SelectSources => None,
                PortalCall::Start => match value_of(response.results@, "streams"@) {
                    None => Some(PortalError::MissingStreams),
                    Some(PortalValue::Streams(_)) => None,
                    Some(_) => Some(PortalError::StreamsType),
                },
            }
        },
    }
}

/// The session handle that a granted request for a session brings.
pub open spec fn granted_handle(response: PortalResponse) -> Seq<char> {
    string_in(value_of(response.results@, "session_handle"@)->0)->0
}

/// The streams that a granted request for a start brings.
pub open spec fn granted_streams(response: PortalResponse) -> Seq<PortalStream> {
    streams_in((value_of(response.results@, "streams"@)->0)->Streams_0@)
}

impl HandshakeModel {
    /// The conversation after `response` has come in.
    pub open spec fn after(self, response: Option<PortalResponse>) -> HandshakeModel {
        match self.stage.pending() {
            None => self,
            Some(call) => if objection(call, response) is Some {
                HandshakeModel { stage: Stage::Failed, ..self }
            } else {
                match call {
                    PortalCall::CreateSession => HandshakeModel {
                        stage: Stage::AwaitSources,
                        session_handle: granted_handle(response->0),
                        ..self
                    },
                    PortalCall::SelectSources => HandshakeModel {
                        stage: Stage::AwaitStart,
                        ..self
                    },
                    PortalCall::Start => HandshakeModel {
                        stage: Stage::AwaitRemote,
                        streams: granted_streams(response->0),
                        ..self
                    },
                }
            },
        }
    }

    /// What is to be done on having come here with an answer; a further request takes its token
    /// from `fresh_id`.
    pub open spec fn action(self, fresh_id: Seq<char>) -> ActionModel {
        match self.stage {
            Stage::AwaitSources => ActionModel::Send(
                select_sources(self.sender, fresh_id, self.session_handle),
            ),
            Stage::AwaitStart => ActionModel::Send(
                start_cast(self.sender, fresh_id, self.session_handle),
            ),
            _ => ActionModel::OpenRemote(self.session_handle),
        }
    }
}

/// The conversation with the portal, from the point of view of the side that asks.
#[derive(Debug)]
pub struct Handshake {
    sender: String,
    stage: Stage,
    session_handle: String,
    streams: Vec<PortalStream>,
}

impl View for Handshake {
    type V = HandshakeModel;

    closed spec fn view(&self) -> HandshakeModel {
        HandshakeModel {
            sender: self.sender@,
            stage: self.stage,
            session_handle: self.session_handle@,
            streams: self.streams@,
        }
    }
}

impl Handshake {
    /// Opens the conversation over the connection with the given unique name: the first request
    /// is for a session.
    pub fn begin(unique_name: Option<&str>, request_id: &str, session_id: &str) -> (r: (
        Handshake,
        PortalRequest,
    ))
        ensures
            r.0@ == (HandshakeModel {
                sender: sender_text(opt_text(unique_name)),
                stage: Stage::AwaitSession,
                session_handle: Seq::empty(),
                streams: Seq::empty(),
            }),
            r.1@ == create_session(sender_text(opt_text(unique_name)), request_id@, session_id@),
    {
        let sender = get_sender_name(unique_name);
        let request = create_session_request(sender.as_str(), request_id, session_id);
        let handshake = Handshake {
            sender,
            stage: Stage::AwaitSession,
            session_handle: String::new(),
            streams: Vec::new(),
        };
        (handshake, request)
    }

    /// How far the conversation has come.
    pub fn stage(&self) -> (r: Stage)
        ensures
            r == self@.stage,
    {
        self.stage
    }

    /// Takes in the answer to the request that is waiting for one, or its absence, and says what
    /// to do next.
    pub fn on_response(&mut self, response: Option<PortalResponse>, fresh_id: &str) -> (r: Result<
        PortalAction,
        PortalError,
    >)
        requires
            old(self)@.stage.pending() is Some,
        ensures
            final(self)@ == old(self)@.after(response),
            match objection(old(self)@.stage.pending()->0, response) {
                Some(error) => r == Err::<PortalAction, PortalError>(error),
                None => r matches Ok(action) && action@ == final(self)@.action(fresh_id@),
            },
    {
        match self.digest(&response) {
            Err(error) => {
                self.stage = Stage::Failed;
                Err(error)
            },
            Ok(()) => match self.stage {
                Stage::AwaitSession => {
                    self.stage = Stage::AwaitSources;
                    Ok(
                        PortalAction::Send(
                            select_sources_request(
                                self.sender.as_str(),
                                fresh_id,
                                self.session_handle.as_str(),
                            ),
                        ),
                    )
                },
                Stage::AwaitSources => {
                    self.stage = Stage::AwaitStart;
                    Ok(
                        PortalAction::Send(
                            start_request(
                                self.sender.as_str(),
                                fresh_id,
                                self.session_handle.as_str(),
                            ),
                        ),
                    )
                },
                _ => {
                    self.stage = Stage::AwaitRemote;
                    Ok(PortalAction::OpenRemote(self.session_handle.clone()))
                },
            },
        }
    }

    /// Checks the answer and keeps what it brings.
    fn digest(&mut self, response: &Option<PortalResponse>) -> (r: Result<(), PortalError>)
        requires
            old(self)@.stage.pending() is Some,
        ensures
            match objection(old(self)@.stage.pending()->0, *response) {
                Some(error) => r == Err::<(), PortalError>(error) && final(self)@ == old(self)@,
                None => r is Ok && final(self)@ == (HandshakeModel {
                    stage: old(self)@.stage,
                    ..old(self)@.after(*response)
                }),
            },
    {
        let call = match self.stage {
            Stage::AwaitSession => PortalCall::CreateSession,
            Stage::AwaitSources => PortalCall::SelectSources,
            _ => PortalCall::Start,
        };
        let response = match response {
            Some(response) => response,
            None => return Err(PortalError::NoResponse(call)),
        };
        if response.code != 0 {
            return Err(PortalError::Refused(call, response.code));
        }
        match call {
            PortalCall::CreateSession => {
                let value = match lookup(&response.results, "session_handle") {
                    Some(value) => value,
                    None => return Err(PortalError::MissingSessionHandle),
                };
                let text = match extract_string(value) {
                    Ok(text) => text,
                    Err(error) => return Err(error),
                };
                match parse_object_path(text) {
                    Ok(handle) => {
                        self.session_handle = handle;
                        Ok(())
                    },
                    Err(_) => Err(PortalError::SessionHandlePath),
                }
            },
            PortalCall::SelectSources => Ok(()),
            PortalCall::Start => match lookup(&response.results, "streams") {
                Some(PortalValue::Streams(entries)) => {
                    self.streams = collect_streams(entries);
                    Ok(())
                },
                Some(_) => Err(PortalError::StreamsType),
                None => Err(PortalError::MissingStreams),
            },
        }
    }

    /// Closes the conversation with the stream's connection in hand.
    pub fn finish<F>(self, fd: F) -> (r: PortalSession<F>)
        requires
            self@.stage == Stage::AwaitRemote,
        ensures
            r.session_handle@ == self@.session_handle,
            r.fd == Some(fd),
            r.streams@ == self@.streams,
    {
        PortalSession { session_handle: self.session_handle, fd: Some(fd), streams: self.streams }
    }
}

/// A screen cast that the portal has granted. `F` is what stands for the stream's connection.
#[derive(Debug)]
pub struct PortalSession<F> {
    pub session_handle: String,
    pub fd: Option<F>,
    pub streams: Vec<PortalStream>,
}

impl<F> PortalSession<F> {
    /// Hands out the stream's connection, once.
    pub fn take_fd(&mut self) -> (r: Option<F>)
        ensures
            r == old(self).fd,
            final(self).fd is None,
            final(self).session_handle == old(self).session_handle,
            final(self).streams == old(self).streams,
    {
        self.fd.take()
    }
}

/// The conversation `start` after the given answers, in this order.
pub open spec fn after_all(
    start: HandshakeModel,
    responses: Seq<Option<PortalResponse>>,
) -> HandshakeModel
    decreases responses.len(),
{
    if responses.len() == 0 {
        start
    } else {
        after_all(start, responses.drop_last()).after(responses.last())
    }
}

/// Whether `response` grants the request `call`.
pub open spec fn grants(call: PortalCall, response: Option<PortalResponse>) -> bool {
    objection(call, response) is None
}

/// A cast is opened only when the session, the choice of a source and the start have been granted,
/// in this order, each by a response with the code zero.
pub proof fn cast_needs_three_grants(
    start: HandshakeModel,
    responses: Seq<Option<PortalResponse>>,
)
    requires
        start.stage == Stage::AwaitSession,
        after_all(start, responses).stage == Stage::AwaitRemote,
    ensures
        responses.len() >= 3,
        grants(PortalCall::CreateSession, responses[0]),
        grants(PortalCall::SelectSources, responses[1]),
        grants(PortalCall::Start, responses[2]),
        forall|i: int|
            0 <= i < 3 ==> (#[trigger] responses[i] matches Some(response) && response.code == 0),
{
    stage_tells_the_grants(start, responses);
}

/// Three grants in order open the cast: the session is the one that the first answer names, and
/// the streams are those that the third lists.
pub proof fn three_grants_open_the_cast(
    start: HandshakeModel,
    first: Option<PortalResponse>,
    second: Option<PortalResponse>,
    third: Option<PortalResponse>,
)
    requires
        start.stage == Stage::AwaitSession,
        grants(PortalCall::CreateSession, first),
        grants(PortalCall::SelectSources, second),
        grants(PortalCall::Start, third),
    ensures
        after_all(start, seq![first, second, third]) == (HandshakeModel {
            sender: start.sender,
            stage: Stage::AwaitRemote,
            session_handle: granted_handle(first->0),
            streams: granted_streams(third->0),
        }),
{
    let none = Seq::<Option<PortalResponse>>::empty();
    assert(seq![first, second, third].drop_last() =~= seq![first, second]);
    assert(seq![first, second].drop_last() =~= seq![first]);
    assert(seq![first].drop_last() =~= none);
    assert(after_all(start, none) == start);
    assert(after_all(start, seq![first]) == start.after(first));
    assert(after_all(start, seq![first, second]) == start.after(first).after(second));
}

proof fn stage_tells_the_grants(start: HandshakeModel, responses: Seq<Option<PortalResponse>>)
    requires
        start.stage == Stage::AwaitSession,
    ensures
        ({
            let stage = after_all(start, responses).stage;
            &&& stage == Stage::AwaitSession ==> responses.len() == 0
            &&& stage == Stage::AwaitSources ==> {
                &&& responses.len() == 1
                &&& grants(PortalCall::CreateSession, responses[0])
            }
            &&& stage == Stage::AwaitStart ==> {
                &&& responses.len() == 2
                &&& grants(PortalCall::CreateSession, responses[0])
                &&& grants(PortalCall::SelectSources, responses[1])
            }
            &&& stage == Stage::AwaitRemote ==> {
                &&& responses.len() >= 3
                &&& grants(PortalCall::CreateSession, responses[0])
                &&& grants(PortalCall::SelectSources, responses[1])
                &&& grants(PortalCall::Start, responses[2])
            }
        }),
    decreases responses.len(),
{
    if responses.len() > 0 {
        stage_tells_the_grants(start, responses.drop_last());
    }
}

/// A conversation in which a request has come to nothing stays so, whatever answers still come in.
pub proof fn failure_is_final(start: HandshakeModel, responses: Seq<Option<PortalResponse>>)
    requires
        start.stage == Stage::Failed,
    ensures
        after_all(start, responses) == start,
    decreases responses.len(),
{
    if responses.len() > 0 {
        failure_is_final(start, responses.drop_last());
    }
}

/// Once a session has been granted, no later answer changes which session the requests are about.
pub proof fn session_is_kept(start: HandshakeModel, responses: Seq<Option<PortalResponse>>)
    requires
        start.stage != Stage::AwaitSession,
    ensures
        after_all(start, responses).session_handle == start.session_handle,
        after_all(start, responses).stage != Stage::AwaitSession,
    decreases responses.len(),
{
    if responses.len() > 0 {
        session_is_kept(start, responses.drop_last());
    }
}

/// Requests whose tokens were made at different nanoseconds are answered on different objects.
pub proof fn request_paths_differ(sender: Seq<char>, first: nat, second: nat)
    requires
        first != second,
    ensures
        request_path(sender, request_token(digits(first, 16))) != request_path(
            sender,
            request_token(digits(second, 16)),
        ),
{
    let a = digits(first, 16);
    let b = digits(second, 16);
    let head = "/org/freedesktop/portal/desktop/request/"@ + sender + "/"@;
    let p = request_path(sender, request_token(a));
    let q = request_path(sender, request_token(b));
    if p == q {
        let n = (head.len() + "req_"@.len()) as int;
        assert(p.skip(n) =~= a);
        assert(q.skip(n) =~= b);
        digits_tell_numbers_apart(first, second, 16);
    }
}

/// Whether the bus may have given out `name` as a unique name that maps to an element of an object
/// path: a colon, then letters, digits, underscores and dots.
pub open spec fn plain_unique_name(name: Seq<char>) -> bool {
    &&& name.len() > 1
    &&& name[0] == ':'
    &&& forall|i: int| 1 <= i < name.len() ==> #[trigger] name[i] == '.' || path_char(name[i])
}

/// The object on which an answer is announced can be subscribed to: for a connection with a plain
/// unique name and a token made from a time its path is an object path.
pub proof fn request_path_is_object_path(unique_name: Seq<char>, nanos: nat)
    requires
        plain_unique_name(unique_name),
    ensures
        object_path(
            request_path(sender_text(Some(unique_name)), request_token(digits(nanos, 16))),
        ),
{
    let sender = sender_text(Some(unique_name));
    let id = digits(nanos, 16);
    let head = "/org/freedesktop/portal/desktop/request/"@;
    let path = request_path(sender, request_token(id));
    reveal_strlit("/org/freedesktop/portal/desktop/request/");
    reveal_strlit("/");
    reveal_strlit("req_");
    digits_are_path_chars(nanos);
    assert(forall|i: int| 0 <= i < sender.len() ==> path_char(#[trigger] sender[i]));
    let a = head.len() as int;
    let b = a + sender.len();
    assert forall|i: int| 0 <= i < path.len() implies #[trigger] path[i] == (if i < a {
        head[i]
    } else if i < b {
        sender[i - a]
    } else if i == b {
        '/'
    } else if i < b + 5 {
        "req_"@[i - b - 1]
    } else {
        id[i - b - 5]
    }) by {}
}

proof fn digits_are_path_chars(n: nat)
    ensures
        digits(n, 16).len() > 0,
        forall|i: int| 0 <= i < digits(n, 16).len() ==> path_char(#[trigger] digits(n, 16)[i]),
    decreases n,
{
    if n >= 16 {
        digits_are_path_chars(n / 16);
    }
    assert(path_char(digit_char(n % 16)));
}

/// The token for a moment, read as a number, tells its nanoseconds since the epoch.
pub proof fn token_tells_the_moment(seconds: u64, nanos: u32)
    ensures
        number_in(digits(clock_nanos(Some((seconds, nanos))), 16), 16) == seconds * 1_000_000_000
            + nanos,
        number_in(digits(clock_nanos(None), 16), 16) == 0,
{
    digits_read_back(clock_nanos(Some((seconds, nanos))), 16);
    digits_read_back(clock_nanos(None), 16);
}

/// The name under which the portal knows a connection, character by character: that of its unique
/// name behind a leading colon, or from the start where there is none, with an underscore for each
/// dot; nothing where there is no unique name.
pub proof fn sender_is_the_bare_name(unique_name: Option<&str>, i: int)
    ensures
        unique_name is None ==> sender_text(opt_text(unique_name)).len() == 0,
        unique_name matches Some(name) ==> {
            let sender = sender_text(opt_text(unique_name));
            let skipped: int = if name@.len() > 0 && name@[0] == ':' {
                1
            } else {
                0
            };
            &&& sender.len() == name@.len() - skipped
            &&& 0 <= i < sender.len() && name@[i + skipped] == '.' ==> sender[i] == '_'
            &&& 0 <= i < sender.len() && name@[i + skipped] != '.' ==> sender[i] == name@[i
                + skipped]
        },
{
}

/// The requests have the names of the portal's methods.
pub proof fn requests_are_the_methods_of_the_portal(call: PortalCall)
    ensures
        call is CreateSession ==> call.name() == "CreateSession"@,
        call is SelectSources ==> call.name() == "SelectSources"@,
        call is Start ==> call.name() == "Start"@,
{
}

/// The text of an error about a request begins or ends with the name of the request, and that of a
/// refusal ends with the code in decimal digits.
pub proof fn error_texts_name_the_request(call: PortalCall, code: u32)
    ensures
        PortalError::NoResponse(call).text() == "No response for "@ + call.name(),
        exists|number: Seq<char>|
            number_in(number, 10) == code && (number.len() > 1 ==> number[0] != '0')
                && PortalError::Refused(call, code).text() == #[trigger] (call.name()
                + " failed with response code "@ + number),
{
    digits_read_back(code as nat, 10);
    let number = digits(code as nat, 10);
    assert(PortalError::Refused(call, code).text() == call.name() + " failed with response code "@
        + number);
}

/// The texts of the errors about what an answer holds.
pub proof fn error_texts_tell_what_is_amiss(error: PortalError)
    ensures
        error is MissingSessionHandle ==> error.text()
            == "Missing session_handle in CreateSession response"@,
        error is SessionHandleType ==> error.text() == "Failed to extract string from variant"@,
        error is SessionHandlePath ==> error.text() == "Invalid object path"@,
        error is MissingStreams ==> error.text() == "Missing streams in Start response"@,
        error is StreamsType ==> error.text() == "incorrect type"@,
{
}

/// The value under a key is that of the first entry with this key.
pub proof fn first_entry_is_found<V>(entries: Seq<(String, V)>, key: Seq<char>, k: int)
    requires
        0 <= k < entries.len(),
        entries[k].0@ == key,
        forall|j: int| 0 <= j < k ==> (#[trigger] entries[j]).0@ != key,
    ensures
        value_of(entries, key) == Some(entries[k].1),
    decreases entries.len(),
{
    if k > 0 {
        assert(entries[0].0@ != key);
        let rest = entries.drop_first();
        assert forall|j: int| 0 <= j < k - 1 implies (#[trigger] rest[j]).0@ != key by {
            assert(rest[j] == entries[j + 1]);
        }
        first_entry_is_found(rest, key, k - 1);
    }
}

/// There is no value under a key that no entry has.
pub proof fn absent_key_has_no_value<V>(entries: Seq<(String, V)>, key: Seq<char>)
    requires
        forall|j: int| 0 <= j < entries.len() ==> (#[trigger] entries[j]).0@ != key,
    ensures
        value_of(entries, key) is None,
    decreases entries.len(),
{
    if entries.len() > 0 {
        assert(entries[0].0@ != key);
        let rest = entries.drop_first();
        assert forall|j: int| 0 <= j < rest.len() implies (#[trigger] rest[j]).0@ != key by {
            assert(rest[j] == entries[j + 1]);
        }
        absent_key_has_no_value(rest, key);
    }
}

/// Texts and object paths hold a text, and no other value does.
pub proof fn only_texts_and_paths_hold_a_text(value: PortalValue)
    ensures
        value matches PortalValue::Scalar(PortalScalar::Text(s)) ==> string_in(value) == Some(s@),
        value matches PortalValue::Scalar(PortalScalar::Path(s)) ==> string_in(value) == Some(s@),
        value matches PortalValue::Scalar(PortalScalar::Unsigned(_)) ==> string_in(value) is None,
        value matches PortalValue::Scalar(PortalScalar::Other) ==> string_in(value) is None,
        value is Streams ==> string_in(value) is None,
{
}

/// Every stream that is listed is taken over, in the order of the list, with its own node
/// identifier.
pub proof fn listed_streams_are_taken_over(entries: Seq<StreamEntry>, i: int)
    requires
        0 <= i < entries.len(),
    ensures
        streams_in(entries).len() == entries.len(),
        streams_in(entries)[i].node_id == entries[i].node_id,
{
}

/// A stream has the serial number that its first property of that name gives as an unsigned number.
pub proof fn serial_is_the_unsigned_property(entries: Seq<StreamEntry>, i: int, k: int)
    requires
        0 <= i < entries.len(),
        0 <= k < entries[i].props@.len(),
        entries[i].props@[k].0@ == "pipewire-serial"@,
        forall|j: int|
            0 <= j < k ==> (#[trigger] entries[i].props@[j]).0@ != "pipewire-serial"@,
    ensures
        entries[i].props@[k].1 matches PortalScalar::Unsigned(serial) ==> streams_in(
            entries,
        )[i].pipewire_serial == Some(serial),
        !(entries[i].props@[k].1 is Unsigned) ==> streams_in(entries)[i].pipewire_serial is None,
{
    first_entry_is_found(entries[i].props@, "pipewire-serial"@, k);
}

/// A stream without a property of that name has no serial number.
pub proof fn no_property_means_no_serial(entries: Seq<StreamEntry>, i: int)
    requires
        0 <= i < entries.len(),
        forall|j: int|
            0 <= j < entries[i].props@.len() ==> (#[trigger] entries[i].props@[j]).0@
                != "pipewire-serial"@,
    ensures
        streams_in(entries)[i].pipewire_serial is None,
{
    absent_key_has_no_value(entries[i].props@, "pipewire-serial"@);
}

/// The request that each stage waits for.
pub proof fn each_stage_waits_for_its_request(stage: Stage)
    ensures
        stage is AwaitSession ==> stage.pending() == Some(PortalCall::CreateSession),
        stage is AwaitSources ==> stage.pending() == Some(PortalCall::SelectSources),
        stage is AwaitStart ==> stage.pending() == Some(PortalCall::Start),
        stage is AwaitRemote || stage is Failed ==> stage.pending() is None,
{
}

/// A request that is not answered, or answered with a code other than zero, fails: the error tells
/// which request and which code, and nothing but the stage changes.
pub proof fn refused_request_fails(
    handshake: HandshakeModel,
    call: PortalCall,
    response: Option<PortalResponse>,
)
    requires
        handshake.stage.pending() == Some(call),
        response matches Some(response) ==> response.code != 0,
    ensures
        response is None ==> objection(call, response) == Some(PortalError::NoResponse(call)),
        response matches Some(response) ==> objection(call, Some(response)) == Some(
            PortalError::Refused(call, response.code),
        ),
        handshake.after(response) == (HandshakeModel { stage: Stage::Failed, ..handshake }),
{
}

/// A session is granted by an answer with the code zero whose first entry under `session_handle` is
/// an object path, be it given as a path or as a text: this becomes the session of the
/// conversation, and nothing else changes but the stage. A text that is no object path and a value
/// that is no text are objected to.
pub proof fn named_session_is_granted(handshake: HandshakeModel, response: PortalResponse, k: int)
    requires
        handshake.stage == Stage::AwaitSession,
        response.code == 0,
        0 <= k < response.results@.len(),
        response.results@[k].0@ == "session_handle"@,
        forall|j: int|
            0 <= j < k ==> (#[trigger] response.results@[j]).0@ != "session_handle"@,
    ensures
        ({
            let error = objection(PortalCall::CreateSession, Some(response));
            let next = handshake.after(Some(response));
            match response.results@[k].1 {
                PortalValue::Scalar(PortalScalar::Text(s)) => if object_path(s@) {
                    error is None && next == (HandshakeModel {
                        stage: Stage::AwaitSources,
                        session_handle: s@,
                        ..handshake
                    })
                } else {
                    error == Some(PortalError::SessionHandlePath)
                },
                PortalValue::Scalar(PortalScalar::Path(s)) => if object_path(s@) {
                    error is None && next == (HandshakeModel {
                        stage: Stage::AwaitSources,
                        session_handle: s@,
                        ..handshake
                    })
                } else {
                    error == Some(PortalError::SessionHandlePath)
                },
                _ => error == Some(PortalError::SessionHandleType),
            }
        }),
        objection(PortalCall::CreateSession, Some(response)) is Some ==> handshake.after(
            Some(response),
        ) == (HandshakeModel { stage: Stage::Failed, ..handshake }),
{
    first_entry_is_found(response.results@, "session_handle"@, k);
}

/// An answer with the code zero that has nothing under `session_handle` is objected to for that.
pub proof fn unnamed_session_is_missed(handshake: HandshakeModel, response: PortalResponse)
    requires
        handshake.stage == Stage::AwaitSession,
        response.code == 0,
        forall|j: int|
            0 <= j < response.results@.len() ==> (#[trigger] response.results@[j]).0@
                != "session_handle"@,
    ensures
        objection(PortalCall::CreateSession, Some(response)) == Some(
            PortalError::MissingSessionHandle,
        ),
        handshake.after(Some(response)) == (HandshakeModel { stage: Stage::Failed, ..handshake }),
{
    absent_key_has_no_value(response.results@, "session_handle"@);
}

/// The choice of a source is granted by every answer with the code zero, whatever its results.
pub proof fn chosen_source_is_granted(handshake: HandshakeModel, response: PortalResponse)
    requires
        handshake.stage == Stage::AwaitSources,
        response.code == 0,
    ensures
        objection(PortalCall::SelectSources, Some(response)) is None,
        handshake.after(Some(response)) == (HandshakeModel {
            stage: Stage::AwaitStart,
            ..handshake
        }),
{
}

/// The start is granted by every answer with the code zero whose first entry under `streams` is a
/// list of streams, of whatever length: its streams are taken over in order, and the connection of
/// the session is to be opened next. Any other value is objected to.
pub proof fn listed_streams_are_granted(
    handshake: HandshakeModel,
    response: PortalResponse,
    k: int,
    fresh_id: Seq<char>,
)
    requires
        handshake.stage == Stage::AwaitStart,
        response.code == 0,
        0 <= k < response.results@.len(),
        response.results@[k].0@ == "streams"@,
        forall|j: int| 0 <= j < k ==> (#[trigger] response.results@[j]).0@ != "streams"@,
    ensures
        response.results@[k].1 matches PortalValue::Streams(entries) ==> {
            let next = handshake.after(Some(response));
            &&& objection(PortalCall::Start, Some(response)) is None
            &&& next.stage == Stage::AwaitRemote
            &&& next.sender == handshake.sender
            &&& next.session_handle == handshake.session_handle
            &&& next.action(fresh_id) == ActionModel::OpenRemote(handshake.session_handle)
            &&& next.streams == streams_in(entries@)
            &&& next.streams.len() == entries@.len()
            &&& forall|i: int|
                0 <= i < entries@.len() ==> (#[trigger] next.streams[i]).node_id
                    == entries@[i].node_id
        },
        !(response.results@[k].1 is Streams) ==> {
            &&& objection(PortalCall::Start, Some(response)) == Some(PortalError::StreamsType)
            &&& handshake.after(Some(response)) == (HandshakeModel {
                stage: Stage::Failed,
                ..handshake
            })
        },
{
    first_entry_is_found(response.results@, "streams"@, k);
}

/// An answer with the code zero is objected to for missing streams where it has nothing under
/// `streams`, and only there.
pub proof fn streams_are_missed_only_where_they_are_missing(
    handshake: HandshakeModel,
    response: PortalResponse,
)
    requires
        handshake.stage == Stage::AwaitStart,
        response.code == 0,
    ensures
        objection(PortalCall::Start, Some(response)) == Some(PortalError::MissingStreams) <==> (
        forall|j: int|
            0 <= j < response.results@.len() ==> (#[trigger] response.results@[j]).0@
                != "streams"@),
        objection(PortalCall::Start, Some(response)) is Some ==> handshake.after(Some(response))
            == (HandshakeModel { stage: Stage::Failed, ..handshake }),
{
    if forall|j: int|
        0 <= j < response.results@.len() ==> (#[trigger] response.results@[j]).0@ != "streams"@ {
        absent_key_has_no_value(response.results@, "streams"@);
    } else {
        let j = choose|j: int|
            0 <= j < response.results@.len() && (#[trigger] response.results@[j]).0@ == "streams"@;
        present_key_has_a_value(response.results@, "streams"@, j);
    }
}

proof fn present_key_has_a_value<V>(entries: Seq<(String, V)>, key: Seq<char>, j: int)
    requires
        0 <= j < entries.len(),
        entries[j].0@ == key,
    ensures
        value_of(entries, key) is Some,
    decreases entries.len(),
{
    if entries[0].0@ != key {
        assert(entries.drop_first()[j - 1] == entries[j]);
        present_key_has_a_value(entries.drop_first(), key, j - 1);
    }
}

/// Every request is announced an answer on the object below the portal's own for the sender, under
/// the token that the request itself carries as `handle_token`.
pub proof fn requests_carry_the_token_of_their_path(
    sender: Seq<char>,
    request_id: Seq<char>,
    other: Seq<char>,
)
    ensures
        ({
            let token = "req_"@ + request_id;
            let path = "/org/freedesktop/portal/desktop/request/"@ + sender + "/"@ + token;
            &&& create_session(sender, request_id, other).path == path
            &&& select_sources(sender, request_id, other).path == path
            &&& start_cast(sender, request_id, other).path == path
            &&& create_session(sender, request_id, other).options[1] == (
                "handle_token"@,
                OptionModel::Text(token),
            )
            &&& select_sources(sender, request_id, other).options[0] == (
                "handle_token"@,
                OptionModel::Text(token),
            )
            &&& start_cast(sender, request_id, other).options[0] == (
                "handle_token"@,
                OptionModel::Text(token),
            )
        }),
{
}

/// What a conversation asks for, and in which order: first a session, with a token of its own; then,
/// on the session that was granted, the choice of one monitor or window with the pointer drawn in;
/// then, on the same session and for no window in particular, the start; at last the connection of
/// that session.
pub proof fn requests_follow_each_other_on_one_session(
    handshake: HandshakeModel,
    sender: Seq<char>,
    fresh_id: Seq<char>,
    session_id: Seq<char>,
)
    ensures
        ({
            let first = create_session(sender, fresh_id, session_id);
            &&& first.call == PortalCall::CreateSession
            &&& first.session_handle is None
            &&& first.parent_window is None
            &&& first.options.len() == 2
            &&& first.options[0] == (
                "session_handle_token"@,
                OptionModel::Text("sess_"@ + session_id),
            )
        }),
        handshake.stage is AwaitSources ==> {
            &&& handshake.action(fresh_id) matches ActionModel::Send(second)
            &&& second.call == PortalCall::SelectSources
            &&& second.path == "/org/freedesktop/portal/desktop/request/"@ + handshake.sender + "/"@
                + ("req_"@ + fresh_id)
            &&& second.session_handle == Some(handshake.session_handle)
            &&& second.parent_window is None
            &&& second.options.len() == 4
            &&& second.options[0] == ("handle_token"@, OptionModel::Text("req_"@ + fresh_id))
            &&& second.options[1] == ("types"@, OptionModel::Number(1u32 | 2u32))
            &&& second.options[2] == ("multiple"@, OptionModel::Flag(false))
            &&& second.options[3] == ("cursor_mode"@, OptionModel::Number(2))
        },
        handshake.stage is AwaitStart ==> {
            &&& handshake.action(fresh_id) matches ActionModel::Send(third)
            &&& third.call == PortalCall::Start
            &&& third.path == "/org/freedesktop/portal/desktop/request/"@ + handshake.sender + "/"@
                + ("req_"@ + fresh_id)
            &&& third.session_handle == Some(handshake.session_handle)
            &&& third.parent_window == Some(""@)
            &&& third.options.len() == 1
            &&& third.options[0] == ("handle_token"@, OptionModel::Text("req_"@ + fresh_id))
        },
        handshake.stage is AwaitRemote ==> handshake.action(fresh_id) == ActionModel::OpenRemote(
            handshake.session_handle,
        ),
{
    assert(1u32 | 2u32 == 3u32) by (bit_vector);
}

/// The contents of a request are what its fields hold.
pub proof fn request_contents_are_its_fields(request: PortalRequest, i: int)
    requires
        0 <= i < request.options@.len(),
    ensures
        request@.call == request.call,
        request@.path == request.path@,
        request.session_handle is None ==> request@.session_handle is None,
        request.session_handle matches Some(s) ==> request@.session_handle == Some(s@),
        request.parent_window is None ==> request@.parent_window is None,
        request.parent_window matches Some(s) ==> request@.parent_window == Some(s@),
        request@.options.len() == request.options@.len(),
        request@.options[i].0 == request.options@[i].0@,
        request.options@[i].1 matches OptionValue::Text(s) ==> request@.options[i].1
            == OptionModel::Text(s@),
        request.options@[i].1 matches OptionValue::Number(n) ==> request@.options[i].1
            == OptionModel::Number(n),
        request.options@[i].1 matches OptionValue::Flag(b) ==> request@.options[i].1
            == OptionModel::Flag(b),
        PortalAction::Send(request)@ == ActionModel::Send(request@),
{
}

/// A connection is to be opened for the session that the action holds.
pub proof fn opening_names_the_session(handle: String)
    ensures
        PortalAction::OpenRemote(handle)@ == ActionModel::OpenRemote(handle@),
{
}

/// A token, read as a hexadecimal number, tells the nanoseconds since the epoch of the moment that it
/// was made for, or of one that the wall clock has shown where it was made for the present.
pub proof fn tokens_tell_their_moment(
    clock: ClockReading,
    token: String,
    present: String,
)
    requires
        call_ensures(id_at, (clock,), token),
        call_ensures(rand_id, (), present),
    ensures
        clock is None ==> number_in(token@, 16) == 0,
        clock matches Some((seconds, nanos)) ==> number_in(token@, 16) == seconds * 1_000_000_000
            + nanos,
        token@.len() > 1 ==> token@[0] != '0',
        exists|shown: ClockReading| #[trigger]
            clock_shown(shown) && number_in(present@, 16) == (match shown {
                Some((seconds, nanos)) => seconds * 1_000_000_000 + nanos,
                None => 0,
            }),
        present@.len() > 1 ==> present@[0] != '0',
{
    digits_read_back(clock_nanos(clock), 16);
    let shown = choose|shown: ClockReading|
        clock_shown(shown) && clock_reading(shown) && present@ == #[trigger] digits(
            clock_nanos(shown),
            16,
        );
    digits_read_back(clock_nanos(shown), 16);
    assert(clock_shown(shown));
}

/// The name under which the portal knows a connection is its unique name without the leading colon,
/// with an underscore for each dot, and empty where there is none.
pub proof fn sender_name_is_the_bare_name(unique_name: Option<&str>, r: String, i: int)
    requires
        call_ensures(get_sender_name, (unique_name,), r),
    ensures
        unique_name is None ==> r@.len() == 0,
        unique_name matches Some(name) ==> {
            let skipped: int = if name@.len() > 0 && name@[0] == ':' {
                1
            } else {
                0
            };
            &&& r@.len() == name@.len() - skipped
            &&& 0 <= i < r@.len() && name@[i + skipped] == '.' ==> r@[i] == '_'
            &&& 0 <= i < r@.len() && name@[i + skipped] != '.' ==> r@[i] == name@[i + skipped]
        },
{
    sender_is_the_bare_name(unique_name, i);
}

/// The methods are called by their names on the bus.
pub proof fn members_are_the_methods_of_the_portal(call: PortalCall, r: &'static str)
    requires
        call_ensures(PortalCall::member, (call,), r),
    ensures
        call is CreateSession ==> r@ == "CreateSession"@,
        call is SelectSources ==> r@ == "SelectSources"@,
        call is Start ==> r@ == "Start"@,
{
}

/// The messages of the errors: those about a request have its name and, where it was refused, the code
/// in decimal digits.
pub proof fn messages_tell_what_is_amiss(error: PortalError, r: String)
    requires
        call_ensures(PortalError::message, (error,), r),
    ensures
        error matches PortalError::NoResponse(call) ==> {
            &&& call is CreateSession ==> r@ == "No response for "@ + "CreateSession"@
            &&& call is SelectSources ==> r@ == "No response for "@ + "SelectSources"@
            &&& call is Start ==> r@ == "No response for "@ + "Start"@
        },
        error matches PortalError::Refused(call, code) ==> exists|number: Seq<char>|
            {
                let tail = #[trigger] (" failed with response code "@ + number);
                &&& number_in(number, 10) == code
                &&& number.len() > 1 ==> number[0] != '0'
                &&& call is CreateSession ==> r@ == "CreateSession"@ + tail
                &&& call is SelectSources ==> r@ == "SelectSources"@ + tail
                &&& call is Start ==> r@ == "Start"@ + tail
            },
        error is MissingSessionHandle ==> r@ == "Missing session_handle in CreateSession response"@,
        error is SessionHandleType ==> r@ == "Failed to extract string from variant"@,
        error is SessionHandlePath ==> r@ == "Invalid object path"@,
        error is MissingStreams ==> r@ == "Missing streams in Start response"@,
        error is StreamsType ==> r@ == "incorrect type"@,
{
    if let PortalError::Refused(call, code) = error {
        digits_read_back(code as nat, 10);
        let number = digits(code as nat, 10);
        let tail = " failed with response code "@ + number;
        assert(r@ =~= call.name() + tail);
    }
}

/// A lookup gives the value of the first entry with the key, and nothing where there is none.
pub proof fn lookup_gives_the_first_entry<V>(
    entries: &Vec<(String, V)>,
    key: &str,
    r: Option<&V>,
    k: int,
)
    requires
        call_ensures(lookup::<V>, (entries, key), r),
    ensures
        0 <= k < entries@.len() && entries@[k].0@ == key@ && (forall|j: int|
            0 <= j < k ==> (#[trigger] entries@[j]).0@ != key@) ==> (r matches Some(value)
            && *value == entries@[k].1),
        (forall|j: int| 0 <= j < entries@.len() ==> (#[trigger] entries@[j]).0@ != key@)
            ==> r is None,
{
    if 0 <= k < entries@.len() && entries@[k].0@ == key@ && (forall|j: int|
        0 <= j < k ==> (#[trigger] entries@[j]).0@ != key@) {
        first_entry_is_found(entries@, key@, k);
    }
    if forall|j: int| 0 <= j < entries@.len() ==> (#[trigger] entries@[j]).0@ != key@ {
        absent_key_has_no_value(entries@, key@);
    }
}

/// A text is taken from texts and object paths, as it is, and from nothing else.
pub proof fn texts_and_paths_are_taken_as_they_are(
    value: &PortalValue,
    r: Result<String, PortalError>,
)
    requires
        call_ensures(extract_string, (value,), r),
    ensures
        *value matches PortalValue::Scalar(PortalScalar::Text(s)) ==> r is Ok && r->Ok_0@ == s@,
        *value matches PortalValue::Scalar(PortalScalar::Path(s)) ==> r is Ok && r->Ok_0@ == s@,
        (*value matches PortalValue::Scalar(PortalScalar::Unsigned(_))) ==> r == Err::<
            String,
            PortalError,
        >(PortalError::SessionHandleType),
        (*value matches PortalValue::Scalar(PortalScalar::Other)) ==> r == Err::<
            String,
            PortalError,
        >(PortalError::SessionHandleType),
        *value is Streams ==> r == Err::<String, PortalError>(PortalError::SessionHandleType),
{
}

/// The streams of a list are collected one by one, in order: each with its own node identifier and
/// with the serial number that its first property of that name gives as an unsigned number.
pub proof fn streams_are_collected_in_order(
    entries: &Vec<StreamEntry>,
    r: Vec<PortalStream>,
    i: int,
    k: int,
)
    requires
        call_ensures(collect_streams, (entries,), r),
        0 <= i < entries@.len(),
    ensures
        r@.len() == entries@.len(),
        r@[i].node_id == entries@[i].node_id,
        ({
            let props = entries@[i].props@;
            let first = 0 <= k < props.len() && props[k].0@ == "pipewire-serial"@ && forall|j: int|
                0 <= j < k ==> (#[trigger] props[j]).0@ != "pipewire-serial"@;
            &&& first ==> (props[k].1 matches PortalScalar::Unsigned(serial)
                ==> r@[i].pipewire_serial == Some(serial))
            &&& first && !(props[k].1 is Unsigned) ==> r@[i].pipewire_serial is None
            &&& (forall|j: int|
                0 <= j < props.len() ==> (#[trigger] props[j]).0@ != "pipewire-serial"@)
                ==> r@[i].pipewire_serial is None
        }),
{
    let props = entries@[i].props@;
    if 0 <= k < props.len() && props[k].0@ == "pipewire-serial"@ && (forall|j: int|
        0 <= j < k ==> (#[trigger] props[j]).0@ != "pipewire-serial"@) {
        first_entry_is_found(props, "pipewire-serial"@, k);
    }
    if forall|j: int| 0 <= j < props.len() ==> (#[trigger] props[j]).0@ != "pipewire-serial"@ {
        absent_key_has_no_value(props, "pipewire-serial"@);
    }
}

/// How a conversation is opened: with a request for a session, on behalf of no window, that carries the
/// token of the session and its own, and is answered on the object for the sender and that token.
pub proof fn conversation_opens_with_a_session(
    unique_name: Option<&str>,
    sender: String,
    request_id: &str,
    session_id: &str,
    r: (Handshake, PortalRequest),
    stage: Stage,
)
    requires
        call_ensures(get_sender_name, (unique_name,), sender),
        call_ensures(Handshake::begin, (unique_name, request_id, session_id), r),
        call_ensures(Handshake::stage, (&r.0,), stage),
    ensures
        stage is AwaitSession,
        r.1.call is CreateSession,
        r.1.path@ == "/org/freedesktop/portal/desktop/request/"@ + sender@ + "/"@ + ("req_"@
            + request_id@),
        r.1.session_handle is None,
        r.1.parent_window is None,
        r.1.options@.len() == 2,
        r.1.options@[0].0@ == "session_handle_token"@,
        r.1.options@[0].1 matches OptionValue::Text(token) && token@ == "sess_"@ + session_id@,
        r.1.options@[1].0@ == "handle_token"@,
        r.1.options@[1].1 matches OptionValue::Text(token) && token@ == "req_"@ + request_id@,
{
    let options = r.1@.options;
    assert(options.len() == 2);
    assert(options[0] == (r.1.options@[0].0@, r.1.options@[0].1@));
    assert(options[1] == (r.1.options@[1].0@, r.1.options@[1].1@));
}

/// A conversation in which every request is granted, from its opening to the session that comes of it.
/// The session is the one that the first answer names, as a text or as a path; the choice of a
/// source and the start are asked for on it; its connection is opened; and the streams are those
/// that the third answer lists, however many there are.
pub proof fn granted_conversation_opens_the_cast<F>(
    unique_name: Option<&str>,
    sender: String,
    ids: (&str, &str, &str, &str),
    opening: (Handshake, PortalRequest),
    first: PortalResponse,
    k: int,
    handle: String,
    asked: &mut Handshake,
    chosen: Result<PortalAction, PortalError>,
    second: PortalResponse,
    choosing: &mut Handshake,
    started: Result<PortalAction, PortalError>,
    third: PortalResponse,
    m: int,
    entries: Vec<StreamEntry>,
    starting: &mut Handshake,
    opened: Result<PortalAction, PortalError>,
    fd: F,
    session: PortalSession<F>,
    collected: Vec<PortalStream>,
)
    requires
        call_ensures(get_sender_name, (unique_name,), sender),
        call_ensures(Handshake::begin, (unique_name, ids.0, ids.1), opening),
        first.code == 0,
        0 <= k < first.results@.len(),
        first.results@[k].0@ == "session_handle"@,
        forall|j: int| 0 <= j < k ==> (#[trigger] first.results@[j]).0@ != "session_handle"@,
        first.results@[k].1 == PortalValue::Scalar(PortalScalar::Text(handle))
            || first.results@[k].1 == PortalValue::Scalar(PortalScalar::Path(handle)),
        object_path(handle@),
        *old(asked) == opening.0,
        call_ensures(Handshake::on_response, (asked, Some(first), ids.2), chosen),
        second.code == 0,
        *old(choosing) == *final(asked),
        call_ensures(Handshake::on_response, (choosing, Some(second), ids.3), started),
        third.code == 0,
        0 <= m < third.results@.len(),
        third.results@[m].0@ == "streams"@,
        forall|j: int| 0 <= j < m ==> (#[trigger] third.results@[j]).0@ != "streams"@,
        third.results@[m].1 == PortalValue::Streams(entries),
        *old(starting) == *final(choosing),
        call_ensures(Handshake::on_response, (starting, Some(third), ids.3), opened),
        call_ensures(Handshake::finish::<F>, (*final(starting), fd), session),
        call_ensures(collect_streams, (&entries,), collected),
    ensures
        chosen matches Ok(PortalAction::Send(request)) && {
            &&& request.call is SelectSources
            &&& request.path@ == "/org/freedesktop/portal/desktop/request/"@ + sender@ + "/"@ + (
            "req_"@ + ids.2@)
            &&& request.session_handle matches Some(named)
            &&& named@ == handle@
            &&& request.parent_window is None
            &&& request.options@.len() == 4
            &&& request.options@[0].0@ == "handle_token"@
            &&& request.options@[0].1@ == OptionModel::Text("req_"@ + ids.2@)
            &&& request.options@[1].0@ == "types"@
            &&& request.options@[1].1@ == OptionModel::Number(3)
            &&& request.options@[2].0@ == "multiple"@
            &&& request.options@[2].1@ == OptionModel::Flag(false)
            &&& request.options@[3].0@ == "cursor_mode"@
            &&& request.options@[3].1@ == OptionModel::Number(2)
        },
        started matches Ok(PortalAction::Send(request)) && {
            &&& request.call is Start
            &&& request.path@ == "/org/freedesktop/portal/desktop/request/"@ + sender@ + "/"@ + (
            "req_"@ + ids.3@)
            &&& request.session_handle matches Some(named)
            &&& named@ == handle@
            &&& request.parent_window matches Some(window)
            &&& window@ == ""@
            &&& request.options@.len() == 1
            &&& request.options@[0].0@ == "handle_token"@
            &&& request.options@[0].1@ == OptionModel::Text("req_"@ + ids.3@)
        },
        opened matches Ok(PortalAction::OpenRemote(named)) && named@ == handle@,
        session.session_handle@ == handle@,
        session.fd == Some(fd),
        session.streams@ == collected@,
        session.streams@.len() == entries@.len(),
{
    first_entry_is_found(first.results@, "session_handle"@, k);
    first_entry_is_found(third.results@, "streams"@, m);
    if let Ok(PortalAction::Send(request)) = chosen {
        let options = request@.options;
        assert(options.len() == 4);
        assert(options[0] == (request.options@[0].0@, request.options@[0].1@));
        assert(options[1] == (request.options@[1].0@, request.options@[1].1@));
        assert(options[2] == (request.options@[2].0@, request.options@[2].1@));
        assert(options[3] == (request.options@[3].0@, request.options@[3].1@));
    }
    if let Ok(PortalAction::Send(request)) = started {
        let options = request@.options;
        assert(options.len() == 1);
        assert(options[0] == (request.options@[0].0@, request.options@[0].1@));
    }
}

/// What becomes of the answer that a conversation waits for. It fails, with the error for it, on an
/// answer that has not come, on a code other than zero, and on results that lack what the request
/// is for or hold something else there; on any other it goes on to the next stage.
pub proof fn answers_decide_the_stage(
    handshake: &mut Handshake,
    waiting: Stage,
    response: Option<PortalResponse>,
    fresh_id: &str,
    r: Result<PortalAction, PortalError>,
    stage: Stage,
    k: int,
)
    requires
        call_ensures(Handshake::stage, (&*old(handshake),), waiting),
        waiting is AwaitSession || waiting is AwaitSources || waiting is AwaitStart,
        call_ensures(Handshake::on_response, (handshake, response, fresh_id), r),
        call_ensures(Handshake::stage, (&*final(handshake),), stage),
    ensures
        r is Err ==> stage is Failed,
        r is Ok && waiting is AwaitSession ==> stage is AwaitSources,
        r is Ok && waiting is AwaitSources ==> stage is AwaitStart,
        r is Ok && waiting is AwaitStart ==> stage is AwaitRemote,
        ({
            let call = if waiting is AwaitSession {
                PortalCall::CreateSession
            } else if waiting is AwaitSources {
                PortalCall::SelectSources
            } else {
                PortalCall::Start
            };
            let results = response->0.results@;
            let first = |key: Seq<char>|
                0 <= k < results.len() && results[k].0@ == key && forall|j: int|
                    0 <= j < k ==> (#[trigger] results[j]).0@ != key;
            let none = |key: Seq<char>|
                forall|j: int| 0 <= j < results.len() ==> (#[trigger] results[j]).0@ != key;
            let value = results[k].1;
            let granted = response is Some && response->0.code == 0;
            &&& response is None ==> r == Err::<PortalAction, PortalError>(
                PortalError::NoResponse(call),
            )
            &&& response is Some && response->0.code != 0 ==> r == Err::<PortalAction, PortalError>(
                PortalError::Refused(call, response->0.code),
            )
            &&& granted && waiting is AwaitSources ==> r is Ok
            &&& granted && waiting is AwaitSession && none("session_handle"@) ==> r == Err::<
                PortalAction,
                PortalError,
            >(PortalError::MissingSessionHandle)
            &&& granted && waiting is AwaitSession && first("session_handle"@) ==> match value {
                PortalValue::Scalar(PortalScalar::Text(s)) => if object_path(s@) {
                    r is Ok
                } else {
                    r == Err::<PortalAction, PortalError>(PortalError::SessionHandlePath)
                },
                PortalValue::Scalar(PortalScalar::Path(s)) => if object_path(s@) {
                    r is Ok
                } else {
                    r == Err::<PortalAction, PortalError>(PortalError::SessionHandlePath)
                },
                _ => r == Err::<PortalAction, PortalError>(PortalError::SessionHandleType),
            }
            &&& granted && waiting is AwaitStart && none("streams"@) ==> r == Err::<
                PortalAction,
                PortalError,
            >(PortalError::MissingStreams)
            &&& granted && waiting is AwaitStart && first("streams"@) && value is Streams ==> r is Ok
            &&& granted && waiting is AwaitStart && first("streams"@) && !(value is Streams) ==> r
                == Err::<PortalAction, PortalError>(PortalError::StreamsType)
        }),
{
    let results = response->0.results@;
    if waiting is AwaitSession {
        if 0 <= k < results.len() && results[k].0@ == "session_handle"@ && (forall|j: int|
            0 <= j < k ==> (#[trigger] results[j]).0@ != "session_handle"@) {
            first_entry_is_found(results, "session_handle"@, k);
        }
        if forall|j: int|
            0 <= j < results.len() ==> (#[trigger] results[j]).0@ != "session_handle"@ {
            absent_key_has_no_value(results, "session_handle"@);
        }
    }
    if waiting is AwaitStart {
        if 0 <= k < results.len() && results[k].0@ == "streams"@ && (forall|j: int|
            0 <= j < k ==> (#[trigger] results[j]).0@ != "streams"@) {
            first_entry_is_found(results, "streams"@, k);
        }
        if forall|j: int| 0 <= j < results.len() ==> (#[trigger] results[j]).0@ != "streams"@ {
            absent_key_has_no_value(results, "streams"@);
        }
    }
}

/// The connection of a session is handed out once; the session is otherwise left as it is.
pub proof fn connection_is_handed_out_once<F>(
    first: &mut PortalSession<F>,
    taken: Option<F>,
    second: &mut PortalSession<F>,
    taken_again: Option<F>,
)
    requires
        call_ensures(PortalSession::<F>::take_fd, (first,), taken),
        *old(second) == *final(first),
        call_ensures(PortalSession::<F>::take_fd, (second,), taken_again),
    ensures
        taken == old(first).fd,
        taken_again is None,
        final(second).session_handle@ == old(first).session_handle@,
        final(second).streams@ == old(first).streams@,
{
}

} // verus!
