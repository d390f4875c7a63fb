//! The NFC card enrollment session machine.
//!
//! A session is opened on one reader, then polled until a card is read or the
//! session is gone. Poll replies are first searched for two literal markers,
//! since the vendor sends those conditions in a shape other than the envelope.
use vstd::prelude::*;
use crate::json::{json_literal, json_literal_of, object_members, text_member, text_field};
use crate::model::{NfcCard, NfcCardView};
use crate::protocol::{
    decode_envelope, envelope_of, malformed, raw_outcome, request_raw, request_typed,
    typed_outcome, ClientError, ErrorView, FromJson,
};
use crate::request::{joined, ApiRequest, Method};
use crate::text::{contains_text, holds_text};

verus! {

/// Marker of a poll or end reply for a session that no longer exists.
pub const SESSION_NOT_FOUND: &'static str = "SESSION_NOT_FOUND";

/// Marker of a poll reply for a session whose reader has not read a card yet.
pub const TOKEN_EMPTY: &'static str = "TOKEN_EMPTY";

/// Milliseconds to wait between two polls.
pub const POLL_INTERVAL_MS: u64 = 100;

/// Path of the enrollment sessions.
pub const SESSIONS_PATH: &'static str = "/api/v1/developer/credentials/nfc_cards/sessions";

/// The reply to an open-session request.
#[derive(Debug, Clone)]
pub struct SessionTicket {
    pub session_id: String,
}

impl View for SessionTicket {
    type V = Seq<char>;

    open spec fn view(&self) -> Seq<char> {
        self.session_id@
    }
}

impl FromJson for SessionTicket {
    open spec fn decoded(text: Seq<char>) -> Option<Seq<char>> {
        match object_members(text) {
            Some(ms) => text_member(ms, "session_id"@),
            None => None,
        }
    }

    open spec fn shape() -> Seq<char> {
        "SessionTicket"@
    }

    fn from_json(text: &str) -> (r: Option<SessionTicket>) {
        match text_field(text, "session_id") {
            Some(s) => Some(SessionTicket { session_id: s }),
            None => None,
        }
    }

    fn shape_name() -> (r: String) {
        "SessionTicket".to_owned()
    }
}

pub open spec fn session_path(session_id: Seq<char>) -> Seq<char> {
    SESSIONS_PATH@ + "/"@ + session_id
}

pub open spec fn open_body(device_id: Seq<char>) -> Seq<char> {
    "{\"device_id\":"@ + json_literal_of(device_id) + ",\"reset_ua_card\":true}"@
}

/// The path of one enrollment session.
pub fn session_path_of(session_id: &str) -> (r: String)
    ensures
        r@ == session_path(session_id@),
{
    let mut s = joined(SESSIONS_PATH, "/");
    s.append(session_id);
    s
}

/// The request that opens a session on a reader; the reader's stored card
/// state is reset.
pub fn open_session_request(device_id: &str) -> (r: ApiRequest)
    ensures
        r.method is Post,
        r.path@ == SESSIONS_PATH@,
        r.body is Some && r.body->0@ == open_body(device_id@),
{
    let mut body = "{\"device_id\":".to_owned();
    let lit = json_literal(device_id);
    body.append(lit.as_str());
    body.append(",\"reset_ua_card\":true}");
    ApiRequest { method: Method::Post, path: SESSIONS_PATH.to_owned(), body: Some(body) }
}

/// The request that reads a session's status.
pub fn poll_request(session_id: &str) -> (r: ApiRequest)
    ensures
        r.method is Get,
        r.path@ == session_path(session_id@),
        r.body is None,
{
    ApiRequest { method: Method::Get, path: session_path_of(session_id), body: None }
}

/// The request that ends a session.
pub fn end_request(session_id: &str) -> (r: ApiRequest)
    ensures
        r.method is Delete,
        r.path@ == session_path(session_id@),
        r.body is None,
{
    ApiRequest { method: Method::Delete, path: session_path_of(session_id), body: None }
}

/// The session id from the reply to an open-session request.
pub fn session_from_reply(raw: &str) -> (r: Result<String, ClientError>)
    ensures
        match (r, typed_outcome::<SessionTicket>(SESSIONS_PATH@, raw@)) {
            (Ok(s), Ok(want)) => s@ == want,
            (Err(e), Err(want)) => e@ == want,
            _ => false,
        },
{
    let ticket = request_typed::<SessionTicket>(SESSIONS_PATH, raw)?;
    Ok(ticket.session_id)
}

/// What one poll of a session says.
#[derive(Debug, Clone)]
pub enum PollOutcome {
    /// No card has been read yet.
    Pending,
    /// The reader read this card.
    Resolved(NfcCard),
    /// The session is gone; polling must stop.
    Canceled,
}

pub enum PollView {
    Pending,
    Resolved(NfcCardView),
    Canceled,
}

impl View for PollOutcome {
    type V = PollView;

    open spec fn view(&self) -> PollView {
        match self {
            PollOutcome::Pending => PollView::Pending,
            PollOutcome::Resolved(c) => PollView::Resolved(c@),
            PollOutcome::Canceled => PollView::Canceled,
        }
    }
}

/// How a raw poll reply for the session at `path` is classified: the markers
/// first, then the envelope, whose payload must be a card.
pub open spec fn poll_outcome(path: Seq<char>, raw: Seq<char>) -> Result<PollView, ErrorView> {
    if holds_text(raw, SESSION_NOT_FOUND@) {
        Ok(PollView::Canceled)
    } else if holds_text(raw, TOKEN_EMPTY@) {
        Ok(PollView::Pending)
    } else {
        match envelope_of(raw) {
            None => Err(ErrorView::MalformedResponse { snippet: raw }),
            Some(env) => match env.data {
                None => Err(ErrorView::MalformedResponse { snippet: raw }),
                Some(d) => match NfcCard::decoded(d) {
                    Some(c) => Ok(PollView::Resolved(c)),
                    None => Err(ErrorView::SchemaMismatch { path, expected: NfcCard::shape() }),
                },
            },
        }
    }
}

/// Classifies a raw poll reply for the session at `path`.
pub fn classify_poll(path: &str, raw: &str) -> (r: Result<PollOutcome, ClientError>)
    ensures
        match (r, poll_outcome(path@, raw@)) {
            (Ok(o), Ok(want)) => o@ == want,
            (Err(e), Err(want)) => e@ == want,
            _ => false,
        },
{
    if contains_text(raw, SESSION_NOT_FOUND) {
        return Ok(PollOutcome::Canceled);
    }
    if contains_text(raw, TOKEN_EMPTY) {
        return Ok(PollOutcome::Pending);
    }
    let env = decode_envelope(raw)?;
    let data = match env.data {
        Some(d) => d,
        None => {
            return Err(malformed(raw));
        },
    };
    match NfcCard::from_json(data.as_str()) {
        Some(c) => Ok(PollOutcome::Resolved(c)),
        None => Err(
            ClientError::SchemaMismatch { path: path.to_owned(), expected: NfcCard::shape_name() },
        ),
    }
}

/// What ending a session makes of the reply: a session that is already gone
/// is no error.
pub open spec fn end_outcome(path: Seq<char>, raw: Seq<char>) -> Result<(), ErrorView> {
    if holds_text(raw, SESSION_NOT_FOUND@) {
        Ok(())
    } else {
        match raw_outcome(path, raw) {
            Ok(_) => Ok(()),
            Err(e) => Err(e),
        }
    }
}

/// The result of ending the session at `path`, from the raw reply.
pub fn end_session_result(path: &str, raw: &str) -> (r: Result<(), ClientError>)
    ensures
        match (r, end_outcome(path@, raw@)) {
            (Ok(_), Ok(_)) => true,
            (Err(e), Err(want)) => e@ == want,
            _ => false,
        },
{
    if contains_text(raw, SESSION_NOT_FOUND) {
        return Ok(());
    }
    request_raw(path, raw)?;
    Ok(())
}

/// Where an enrollment stands.
#[derive(Debug, Clone)]
pub enum EnrollState {
    /// The open-session request is under way.
    Opening,
    /// The session is open and is being polled.
    Polling { session_id: String },
    /// A card was read.
    Resolved { card: NfcCard },
    /// Opening or polling failed, or the session was canceled.
    Failed { error: ClientError },
    /// The session was ended on request before a card was read.
    Ended,
}

pub enum EnrollView {
    Opening,
    Polling { session_id: Seq<char> },
    Resolved { card: NfcCardView },
    Failed { error: ErrorView },
    Ended,
}

impl View for EnrollState {
    type V = EnrollView;

    open spec fn view(&self) -> EnrollView {
        match self {
            EnrollState::Opening => EnrollView::Opening,
            EnrollState::Polling { session_id } => EnrollView::Polling { session_id: session_id@ },
            EnrollState::Resolved { card } => EnrollView::Resolved { card: card@ },
            EnrollState::Failed { error } => EnrollView::Failed { error: error@ },
            EnrollState::Ended => EnrollView::Ended,
        }
    }
}

/// The state once the open-session reply has come.
pub open spec fn after_open(raw: Seq<char>) -> EnrollView {
    match typed_outcome::<SessionTicket>(SESSIONS_PATH@, raw) {
        Ok(session_id) => EnrollView::Polling { session_id },
        Err(error) => EnrollView::Failed { error },
    }
}

/// The state once a poll reply for the session has come.
pub open spec fn after_poll(session_id: Seq<char>, raw: Seq<char>) -> EnrollView {
    match poll_outcome(session_path(session_id), raw) {
        Ok(PollView::Pending) => EnrollView::Polling { session_id },
        Ok(PollView::Resolved(card)) => EnrollView::Resolved { card },
        Ok(PollView::Canceled) => EnrollView::Failed { error: ErrorView::SessionCanceled },
        Err(error) => EnrollView::Failed { error },
    }
}

/// The state once the reply to ending the session has come.
pub open spec fn after_end(session_id: Seq<char>, raw: Seq<char>) -> EnrollView {
    match end_outcome(session_path(session_id), raw) {
        Ok(_) => EnrollView::Ended,
        Err(error) => EnrollView::Failed { error },
    }
}

/// The state after feeding poll replies in order while the session is being
/// polled, and how many of them were used.
pub open spec fn replay(state: EnrollView, replies: Seq<Seq<char>>) -> (EnrollView, nat)
    decreases replies.len(),
{
    if replies.len() == 0 {
        (state, 0)
    } else {
        match state {
            EnrollView::Polling { session_id } => {
                let rest = replay(after_poll(session_id, replies[0]), replies.drop_first());
                (rest.0, rest.1 + 1)
            },
            _ => (state, 0),
        }
    }
}

/// One card enrollment on one reader.
#[derive(Debug, Clone)]
pub struct Enrollment {
    pub device_id: String,
    pub state: EnrollState,
}

impl Enrollment {
    /// An enrollment that is about to open its session.
    pub fn new(device_id: &str) -> (r: Enrollment)
        ensures
            r.device_id@ == device_id@,
            r.state is Opening,
    {
        Enrollment { device_id: device_id.to_owned(), state: EnrollState::Opening }
    }

    /// The request that opens the session.
    pub fn open_request(&self) -> (r: ApiRequest)
        ensures
            r.method is Post,
            r.path@ == SESSIONS_PATH@,
            r.body is Some && r.body->0@ == open_body(self.device_id@),
    {
        open_session_request(self.device_id.as_str())
    }

    /// Takes in the reply to the open-session request.
    pub fn on_open_reply(&mut self, raw: &str)
        requires
            old(self).state is Opening,
        ensures
            final(self).device_id == old(self).device_id,
            final(self).state@ == after_open(raw@),
    {
        self.state = match session_from_reply(raw) {
            Ok(session_id) => EnrollState::Polling { session_id },
            Err(error) => EnrollState::Failed { error },
        };
    }

    /// The open session, which another actor may end to cancel the enrollment.
    pub fn session_id(&self) -> (r: Option<String>)
        ensures
            match (r, self.state@) {
                (Some(s), EnrollView::Polling { session_id }) => s@ == session_id,
                (None, EnrollView::Polling { .. }) => false,
                (Some(_), _) => false,
                (None, _) => true,
            },
    {
        match &self.state {
            EnrollState::Polling { session_id } => Some(session_id.clone()),
            _ => None,
        }
    }

    /// Takes in the reply to one poll of the session.
    pub fn on_poll_reply(&mut self, raw: &str)
        requires
            old(self).state is Polling,
        ensures
            final(self).device_id == old(self).device_id,
            final(self).state@ == after_poll(old(self).state@->Polling_session_id, raw@),
    {
        let session_id = match &self.state {
            EnrollState::Polling { session_id } => session_id.clone(),
            _ => {
                return;
            },
        };
        let path = session_path_of(session_id.as_str());
        self.state = match classify_poll(path.as_str(), raw) {
            Ok(PollOutcome::Pending) => EnrollState::Polling { session_id },
            Ok(PollOutcome::Resolved(card)) => EnrollState::Resolved { card },
            Ok(PollOutcome::Canceled) => EnrollState::Failed { error: ClientError::SessionCanceled },
            Err(error) => EnrollState::Failed { error },
        };
    }

    /// The request that ends the open session.
    pub fn end_request(&self) -> (r: ApiRequest)
        requires
            self.state is Polling,
        ensures
            r.method is Delete,
            r.path@ == session_path(self.state@->Polling_session_id),
            r.body is None,
    {
        match &self.state {
            EnrollState::Polling { session_id } => end_request(session_id.as_str()),
            _ => end_request(""),
        }
    }

    /// Takes in the reply to ending the session; a session that is already
    /// gone counts as ended.
    pub fn on_end_reply(&mut self, raw: &str)
        requires
            old(self).state is Polling,
        ensures
            final(self).device_id == old(self).device_id,
            final(self).state@ == after_end(old(self).state@->Polling_session_id, raw@),
    {
        let session_id = match &self.state {
            EnrollState::Polling { session_id } => session_id.clone(),
            _ => {
                return;
            },
        };
        let path = session_path_of(session_id.as_str());
        self.state = match end_session_result(path.as_str(), raw) {
            Ok(()) => EnrollState::Ended,
            Err(error) => EnrollState::Failed { error },
        };
    }

    /// Whether no more polls are due.
    pub fn is_finished(&self) -> (r: bool)
        ensures
            r == !(self.state is Opening || self.state is Polling),
    {
        match self.state {
            EnrollState::Resolved { .. } => true,
            EnrollState::Failed { .. } => true,
            EnrollState::Ended => true,
            _ => false,
        }
    }

    /// The card, or why there is none; `None` while the enrollment goes on.
    /// An ended session counts as canceled.
    pub fn outcome(self) -> (r: Option<Result<NfcCard, ClientError>>)
        ensures
            match (r, self.state@) {
                (Some(Ok(c)), EnrollView::Resolved { card }) => c@ == card,
                (Some(Err(e)), EnrollView::Failed { error }) => e@ == error,
                (Some(Err(e)), EnrollView::Ended) => e@ == ErrorView::SessionCanceled,
                (None, EnrollView::Opening) => true,
                (None, EnrollView::Polling { .. }) => true,
                _ => false,
            },
    {
        match self.state {
            EnrollState::Resolved { card } => Some(Ok(card)),
            EnrollState::Failed { error } => Some(Err(error)),
            EnrollState::Ended => Some(Err(ClientError::SessionCanceled)),
            _ => None,
        }
    }
}

pub open spec fn texts_view(v: Seq<String>) -> Seq<Seq<char>> {
    v.map_values(|s: String| s@)
}

/// Runs a whole enrollment on recorded replies: the reply to the open-session
/// request, then the poll replies in order. Returns the enrollment and the
/// number of polls it made.
pub fn enroll_with_replies(device_id: &str, open_reply: &str, poll_replies: &Vec<String>) -> (r: (
    Enrollment,
    usize,
))
    ensures
        r.0.device_id@ == device_id@,
        (r.0.state@, r.1 as nat) == replay(after_open(open_reply@), texts_view(poll_replies@)),
{
    let mut e = Enrollment::new(device_id);
    e.on_open_reply(open_reply);
    let ghost start = e.state@;
    let ghost all = texts_view(poll_replies@);
    let mut i: usize = 0;
    assert(all.subrange(0, all.len() as int) =~= all);
    while i < poll_replies.len() && !e.is_finished()
        invariant
            i <= poll_replies@.len(),
            e.device_id@ == device_id@,
            start == after_open(open_reply@),
            all == texts_view(poll_replies@),
            !(e.state is Opening),
            replay(start, all).0 == replay(e.state@, all.subrange(i as int, all.len() as int)).0,
            replay(start, all).1 == replay(e.state@, all.subrange(i as int, all.len() as int)).1 + i,
        decreases poll_replies.len() - i,
    {
        let ghost rest = all.subrange(i as int, all.len() as int);
        assert(rest.drop_first() =~= all.subrange(i + 1, all.len() as int));
        assert(rest[0] == poll_replies@[i as int]@);
        e.on_poll_reply(poll_replies[i].as_str());
        i = i + 1;
    }
    proof {
        let rest = all.subrange(i as int, all.len() as int);
        if i < poll_replies@.len() {
            assert(rest.len() > 0);
        } else {
            assert(rest.len() == 0);
        }
    }
    (e, i)
}

} // verus!
