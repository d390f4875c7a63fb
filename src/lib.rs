//! A typed client core for a physical-access-control REST API: the response
//! classifier, the envelope decoder, typed payload decoding, the NFC card
//! enrollment session machine and the requests of the one-shot operations.
//! Sending requests and waiting between polls are left to the caller.
pub mod json;
pub mod text;
pub mod protocol;
pub mod model;
pub mod request;
pub mod enrollment;
pub mod lemmas;
pub mod ops;

pub use enrollment::{
    classify_poll, end_request, end_session_result, enroll_with_replies, open_session_request,
    poll_request, session_from_reply, session_path_of, EnrollState, Enrollment, PollOutcome,
    SessionTicket, POLL_INTERVAL_MS, SESSIONS_PATH, SESSION_NOT_FOUND, TOKEN_EMPTY,
};
pub use model::{AccessPolicy, Device, NfcCard, SystemLogTopic, User, UsersResponse};
pub use protocol::{decode_envelope, request_raw, request_typed, ClientError, Envelope, FromJson, List};
pub use request::{request_url, ApiRequest, Method};
