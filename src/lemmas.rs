//! What holds of the request layers and the enrollment machine over all inputs.
use vstd::prelude::*;
use crate::json::json_node_of;
use crate::protocol::{envelope_of, raw_outcome, typed_outcome, ErrorView, FromJson, SUCCESS_CODE};
use crate::enrollment::{
    after_poll, end_outcome, poll_outcome, replay, session_path, EnrollView, PollView,
    SESSION_NOT_FOUND, TOKEN_EMPTY,
};
use crate::text::holds_text;

verus! {

/// A successful envelope whose payload decodes as `T` gives that value, and
/// no error.
pub proof fn lemma_success_gives_payload<T: FromJson>(path: Seq<char>, raw: Seq<char>)
    requires
        envelope_of(raw) is Some,
        envelope_of(raw)->0.code == SUCCESS_CODE@,
        envelope_of(raw)->0.data is Some,
        T::decoded(envelope_of(raw)->0.data->0) is Some,
    ensures
        typed_outcome::<T>(path, raw) == Ok::<T::V, ErrorView>(
            T::decoded(envelope_of(raw)->0.data->0)->0,
        ),
        raw_outcome(path, raw) == Ok::<Option<Seq<char>>, ErrorView>(envelope_of(raw)->0.data),
{
}

/// An envelope with any other status code fails both layers with `ApiError`,
/// carrying the envelope's message, whether or not it has a payload.
pub proof fn lemma_failure_code_is_api_error<T: FromJson>(path: Seq<char>, raw: Seq<char>)
    requires
        envelope_of(raw) is Some,
        envelope_of(raw)->0.code != SUCCESS_CODE@,
    ensures
        raw_outcome(path, raw) == Err::<Option<Seq<char>>, ErrorView>(
            ErrorView::ApiError { path, message: envelope_of(raw)->0.msg },
        ),
        typed_outcome::<T>(path, raw) == Err::<T::V, ErrorView>(
            ErrorView::ApiError { path, message: envelope_of(raw)->0.msg },
        ),
{
}

/// A successful envelope without a payload: the typed layer fails with
/// `MissingData`, the untyped one returns no payload.
pub proof fn lemma_success_without_payload<T: FromJson>(path: Seq<char>, raw: Seq<char>)
    requires
        envelope_of(raw) is Some,
        envelope_of(raw)->0.code == SUCCESS_CODE@,
        envelope_of(raw)->0.data is None,
    ensures
        typed_outcome::<T>(path, raw) == Err::<T::V, ErrorView>(ErrorView::MissingData { path }),
        raw_outcome(path, raw) == Ok::<Option<Seq<char>>, ErrorView>(None),
{
}

/// A poll reply that is not JSON and holds neither marker is a
/// `MalformedResponse`, never `Pending`.
pub proof fn lemma_unreadable_poll_is_malformed(path: Seq<char>, raw: Seq<char>)
    requires
        json_node_of(raw) is None,
        !holds_text(raw, SESSION_NOT_FOUND@),
        !holds_text(raw, TOKEN_EMPTY@),
    ensures
        poll_outcome(path, raw) == Err::<PollView, ErrorView>(
            ErrorView::MalformedResponse { snippet: raw },
        ),
{
}

/// Ending a session that the server reports as not found is no error.
pub proof fn lemma_end_tolerates_missing_session(path: Seq<char>, raw: Seq<char>)
    requires
        holds_text(raw, SESSION_NOT_FOUND@),
    ensures
        end_outcome(path, raw) is Ok,
{
}

/// No poll follows a reply that holds the session-not-found marker.
pub proof fn lemma_no_poll_after_not_found(session_id: Seq<char>, replies: Seq<Seq<char>>, k: int)
    requires
        0 <= k < replies.len(),
        holds_text(replies[k], SESSION_NOT_FOUND@),
    ensures
        replay(EnrollView::Polling { session_id }, replies).1 <= k + 1,
    decreases k,
{
    let next = after_poll(session_id, replies[0]);
    let rest = replies.drop_first();
    if next is Polling {
        assert(k != 0);
        assert(rest[k - 1] == replies[k]);
        lemma_no_poll_after_not_found(next->Polling_session_id, rest, k - 1);
    } else {
        if rest.len() > 0 {
            assert(replay(next, rest).1 == 0);
        }
    }
}

/// Polling that has only seen pending replies, then meets the
/// session-not-found marker, ends with `SessionCanceled` after exactly that
/// reply.
pub proof fn lemma_not_found_cancels(session_id: Seq<char>, replies: Seq<Seq<char>>, k: int)
    requires
        0 <= k < replies.len(),
        holds_text(replies[k], SESSION_NOT_FOUND@),
        forall|j: int|
            0 <= j < k ==> poll_outcome(session_path(session_id), #[trigger] replies[j])
                == Ok::<PollView, ErrorView>(PollView::Pending),
    ensures
        replay(EnrollView::Polling { session_id }, replies) == (
            EnrollView::Failed { error: ErrorView::SessionCanceled },
            (k + 1) as nat,
        ),
    decreases k,
{
    let rest = replies.drop_first();
    if k == 0 {
        let next = after_poll(session_id, replies[0]);
        assert(next == EnrollView::Failed { error: ErrorView::SessionCanceled });
        if rest.len() > 0 {
            assert(replay(next, rest) == (next, 0nat));
        }
    } else {
        assert(poll_outcome(session_path(session_id), replies[0]) == Ok::<PollView, ErrorView>(
            PollView::Pending,
        ));
        assert(rest[k - 1] == replies[k]);
        assert forall|j: int| 0 <= j < k - 1 implies poll_outcome(
            session_path(session_id),
            #[trigger] rest[j],
        ) == Ok::<PollView, ErrorView>(PollView::Pending) by {
            assert(rest[j] == replies[j + 1]);
        }
        lemma_not_found_cancels(session_id, rest, k - 1);
    }
}

} // verus!
