//! The TLS traffic between the Veracruz server and the Runtime Manager: the
//! decisions between the exchanges with the enclave. The caller performs
//! each exchange and feeds back the enclave's response.

use vstd::prelude::*;
use crate::runtime_manager::{RuntimeManagerRequest, RuntimeManagerResponse, Status, VeracruzServerError};

verus! {

/// The session that the enclave opened, read from its response to
/// `NewTlsSession`.
pub fn tls_session_from_response(response: RuntimeManagerResponse) -> (r: Result<u32, VeracruzServerError>)
    ensures
        match response {
            RuntimeManagerResponse::TlsSession(session_id) => r == Ok::<u32, VeracruzServerError>(session_id),
            other => r == Err::<u32, VeracruzServerError>(VeracruzServerError::InvalidRuntimeManagerResponse(other)),
        },
{
    match response {
        RuntimeManagerResponse::TlsSession(session_id) => Ok(session_id),
        other => Err(VeracruzServerError::InvalidRuntimeManagerResponse(other)),
    }
}

/// Where handing TLS data to a session, and collecting what the session
/// sends back, stands.
#[derive(Debug)]
pub enum TlsDataExchange {
    /// The data was sent; the enclave's status is awaited.
    AwaitingSendStatus { session_id: u32 },
    /// Outgoing data is being collected: `active` says whether every chunk
    /// so far reported the session alive, `chunks` holds them in order.
    Collecting { session_id: u32, active: bool, chunks: Vec<Vec<u8>> },
    /// The exchange is over.
    Finished,
}

/// What the caller is to do next.
#[derive(Debug)]
pub enum TlsDataAction {
    Send(RuntimeManagerRequest),
    /// The exchange is over: whether the session is still active, and the
    /// chunks of outgoing data, if there were any.
    Done(bool, Option<Vec<Vec<u8>>>),
    Fail(VeracruzServerError),
}

/// `after` and `action` are what the exchange in `before` goes to on
/// `response`.
pub open spec fn tls_data_step(
    before: TlsDataExchange,
    response: RuntimeManagerResponse,
    after: TlsDataExchange,
    action: TlsDataAction,
) -> bool {
    match before {
        TlsDataExchange::AwaitingSendStatus { session_id } => match response {
            RuntimeManagerResponse::Status(Status::Success) => {
                &&& after matches TlsDataExchange::Collecting { session_id: s, active, chunks }
                    && s == session_id && active && chunks@.len() == 0
                &&& action == TlsDataAction::Send(RuntimeManagerRequest::GetTlsData(session_id))
            },
            RuntimeManagerResponse::Status(status) => {
                &&& after is Finished
                &&& action == TlsDataAction::Fail(VeracruzServerError::Status(status))
            },
            other => {
                &&& after is Finished
                &&& action == TlsDataAction::Fail(
                    VeracruzServerError::InvalidRuntimeManagerResponse(other),
                )
            },
        },
        TlsDataExchange::Collecting { session_id, active, chunks } => match response {
            RuntimeManagerResponse::TlsData(data, alive) => if data@.len() == 0 {
                &&& after is Finished
                &&& action == TlsDataAction::Done(
                    active && alive,
                    if chunks@.len() == 0 { None } else { Some(chunks) },
                )
            } else {
                &&& after matches TlsDataExchange::Collecting { session_id: s, active: a, chunks: c }
                    && s == session_id && a == (active && alive) && c@ == chunks@.push(data)
                &&& action == TlsDataAction::Send(RuntimeManagerRequest::GetTlsData(session_id))
            },
            _ => {
                &&& after is Finished
                &&& action == TlsDataAction::Fail(VeracruzServerError::Status(Status::Fail))
            },
        },
        TlsDataExchange::Finished => false,
    }
}

impl TlsDataExchange {
    /// Starts handing `input` to the session `session_id`: the request to
    /// send, and the exchange waiting for the enclave's status.
    pub fn start(session_id: u32, input: Vec<u8>) -> (res: (TlsDataExchange, RuntimeManagerRequest))
        ensures
            res.0 == (TlsDataExchange::AwaitingSendStatus { session_id }),
            res.1 == RuntimeManagerRequest::SendTlsData(session_id, input),
    {
        (TlsDataExchange::AwaitingSendStatus { session_id }, RuntimeManagerRequest::SendTlsData(session_id, input))
    }

    /// Takes in the enclave's response and decides the next step.
    pub fn on_response(self, response: RuntimeManagerResponse) -> (res: (TlsDataExchange, TlsDataAction))
        requires
            !(self is Finished),
        ensures
            tls_data_step(self, response, res.0, res.1),
    {
        match self {
            TlsDataExchange::AwaitingSendStatus { session_id } => match response {
                RuntimeManagerResponse::Status(Status::Success) => (
                    TlsDataExchange::Collecting { session_id, active: true, chunks: Vec::new() },
                    TlsDataAction::Send(RuntimeManagerRequest::GetTlsData(session_id)),
                ),
                RuntimeManagerResponse::Status(status) => (
                    TlsDataExchange::Finished,
                    TlsDataAction::Fail(VeracruzServerError::Status(status)),
                ),
                other => (
                    TlsDataExchange::Finished,
                    TlsDataAction::Fail(VeracruzServerError::InvalidRuntimeManagerResponse(other)),
                ),
            },
            TlsDataExchange::Collecting { session_id, active, chunks } => match response {
                RuntimeManagerResponse::TlsData(data, alive) => {
                    let active = active && alive;
                    if data.len() == 0 {
                        let collected = if chunks.len() == 0 {
                            None
                        } else {
                            Some(chunks)
                        };
                        (TlsDataExchange::Finished, TlsDataAction::Done(active, collected))
                    } else {
                        let mut chunks = chunks;
                        chunks.push(data);
                        (
                            TlsDataExchange::Collecting { session_id, active, chunks },
                            TlsDataAction::Send(RuntimeManagerRequest::GetTlsData(session_id)),
                        )
                    }
                },
                _ => (
                    TlsDataExchange::Finished,
                    TlsDataAction::Fail(VeracruzServerError::Status(Status::Fail)),
                ),
            },
            TlsDataExchange::Finished => unreached(),
        }
    }
}

/// The data of a `TlsData` response.
pub open spec fn tls_data_of(response: RuntimeManagerResponse) -> Vec<u8> {
    match response {
        RuntimeManagerResponse::TlsData(data, _) => data,
        _ => arbitrary(),
    }
}

/// Whether every one of the first `k` responses reported the session alive.
pub open spec fn all_alive(responses: Seq<RuntimeManagerResponse>, k: int) -> bool {
    forall|j: int| 0 <= j < k ==> (#[trigger] responses[j] matches RuntimeManagerResponse::TlsData(_, alive) && alive)
}

/// The data of the first `k` responses, in order.
pub open spec fn collected_data(responses: Seq<RuntimeManagerResponse>, k: int) -> Seq<Vec<u8>> {
    Seq::new(k as nat, |j: int| tls_data_of(responses[j]))
}

/// `states` and `actions` record a collection of outgoing TLS data on the
/// session `session_id` that was answered by `responses`: chunks of data, all
/// but the last one non-empty, and the last one empty.
pub open spec fn is_collection_run(
    session_id: u32,
    states: Seq<TlsDataExchange>,
    responses: Seq<RuntimeManagerResponse>,
    actions: Seq<TlsDataAction>,
) -> bool {
    let n = responses.len();
    &&& n >= 1
    &&& states.len() == n + 1
    &&& actions.len() == n
    &&& states[0] matches TlsDataExchange::Collecting { session_id: s, active, chunks }
        && s == session_id && active && chunks@.len() == 0
    &&& forall|i: int| 0 <= i < n ==> tls_data_step(#[trigger] states[i], responses[i], states[i + 1], actions[i])
    &&& forall|i: int| 0 <= i < n ==> #[trigger] responses[i] is TlsData
    &&& forall|i: int| 0 <= i < n - 1 ==> #[trigger] tls_data_of(responses[i])@.len() > 0
    &&& tls_data_of(responses[n - 1])@.len() == 0
}

proof fn lemma_collecting_holds_chunks(
    session_id: u32,
    states: Seq<TlsDataExchange>,
    responses: Seq<RuntimeManagerResponse>,
    actions: Seq<TlsDataAction>,
    k: int,
)
    requires
        is_collection_run(session_id, states, responses, actions),
        0 <= k < responses.len(),
    ensures
        states[k] matches TlsDataExchange::Collecting { session_id: s, active, chunks }
            && s == session_id && active == all_alive(responses, k) && chunks@ == collected_data(responses, k),
    decreases k,
{
    if k > 0 {
        lemma_collecting_holds_chunks(session_id, states, responses, actions, k - 1);
        assert(tls_data_step(states[k - 1], responses[k - 1], states[k], actions[k - 1]));
        assert(responses[k - 1] is TlsData);
        assert(tls_data_of(responses[k - 1])@.len() > 0);
        assert(collected_data(responses, k) =~= collected_data(responses, k - 1).push(tls_data_of(responses[k - 1])));
    } else {
        assert(collected_data(responses, 0) =~= Seq::<Vec<u8>>::empty());
    }
}

/// Collecting outgoing TLS data gives back exactly the non-empty chunks that
/// the enclave sent, in the order it sent them (nothing when the first chunk
/// is already empty), and reports the session active only if every chunk,
/// the final empty one included, reported it alive.
pub proof fn lemma_collection_outcome(
    session_id: u32,
    states: Seq<TlsDataExchange>,
    responses: Seq<RuntimeManagerResponse>,
    actions: Seq<TlsDataAction>,
)
    requires
        is_collection_run(session_id, states, responses, actions),
    ensures
        ({
            let n = responses.len() as int;
            &&& actions[n - 1] matches TlsDataAction::Done(active, collected)
            &&& actions[n - 1]->Done_0 == all_alive(responses, n)
            &&& n == 1 ==> actions[n - 1]->Done_1 is None
            &&& n > 1 ==> (actions[n - 1]->Done_1 matches Some(c) && c@ == collected_data(responses, n - 1))
        }),
{
    let n = responses.len() as int;
    lemma_collecting_holds_chunks(session_id, states, responses, actions, n - 1);
    assert(tls_data_step(states[n - 1], responses[n - 1], states[n], actions[n - 1]));
    assert(responses[n - 1] is TlsData);
    assert(collected_data(responses, n - 1).len() == n - 1);
}

} // verus!
