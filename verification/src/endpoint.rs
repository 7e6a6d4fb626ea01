//! The dispatch pipeline of one request, as a machine that decides and
//! never waits.
//!
//! The driver of the pipeline does what cannot be decided: it reads the
//! body, runs the context extractor, parses the request, calls the handler
//! and encodes the result. After each of these it tells the machine what
//! came of it, as an [`Event`], and the machine tells it what to do next, as
//! an [`Action`], with the values to do it with.

use crate::outside::{json_string, string_value};
use crate::parts::{declares_no_body, Parts};
use crate::reply::{
    error_response, outcome_view, reply_with, success_response, Error, Fault, FaultView, Reply,
    ReplyView, JSON,
};
use crate::status::StatusCode;
use vstd::prelude::*;

verus! {

/// What the pipeline of one request waits for.
pub enum Phase<C> {
    /// The body is being read.
    ReadBody {
        /// Whether the request is taken to have a body.
        has_body: bool,
    },
    /// The context extractor is running; the body has been read.
    ExtractContext {
        /// Whether the request is taken to have a body.
        has_body: bool,
        /// The bytes of the body.
        body: Seq<u8>,
    },
    /// The body is being parsed into a request value.
    ParseRequest {
        /// The context that the extractor made.
        context: C,
    },
    /// The handler is running.
    CallHandler,
    /// The result of the handler is being encoded.
    EncodeResult,
    /// The request has ended.
    Done,
}

/// What came of the driver's last step.
pub enum Event<C, Q, R> {
    /// The body was read to its end; these are its bytes.
    BodyRead(Vec<u8>),
    /// The body could not be read.
    BodyFailed,
    /// The extractor made a context.
    ContextReady(C),
    /// The extractor failed.
    ContextFailed(Error),
    /// The body parsed into a request value.
    RequestParsed(Q),
    /// The body did not parse; the text is the parser's message.
    RequestRejected(String),
    /// The handler returned a result.
    HandlerReturned(R),
    /// The handler failed.
    HandlerFailed(Error),
    /// The result was encoded into these bytes.
    ResultEncoded(Vec<u8>),
    /// The result could not be encoded; the text is the encoder's message.
    ResultUnencodable(String),
}

/// An event as plain values.
pub enum EventView<C, Q, R> {
    /// The body was read to its end; these are its bytes.
    BodyRead(Seq<u8>),
    /// The body could not be read.
    BodyFailed,
    /// The extractor made a context.
    ContextReady(C),
    /// The extractor failed.
    ContextFailed(Error),
    /// The body parsed into a request value.
    RequestParsed(Q),
    /// The body did not parse; the text is the parser's message.
    RequestRejected(Seq<char>),
    /// The handler returned a result.
    HandlerReturned(R),
    /// The handler failed.
    HandlerFailed(Error),
    /// The result was encoded into these bytes.
    ResultEncoded(Seq<u8>),
    /// The result could not be encoded; the text is the encoder's message.
    ResultUnencodable(Seq<char>),
}

impl<C, Q, R> View for Event<C, Q, R> {
    type V = EventView<C, Q, R>;

    open spec fn view(&self) -> EventView<C, Q, R> {
        match self {
            Event::BodyRead(body) => EventView::BodyRead(body@),
            Event::BodyFailed => EventView::BodyFailed,
            Event::ContextReady(context) => EventView::ContextReady(*context),
            Event::ContextFailed(error) => EventView::ContextFailed(*error),
            Event::RequestParsed(request) => EventView::RequestParsed(*request),
            Event::RequestRejected(text) => EventView::RequestRejected(text@),
            Event::HandlerReturned(result) => EventView::HandlerReturned(*result),
            Event::HandlerFailed(error) => EventView::HandlerFailed(*error),
            Event::ResultEncoded(bytes) => EventView::ResultEncoded(bytes@),
            Event::ResultUnencodable(text) => EventView::ResultUnencodable(text@),
        }
    }
}

/// What the driver is to do next, and with what.
pub enum Action<C, Q, R> {
    /// Run the context extractor.
    ExtractContext,
    /// Parse these bytes into a request value.
    ParseRequest {
        /// The bytes of the body.
        body: Vec<u8>,
    },
    /// Call the handler with this context and this request value; where
    /// there is none, with the default request value.
    CallHandler {
        /// The context that the extractor made.
        context: C,
        /// The request value that the body parsed into, if it was parsed.
        request: Option<Q>,
    },
    /// Encode this result.
    EncodeResult {
        /// The result that the handler returned.
        result: R,
    },
    /// End the request: send the reply, or report the fault.
    Finish(Result<Reply, Fault>),
}

/// An action as plain values.
pub enum ActionView<C, Q, R> {
    /// Run the context extractor.
    ExtractContext,
    /// Parse these bytes into a request value.
    ParseRequest {
        /// The bytes of the body.
        body: Seq<u8>,
    },
    /// Call the handler with this context and this request value; where
    /// there is none, with the default request value.
    CallHandler {
        /// The context that the extractor made.
        context: C,
        /// The request value that the body parsed into, if it was parsed.
        request: Option<Q>,
    },
    /// Encode this result.
    EncodeResult {
        /// The result that the handler returned.
        result: R,
    },
    /// End the request: send the reply, or report the fault.
    Finish(Result<ReplyView, FaultView>),
}

impl<C, Q, R> View for Action<C, Q, R> {
    type V = ActionView<C, Q, R>;

    open spec fn view(&self) -> ActionView<C, Q, R> {
        match self {
            Action::ExtractContext => ActionView::ExtractContext,
            Action::ParseRequest { body } => ActionView::ParseRequest { body: body@ },
            Action::CallHandler { context, request } => ActionView::CallHandler {
                context: *context,
                request: *request,
            },
            Action::EncodeResult { result } => ActionView::EncodeResult { result: *result },
            Action::Finish(outcome) => ActionView::Finish(outcome_view(*outcome)),
        }
    }
}

/// How the outcome of a handler becomes the end of a request: a failure is
/// reported with its own status and payload, an encoded result is sent with
/// status 200, and a result that cannot be encoded is reported with status
/// 500 and the encoder's message.
pub open spec fn served(outcome: Result<Result<Seq<u8>, Seq<char>>, Error>) -> Result<
    ReplyView,
    FaultView,
> {
    match outcome {
        Err(error) => reply_with(error.code, error.msg),
        Ok(Ok(body)) => Ok(ReplyView { status: StatusCode::Okay, content_type: JSON@, body }),
        Ok(Err(text)) => reply_with(StatusCode::InternalServerError, json_string(text)),
    }
}

/// The rule of the pipeline: what follows in a phase on an event. An event
/// that the phase does not wait for has nothing follow.
pub open spec fn next<C, Q, R>(phase: Phase<C>, event: EventView<C, Q, R>) -> Option<
    (Phase<C>, ActionView<C, Q, R>),
> {
    match (phase, event) {
        (Phase::ReadBody { has_body }, EventView::BodyRead(body)) => Some(
            (Phase::ExtractContext { has_body, body }, ActionView::ExtractContext),
        ),
        (Phase::ReadBody { .. }, EventView::BodyFailed) => Some(
            (Phase::Done, ActionView::Finish(Err(FaultView::BodyUnreadable))),
        ),
        (Phase::ExtractContext { has_body, body }, EventView::ContextReady(context)) => Some(
            if has_body {
                (Phase::ParseRequest { context }, ActionView::ParseRequest { body })
            } else {
                (Phase::CallHandler, ActionView::CallHandler { context, request: None })
            },
        ),
        (Phase::ExtractContext { .. }, EventView::ContextFailed(error)) => Some(
            (Phase::Done, ActionView::Finish(reply_with(error.code, error.msg))),
        ),
        (Phase::ParseRequest { context }, EventView::RequestParsed(request)) => Some(
            (Phase::CallHandler, ActionView::CallHandler { context, request: Some(request) }),
        ),
        (Phase::ParseRequest { .. }, EventView::RequestRejected(text)) => Some(
            (
                Phase::Done,
                ActionView::Finish(reply_with(StatusCode::BadRequest, json_string(text))),
            ),
        ),
        (Phase::CallHandler, EventView::HandlerReturned(result)) => Some(
            (Phase::EncodeResult, ActionView::EncodeResult { result }),
        ),
        (Phase::CallHandler, EventView::HandlerFailed(error)) => Some(
            (Phase::Done, ActionView::Finish(served(Err(error)))),
        ),
        (Phase::EncodeResult, EventView::ResultEncoded(body)) => Some(
            (Phase::Done, ActionView::Finish(served(Ok(Ok(body))))),
        ),
        (Phase::EncodeResult, EventView::ResultUnencodable(text)) => Some(
            (Phase::Done, ActionView::Finish(served(Ok(Err(text))))),
        ),
        _ => None,
    }
}

/// Turns the outcome of a handler into the end of a request.
pub fn service(outcome: Result<Result<Vec<u8>, String>, Error>) -> (end: Result<Reply, Fault>)
    ensures
        outcome_view(end) == served(
            match outcome {
                Ok(Ok(body)) => Ok(Ok(body@)),
                Ok(Err(text)) => Ok(Err(text@)),
                Err(error) => Err(error),
            },
        ),
{
    match outcome {
        Err(error) => error_response(&error.msg, error.code),
        Ok(Ok(body)) => Ok(success_response(body)),
        Ok(Err(text)) => {
            let payload = string_value(text.as_str());
            error_response(&payload, StatusCode::InternalServerError)
        },
    }
}

enum Stage<C> {
    ReadBody { has_body: bool },
    ExtractContext { has_body: bool, body: Vec<u8> },
    ParseRequest { context: C },
    CallHandler,
    EncodeResult,
    Done,
}

/// The pipeline of one request.
pub struct Endpoint<C> {
    stage: Stage<C>,
}

impl<C> View for Endpoint<C> {
    type V = Phase<C>;

    closed spec fn view(&self) -> Phase<C> {
        match self.stage {
            Stage::ReadBody { has_body } => Phase::ReadBody { has_body },
            Stage::ExtractContext { has_body, body } => Phase::ExtractContext {
                has_body,
                body: body@,
            },
            Stage::ParseRequest { context } => Phase::ParseRequest { context },
            Stage::CallHandler => Phase::CallHandler,
            Stage::EncodeResult => Phase::EncodeResult,
            Stage::Done => Phase::Done,
        }
    }
}

impl<C> Endpoint<C> {
    /// The pipeline of a request whose head has arrived. It waits for the
    /// body to be read, which the driver does first, whether the request
    /// is taken to have a body or not.
    pub fn new(parts: &Parts) -> (endpoint: Self)
        ensures
            endpoint@ == (Phase::<C>::ReadBody { has_body: !declares_no_body(parts@.headers) }),
    {
        Endpoint { stage: Stage::ReadBody { has_body: parts.has_body() } }
    }

    /// Tells whether the request has ended.
    pub fn is_done(&self) -> (done: bool)
        ensures
            done == (self@ is Done),
    {
        match self.stage {
            Stage::Done => true,
            _ => false,
        }
    }

    /// Takes the pipeline one step on: given what came of the driver's
    /// last step, says what the driver is to do next. An event that the
    /// pipeline does not wait for ends it with nothing to do.
    pub fn step<Q, R>(self, event: Event<C, Q, R>) -> (following: Option<(Self, Action<C, Q, R>)>)
        ensures
            match next(self@, event@) {
                Some((phase, action)) => following matches Some((endpoint, asked)) && endpoint@
                    == phase && asked@ == action,
                None => following is None,
            },
    {
        match (self.stage, event) {
            (Stage::ReadBody { has_body }, Event::BodyRead(body)) => Some(
                (
                    Endpoint { stage: Stage::ExtractContext { has_body, body } },
                    Action::ExtractContext,
                ),
            ),
            (Stage::ReadBody { has_body: _ }, Event::BodyFailed) => Some(
                (Endpoint { stage: Stage::Done }, Action::Finish(Err(Fault::BodyUnreadable))),
            ),
            (Stage::ExtractContext { has_body, body }, Event::ContextReady(context)) => {
                if has_body {
                    Some(
                        (
                            Endpoint { stage: Stage::ParseRequest { context } },
                            Action::ParseRequest { body },
                        ),
                    )
                } else {
                    Some(
                        (
                            Endpoint { stage: Stage::CallHandler },
                            Action::CallHandler { context, request: None },
                        ),
                    )
                }
            },
            (Stage::ExtractContext { has_body: _, body: _ }, Event::ContextFailed(error)) => Some(
                (
                    Endpoint { stage: Stage::Done },
                    Action::Finish(error_response(&error.msg, error.code)),
                ),
            ),
            (Stage::ParseRequest { context }, Event::RequestParsed(request)) => Some(
                (
                    Endpoint { stage: Stage::CallHandler },
                    Action::CallHandler { context, request: Some(request) },
                ),
            ),
            (Stage::ParseRequest { context: _ }, Event::RequestRejected(text)) => {
                let payload = string_value(text.as_str());
                Some(
                    (
                        Endpoint { stage: Stage::Done },
                        Action::Finish(error_response(&payload, StatusCode::BadRequest)),
                    ),
                )
            },
            (Stage::CallHandler, Event::HandlerReturned(result)) => Some(
                (Endpoint { stage: Stage::EncodeResult }, Action::EncodeResult { result }),
            ),
            (Stage::CallHandler, Event::HandlerFailed(error)) => Some(
                (Endpoint { stage: Stage::Done }, Action::Finish(service(Err(error)))),
            ),
            (Stage::EncodeResult, Event::ResultEncoded(body)) => Some(
                (Endpoint { stage: Stage::Done }, Action::Finish(service(Ok(Ok(body))))),
            ),
            (Stage::EncodeResult, Event::ResultUnencodable(text)) => Some(
                (Endpoint { stage: Stage::Done }, Action::Finish(service(Ok(Err(text))))),
            ),
            _ => None,
        }
    }
}

/// What a pipeline asks of its driver, step by step, as the events of a run
/// come in. The run ends at the first event that the pipeline does not wait
/// for.
pub open spec fn actions<C, Q, R>(phase: Phase<C>, events: Seq<EventView<C, Q, R>>) -> Seq<
    ActionView<C, Q, R>,
>
    decreases events.len(),
{
    if events.len() == 0 {
        Seq::empty()
    } else {
        match next(phase, events[0]) {
            Some((following, action)) => seq![action] + actions(following, events.drop_first()),
            None => Seq::empty(),
        }
    }
}

/// Whether a phase can only be reached, or left behind, without the body
/// ever being parsed.
pub open spec fn unparsed<C>(phase: Phase<C>) -> bool {
    match phase {
        Phase::ReadBody { has_body } => !has_body,
        Phase::ExtractContext { has_body, .. } => !has_body,
        Phase::ParseRequest { .. } => false,
        _ => true,
    }
}

/// From a phase in which the request is taken to have no body, no run of
/// events has the body parsed, and every call of the handler is made with
/// the default request value.
pub proof fn lemma_unparsed_stays_unparsed<C, Q, R>(
    phase: Phase<C>,
    events: Seq<EventView<C, Q, R>>,
    i: int,
)
    requires
        unparsed(phase),
        0 <= i < actions(phase, events).len(),
    ensures
        !(actions(phase, events)[i] is ParseRequest),
        actions(phase, events)[i] matches ActionView::CallHandler { request, .. }
            ==> request is None,
    decreases events.len(),
{
    let (following, action) = next(phase, events[0])->0;
    if i > 0 {
        lemma_unparsed_stays_unparsed(following, events.drop_first(), i - 1);
    }
}

/// A request that declares a body of length zero never has its body
/// parsed, and its handler, where it is called, gets the default request
/// value.
pub proof fn lemma_declared_empty_body_is_never_parsed<C, Q, R>(
    headers: Seq<(Seq<char>, Seq<char>)>,
    events: Seq<EventView<C, Q, R>>,
    i: int,
)
    requires
        declares_no_body(headers),
        0 <= i < actions(
            Phase::<C>::ReadBody { has_body: !declares_no_body(headers) },
            events,
        ).len(),
    ensures
        ({
            let action = actions(
                Phase::<C>::ReadBody { has_body: !declares_no_body(headers) },
                events,
            )[i];
            &&& !(action is ParseRequest)
            &&& action matches ActionView::CallHandler { request, .. } ==> request is None
        }),
{
    lemma_unparsed_stays_unparsed(
        Phase::<C>::ReadBody { has_body: !declares_no_body(headers) },
        events,
        i,
    );
}

/// Once a request has ended, nothing more is asked of the driver.
pub proof fn lemma_done_is_final<C, Q, R>(events: Seq<EventView<C, Q, R>>)
    ensures
        actions(Phase::<C>::Done, events) == Seq::<ActionView<C, Q, R>>::empty(),
{
}

/// A body that does not parse ends the request with status 400 and the
/// parser's message, encoded as a JSON string, for a body. Whatever comes
/// after, the handler is not called.
pub proof fn lemma_unparsable_body_is_rejected<C, Q, R>(
    context: C,
    text: Seq<char>,
    rest: Seq<EventView<C, Q, R>>,
)
    ensures
        actions(Phase::ParseRequest { context }, seq![EventView::RequestRejected(text)] + rest)
            == seq![
            ActionView::<C, Q, R>::Finish(reply_with(StatusCode::BadRequest, json_string(text))),
        ],
{
    let events = seq![EventView::<C, Q, R>::RequestRejected(text)] + rest;
    assert(events.drop_first() =~= rest);
    lemma_done_is_final::<C, Q, R>(rest);
}

/// A failure of the context extractor ends the request with the status and
/// the payload that the extractor chose. Whatever comes after, the body is
/// not parsed and the handler is not called.
pub proof fn lemma_context_failure_ends_request<C, Q, R>(
    has_body: bool,
    body: Seq<u8>,
    error: Error,
    rest: Seq<EventView<C, Q, R>>,
)
    ensures
        actions(
            Phase::<C>::ExtractContext { has_body, body },
            seq![EventView::ContextFailed(error)] + rest,
        ) == seq![ActionView::<C, Q, R>::Finish(reply_with(error.code, error.msg))],
{
    let events = seq![EventView::<C, Q, R>::ContextFailed(error)] + rest;
    assert(events.drop_first() =~= rest);
    lemma_done_is_final::<C, Q, R>(rest);
}

/// A handler that returns a result has that result encoded, and the
/// encoding sent with status 200 as the body of a JSON reply.
pub proof fn lemma_result_is_sent<C, Q, R>(
    result: R,
    encoded: Seq<u8>,
    rest: Seq<EventView<C, Q, R>>,
)
    ensures
        actions(
            Phase::<C>::CallHandler,
            seq![EventView::HandlerReturned(result), EventView::ResultEncoded(encoded)] + rest,
        ) == seq![
            ActionView::<C, Q, R>::EncodeResult { result },
            ActionView::Finish(
                Ok(ReplyView { status: StatusCode::Okay, content_type: JSON@, body: encoded }),
            ),
        ],
{
    let events = seq![
        EventView::<C, Q, R>::HandlerReturned(result),
        EventView::ResultEncoded(encoded),
    ] + rest;
    let tail = seq![EventView::<C, Q, R>::ResultEncoded(encoded)] + rest;
    assert(events.drop_first() =~= tail);
    assert(tail.drop_first() =~= rest);
    lemma_done_is_final::<C, Q, R>(rest);
    assert(actions(Phase::<C>::EncodeResult, tail) =~= seq![
        ActionView::<C, Q, R>::Finish(
            Ok(ReplyView { status: StatusCode::Okay, content_type: JSON@, body: encoded }),
        ),
    ]);
}

} // verus!
