//! The handling of one addition request, step by step.
//!
//! A request that was decoded goes through four stages: a connection is
//! checked out of the pool, the delay statement runs on it, the addition runs
//! on it, and the sum is written as JSON. The caller does the work of each
//! stage and reports how it ended; [`AddRequest::render_response`] answers
//! with the next stage and what to do in it. A failure at any stage ends the
//! request at once: nothing is tried twice.

use vstd::prelude::*;
use crate::decode::{
    AddRequest, DecodeError, Field, Name, decoded, incomplete_query_is_refused, named, present,
};
use crate::number::Real;
use crate::response::{Response, ResponseView, STATUS_OK, failure_response, result_response};

verus! {

/// Why no connection could be checked out of the pool.
#[derive(Clone, Copy, Debug, PartialEq, Eq, Structural)]
pub enum PoolError {
    /// No connection became free within the connect timeout.
    Timeout,
    /// The pool hands out no more connections.
    Exhausted,
    /// The backend could not be reached.
    ConnectionFailed,
}

/// A statement that the service runs on its connection.
#[derive(Clone, Copy, Debug, PartialEq, Eq, Structural)]
pub enum Statement {
    /// Sleeps for half a second, so that requests overlap in time.
    Delay,
    /// Adds the two operands and returns the sum as the only column of the
    /// only row.
    Add { x: Real, y: Real },
}

/// A statement failed.
#[derive(Clone, Debug, PartialEq, Eq)]
pub struct QueryError {
    /// The statement that failed.
    pub statement: Statement,
    /// What the backend said.
    pub cause: String,
}

/// Why a request could not be served.
#[derive(Clone, Debug, PartialEq, Eq)]
pub enum ServiceError {
    Decode(DecodeError),
    Pool(PoolError),
    Query(QueryError),
    /// The sum could not be written as JSON.
    Encode,
}

/// A failure as a plain value.
pub enum ServiceErrorView {
    Decode(DecodeError),
    Pool(PoolError),
    Query { statement: Statement, cause: Seq<char> },
    Encode,
}

impl View for ServiceError {
    type V = ServiceErrorView;

    open spec fn view(&self) -> ServiceErrorView {
        match self {
            ServiceError::Decode(e) => ServiceErrorView::Decode(*e),
            ServiceError::Pool(e) => ServiceErrorView::Pool(*e),
            ServiceError::Query(e) => ServiceErrorView::Query {
                statement: e.statement,
                cause: e.cause@,
            },
            ServiceError::Encode => ServiceErrorView::Encode,
        }
    }
}

impl Statement {
    /// The text of the statement as the backend reads it.
    pub open spec fn text(self) -> Seq<char> {
        match self {
            Statement::Delay => "SELECT pg_sleep(0.5)"@,
            Statement::Add { .. } => "SELECT $1 + $2"@,
        }
    }

    /// The numbers bound to the placeholders of the statement, in order.
    pub open spec fn bound(self) -> Seq<Real> {
        match self {
            Statement::Delay => seq![],
            Statement::Add { x, y } => seq![x, y],
        }
    }

    /// The text of the statement as the backend reads it.
    pub fn sql(&self) -> (r: &'static str)
        ensures
            r@ == self.text(),
    {
        match self {
            Statement::Delay => "SELECT pg_sleep(0.5)",
            Statement::Add { .. } => "SELECT $1 + $2",
        }
    }

    /// The numbers to bind to the placeholders of the statement, in order.
    pub fn parameters(&self) -> (r: Vec<Real>)
        ensures
            r@ == self.bound(),
    {
        match self {
            Statement::Delay => Vec::new(),
            Statement::Add { x, y } => {
                let mut bound: Vec<Real> = Vec::new();
                bound.push(*x);
                bound.push(*y);
                bound
            },
        }
    }
}

/// Where the handling of a request stands.
#[derive(Clone, Copy, Debug, PartialEq, Eq, Structural)]
pub enum Stage {
    /// Waiting for a connection.
    Acquiring,
    /// The delay statement runs on the connection.
    Delaying,
    /// The addition runs on the connection.
    Adding,
    /// The sum is being written as JSON.
    Encoding,
    /// The request is answered and the connection back in the pool.
    Done,
}

/// How the work of a stage ended.
#[derive(Clone, Debug, PartialEq, Eq)]
pub enum Event {
    /// A connection was checked out.
    Acquired,
    /// No connection could be checked out.
    AcquireFailed(PoolError),
    /// The delay statement returned.
    Delayed,
    /// The addition returned this sum.
    Summed(Real),
    /// The statement that was running failed, for this cause.
    QueryFailed(String),
    /// The sum was written as this JSON text.
    Encoded(String),
    /// The sum could not be written.
    EncodeFailed,
}

/// An event as a plain value.
pub enum EventView {
    Acquired,
    AcquireFailed(PoolError),
    Delayed,
    Summed(Real),
    QueryFailed(Seq<char>),
    Encoded(Seq<char>),
    EncodeFailed,
}

impl View for Event {
    type V = EventView;

    open spec fn view(&self) -> EventView {
        match self {
            Event::Acquired => EventView::Acquired,
            Event::AcquireFailed(e) => EventView::AcquireFailed(*e),
            Event::Delayed => EventView::Delayed,
            Event::Summed(s) => EventView::Summed(*s),
            Event::QueryFailed(c) => EventView::QueryFailed(c@),
            Event::Encoded(t) => EventView::Encoded(t@),
            Event::EncodeFailed => EventView::EncodeFailed,
        }
    }
}

/// What the caller does next.
#[derive(Clone, Debug, PartialEq, Eq)]
pub enum Action {
    /// Check a connection out of the pool.
    Acquire,
    /// Run the statement on the connection that is held.
    Run(Statement),
    /// Write the sum as JSON text.
    Encode(Real),
    /// Send the response and let the connection go.
    Respond(Response),
    /// Let go of the connection, if one is held, and report the failure.
    Fail(ServiceError),
}

/// An action as a plain value.
pub enum ActionView {
    Acquire,
    Run(Statement),
    Encode(Real),
    Respond(ResponseView),
    Fail(ServiceErrorView),
}

impl View for Action {
    type V = ActionView;

    open spec fn view(&self) -> ActionView {
        match self {
            Action::Acquire => ActionView::Acquire,
            Action::Run(s) => ActionView::Run(*s),
            Action::Encode(s) => ActionView::Encode(*s),
            Action::Respond(r) => ActionView::Respond(r@),
            Action::Fail(e) => ActionView::Fail(e@),
        }
    }
}

/// The response that an action sends: the one it carries, the failure
/// response where it reports a failure, none where the request goes on.
pub open spec fn answer_of(action: ActionView) -> Option<ResponseView> {
    match action {
        ActionView::Respond(response) => Some(response),
        ActionView::Fail(_) => Some(failure_response()),
        _ => None,
    }
}

impl Action {
    /// The response to send for this action, if it ends the request. Every
    /// failure is answered alike.
    pub fn answer(self) -> (r: Option<Response>)
        ensures
            match r {
                Some(response) => answer_of(self@) == Some(response@),
                None => answer_of(self@) is None,
            },
    {
        match self {
            Action::Respond(response) => Some(response),
            Action::Fail(_) => Some(Response::failure()),
            _ => None,
        }
    }
}

/// A stage and the action that opens it.
#[derive(Clone, Debug, PartialEq, Eq)]
pub struct Step {
    pub stage: Stage,
    pub action: Action,
}

/// A step as a plain value.
pub struct StepView {
    pub stage: Stage,
    pub action: ActionView,
}

impl View for Step {
    type V = StepView;

    open spec fn view(&self) -> StepView {
        StepView { stage: self.stage, action: self.action@ }
    }
}

impl Stage {
    /// Between a successful checkout and the answer the request holds exactly
    /// one connection; before and after, none.
    pub open spec fn holds_connection(self) -> bool {
        self == Stage::Delaying || self == Stage::Adding || self == Stage::Encoding
    }

    /// Whether the request holds a connection in this stage.
    pub fn holds(&self) -> (r: bool)
        ensures
            r == self.holds_connection(),
    {
        match self {
            Stage::Delaying | Stage::Adding | Stage::Encoding => true,
            Stage::Acquiring | Stage::Done => false,
        }
    }

    /// How many stages lie behind.
    pub open spec fn rank(self) -> nat {
        match self {
            Stage::Acquiring => 0,
            Stage::Delaying => 1,
            Stage::Adding => 2,
            Stage::Encoding => 3,
            Stage::Done => 4,
        }
    }
}

/// The step that ends a request in failure.
pub open spec fn failed(error: ServiceErrorView) -> StepView {
    StepView { stage: Stage::Done, action: ActionView::Fail(error) }
}

/// The first step of a request: a request that was decoded asks for a
/// connection, and one that was not fails without asking.
pub open spec fn first_step(decoded: Result<AddRequest, DecodeError>) -> StepView {
    match decoded {
        Ok(_) => StepView { stage: Stage::Acquiring, action: ActionView::Acquire },
        Err(e) => failed(ServiceErrorView::Decode(e)),
    }
}

/// The step that follows `event` in `stage`, or `None` where the stage does
/// not wait for that event.
pub open spec fn next_step(request: AddRequest, stage: Stage, event: EventView) -> Option<
    StepView,
> {
    match (stage, event) {
        (Stage::Acquiring, EventView::Acquired) => Some(
            StepView { stage: Stage::Delaying, action: ActionView::Run(Statement::Delay) },
        ),
        (Stage::Acquiring, EventView::AcquireFailed(e)) => Some(
            failed(ServiceErrorView::Pool(e)),
        ),
        (Stage::Delaying, EventView::Delayed) => Some(
            StepView {
                stage: Stage::Adding,
                action: ActionView::Run(Statement::Add { x: request.x, y: request.y }),
            },
        ),
        (Stage::Delaying, EventView::QueryFailed(cause)) => Some(
            failed(ServiceErrorView::Query { statement: Statement::Delay, cause }),
        ),
        (Stage::Adding, EventView::Summed(sum)) => Some(
            StepView { stage: Stage::Encoding, action: ActionView::Encode(sum) },
        ),
        (Stage::Adding, EventView::QueryFailed(cause)) => Some(
            failed(
                ServiceErrorView::Query {
                    statement: Statement::Add { x: request.x, y: request.y },
                    cause,
                },
            ),
        ),
        (Stage::Encoding, EventView::Encoded(text)) => Some(
            StepView { stage: Stage::Done, action: ActionView::Respond(result_response(text)) },
        ),
        (Stage::Encoding, EventView::EncodeFailed) => Some(failed(ServiceErrorView::Encode)),
        _ => None,
    }
}

/// Opens the handling of a request with the outcome of decoding it.
pub fn begin(decoded: &Result<AddRequest, DecodeError>) -> (r: Step)
    ensures
        r@ == first_step(*decoded),
{
    match decoded {
        Ok(_) => Step { stage: Stage::Acquiring, action: Action::Acquire },
        Err(e) => Step { stage: Stage::Done, action: Action::Fail(ServiceError::Decode(*e)) },
    }
}

impl AddRequest {
    /// The statement that adds the operands of this request.
    pub fn addition(&self) -> (r: Statement)
        ensures
            r == (Statement::Add { x: self.x, y: self.y }),
    {
        Statement::Add { x: self.x, y: self.y }
    }

    /// Takes the handling of this request one step on: given the stage it is
    /// in and how the work of that stage ended, the next stage and what to do
    /// in it. `None` where `stage` does not wait for `event`.
    pub fn render_response(&self, stage: Stage, event: Event) -> (r: Option<Step>)
        ensures
            match r {
                Some(step) => next_step(*self, stage, event@) == Some(step@),
                None => next_step(*self, stage, event@) is None,
            },
    {
        match (stage, event) {
            (Stage::Acquiring, Event::Acquired) => Some(
                Step { stage: Stage::Delaying, action: Action::Run(Statement::Delay) },
            ),
            (Stage::Acquiring, Event::AcquireFailed(e)) => Some(fail(ServiceError::Pool(e))),
            (Stage::Delaying, Event::Delayed) => Some(
                Step { stage: Stage::Adding, action: Action::Run(self.addition()) },
            ),
            (Stage::Delaying, Event::QueryFailed(cause)) => Some(
                fail(ServiceError::Query(QueryError { statement: Statement::Delay, cause })),
            ),
            (Stage::Adding, Event::Summed(sum)) => Some(
                Step { stage: Stage::Encoding, action: Action::Encode(sum) },
            ),
            (Stage::Adding, Event::QueryFailed(cause)) => Some(
                fail(ServiceError::Query(QueryError { statement: self.addition(), cause })),
            ),
            (Stage::Encoding, Event::Encoded(text)) => Some(
                Step { stage: Stage::Done, action: Action::Respond(Response::result(text.as_str())) },
            ),
            (Stage::Encoding, Event::EncodeFailed) => Some(fail(ServiceError::Encode)),
            _ => None,
        }
    }
}

/// The step that ends a request in failure.
fn fail(error: ServiceError) -> (r: Step)
    ensures
        r@ == failed(error@),
{
    Step { stage: Stage::Done, action: Action::Fail(error) }
}

/// Every step takes the request to a later stage, so a request is over after
/// four events at most.
pub proof fn every_step_advances(request: AddRequest, stage: Stage, event: EventView)
    requires
        next_step(request, stage, event) is Some,
    ensures
        next_step(request, stage, event).unwrap().stage.rank() > stage.rank(),
        next_step(request, stage, event).unwrap().stage.rank() <= 4,
{
}

/// A request never asks for a second connection; a statement runs, and the
/// sum is written, only while the connection is held; and the request is
/// answered exactly when it is done, at which point it holds no connection.
/// Every answer is a response in which a body has its content type.
pub proof fn one_connection_per_request(request: AddRequest, stage: Stage, event: EventView)
    requires
        next_step(request, stage, event) is Some,
    ensures
        ({
            let step = next_step(request, stage, event).unwrap();
            &&& !(step.action is Acquire)
            &&& step.action is Run || step.action is Encode ==> step.stage.holds_connection()
            &&& answer_of(step.action) is Some <==> step.stage == Stage::Done
            &&& step.stage == Stage::Done ==> !step.stage.holds_connection()
            &&& answer_of(step.action) matches Some(response) ==> response.wf()
        }),
{
}

/// The delay comes first: the addition is started by the return of the delay
/// statement and by nothing else, and it binds the operands of the request
/// that is being handled.
pub proof fn addition_follows_delay(request: AddRequest, stage: Stage, event: EventView)
    requires
        next_step(request, stage, event) is Some,
    ensures
        ({
            let step = next_step(request, stage, event).unwrap();
            &&& step.action is Run ==> step.action == ActionView::Run(Statement::Delay)
                || step.action == ActionView::Run(Statement::Add { x: request.x, y: request.y })
            &&& step.action == ActionView::Run(Statement::Delay) <==> stage == Stage::Acquiring
                && event == EventView::Acquired
            &&& step.action is Run && step.action != ActionView::Run(Statement::Delay)
                <==> stage == Stage::Delaying && event == EventView::Delayed
        }),
{
}

/// Nothing is tried twice: a failure at any stage ends the request there,
/// with a response whose status is not 200. A pool that gives no connection
/// in time ends it with `PoolError::Timeout`.
pub proof fn failure_is_final(request: AddRequest, stage: Stage, event: EventView)
    requires
        next_step(request, stage, event) is Some,
        event is AcquireFailed || event is QueryFailed || event is EncodeFailed,
    ensures
        ({
            let step = next_step(request, stage, event).unwrap();
            &&& step.stage == Stage::Done
            &&& step.action is Fail
            &&& answer_of(step.action) == Some(failure_response())
            &&& failure_response().status != STATUS_OK
            &&& event == EventView::AcquireFailed(PoolError::Timeout) ==> step.action
                == ActionView::Fail(ServiceErrorView::Pool(PoolError::Timeout))
        }),
{
}

/// A request whose four stages all succeed is answered with status 200 and
/// the JSON object that holds the sum, whatever the operands; on the way the
/// delay runs before the addition, and the sum that is written is the one the
/// addition returned.
pub proof fn served_request(request: AddRequest, sum: Real, text: Seq<char>)
    ensures
        first_step(Ok(request)) == (StepView {
            stage: Stage::Acquiring,
            action: ActionView::Acquire,
        }),
        next_step(request, Stage::Acquiring, EventView::Acquired) == Some(
            StepView { stage: Stage::Delaying, action: ActionView::Run(Statement::Delay) },
        ),
        next_step(request, Stage::Delaying, EventView::Delayed) == Some(
            StepView {
                stage: Stage::Adding,
                action: ActionView::Run(Statement::Add { x: request.x, y: request.y }),
            },
        ),
        next_step(request, Stage::Adding, EventView::Summed(sum)) == Some(
            StepView { stage: Stage::Encoding, action: ActionView::Encode(sum) },
        ),
        next_step(request, Stage::Encoding, EventView::Encoded(text)) == Some(
            StepView { stage: Stage::Done, action: ActionView::Respond(result_response(text)) },
        ),
        result_response(text).status == STATUS_OK,
        result_response(text).wf(),
{
}

/// A query that lacks an operand, or gives an operand a value that is no
/// number, is not decoded; the request then ends before any connection is
/// asked for, with a response whose status is not 200.
pub proof fn undecodable_query_never_reaches_pool(fields: Seq<Field>)
    requires
        !present(fields, Name::X) || !present(fields, Name::Y) || exists|i: int, name: Name|
            named(fields, i, name) && fields[i].number is None,
    ensures
        decoded(fields) is Err,
        first_step(decoded(fields)).stage == Stage::Done,
        first_step(decoded(fields)).action is Fail,
        answer_of(first_step(decoded(fields)).action) == Some(failure_response()),
        failure_response().status != STATUS_OK,
{
    incomplete_query_is_refused(fields);
}

} // verus!
