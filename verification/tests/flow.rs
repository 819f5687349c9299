use add_service::decode::{AddRequest, DecodeError, Name};
use add_service::flow::{
    begin, Action, Event, PoolError, QueryError, ServiceError, Stage, Statement, Step,
};
use add_service::number::Real;
use add_service::response::Response;

fn number_of(value: f64) -> Real {
    Real::from_bits(value.to_bits())
}

fn request(x: f64, y: f64) -> AddRequest {
    AddRequest { x: number_of(x), y: number_of(y) }
}

fn step(stage: Stage, action: Action) -> Option<Step> {
    Some(Step { stage, action })
}

fn failed(error: ServiceError) -> Option<Step> {
    step(Stage::Done, Action::Fail(error))
}

/// Plays the part of the caller with a backend that adds correctly.
fn serve(request: &AddRequest) -> Response {
    let mut current = begin(&Ok(*request));
    let mut held = false;
    loop {
        let event = match &current.action {
            Action::Acquire => {
                assert!(!held);
                held = true;
                Event::Acquired
            }
            Action::Run(Statement::Delay) => {
                assert!(held);
                Event::Delayed
            }
            Action::Run(Statement::Add { x, y }) => {
                assert!(held);
                let sum = f64::from_bits(x.to_bits()) + f64::from_bits(y.to_bits());
                Event::Summed(number_of(sum))
            }
            Action::Encode(sum) => {
                let value = f64::from_bits(sum.to_bits());
                Event::Encoded(serde_json::to_string(&value).expect("the number is written"))
            }
            Action::Respond(_) | Action::Fail(_) => break,
        };
        current = request.render_response(current.stage, event).expect("the event is awaited");
    }
    assert_eq!(current.stage, Stage::Done);
    current.action.answer().expect("the request is answered")
}

#[test]
fn decoded_request_asks_for_a_connection() {
    assert_eq!(
        begin(&Ok(request(1.0, 2.0))),
        Step { stage: Stage::Acquiring, action: Action::Acquire }
    );
}

#[test]
fn undecoded_request_fails_before_the_pool() {
    for error in [
        DecodeError::Malformed,
        DecodeError::Missing(Name::X),
        DecodeError::Missing(Name::Y),
        DecodeError::Duplicate(Name::X),
        DecodeError::NotANumber(Name::Y),
    ] {
        let first = begin(&Err(error));
        assert_eq!(first.stage, Stage::Done);
        assert_eq!(first.action, Action::Fail(ServiceError::Decode(error)));
        let response = first.action.answer().expect("a failure is answered");
        assert_ne!(response.status, 200);
    }
}

#[test]
fn stages_follow_one_another() {
    let r = request(1.0, 2.0);
    assert_eq!(
        r.render_response(Stage::Acquiring, Event::Acquired),
        step(Stage::Delaying, Action::Run(Statement::Delay))
    );
    assert_eq!(
        r.render_response(Stage::Delaying, Event::Delayed),
        step(Stage::Adding, Action::Run(Statement::Add { x: number_of(1.0), y: number_of(2.0) }))
    );
    assert_eq!(
        r.render_response(Stage::Adding, Event::Summed(number_of(3.0))),
        step(Stage::Encoding, Action::Encode(number_of(3.0)))
    );
    assert_eq!(
        r.render_response(Stage::Encoding, Event::Encoded("3.0".to_string())),
        step(
            Stage::Done,
            Action::Respond(Response {
                status: 200,
                content_type: Some("application/json".to_string()),
                body: Some("{\"result\":3.0}".to_string()),
            })
        )
    );
}

#[test]
fn served_request_reports_the_sum() {
    let response = serve(&request(1.0, 1.0));
    assert_eq!(response.status, 200);
    assert_eq!(response.content_type, Some("application/json".to_string()));
    assert_eq!(response.body, Some("{\"result\":2.0}".to_string()));
}

#[test]
fn sums_are_within_tolerance() {
    for (x, y) in [(0.1, 0.2), (1e10, 1e-10), (-5.5, 5.5), (123456.789, 0.001)] {
        let body = serve(&request(x, y)).body.expect("a body");
        let value: serde_json::Value = serde_json::from_str(&body).expect("the body is JSON");
        let result = value.get("result").and_then(|v| v.as_f64()).expect("a number");
        assert!((result - (x + y)).abs() <= 1e-9 * (x + y).abs().max(1.0));
    }
}

#[test]
fn interleaved_requests_keep_their_own_operands() {
    let a = request(1.0, 1.0);
    let b = request(100.0, 100.0);
    let a1 = a.render_response(Stage::Acquiring, Event::Acquired).expect("awaited");
    let b1 = b.render_response(Stage::Acquiring, Event::Acquired).expect("awaited");
    let b2 = b.render_response(b1.stage, Event::Delayed).expect("awaited");
    let a2 = a.render_response(a1.stage, Event::Delayed).expect("awaited");
    assert_eq!(a2.action, Action::Run(Statement::Add { x: number_of(1.0), y: number_of(1.0) }));
    assert_eq!(b2.action, Action::Run(Statement::Add { x: number_of(100.0), y: number_of(100.0) }));
    let b3 = b.render_response(b2.stage, Event::Summed(number_of(200.0))).expect("awaited");
    let a3 = a.render_response(a2.stage, Event::Summed(number_of(2.0))).expect("awaited");
    assert_eq!(a3.action, Action::Encode(number_of(2.0)));
    assert_eq!(b3.action, Action::Encode(number_of(200.0)));
    assert_eq!(serve(&a).body, Some("{\"result\":2.0}".to_string()));
    assert_eq!(serve(&b).body, Some("{\"result\":200.0}".to_string()));
}

#[test]
fn pool_failures_end_the_request() {
    let r = request(1.0, 2.0);
    for error in [PoolError::Timeout, PoolError::Exhausted, PoolError::ConnectionFailed] {
        assert_eq!(
            r.render_response(Stage::Acquiring, Event::AcquireFailed(error)),
            failed(ServiceError::Pool(error))
        );
    }
}

#[test]
fn failed_delay_ends_the_request() {
    let r = request(1.0, 2.0);
    assert_eq!(
        r.render_response(Stage::Delaying, Event::QueryFailed("connection reset".to_string())),
        failed(ServiceError::Query(QueryError {
            statement: Statement::Delay,
            cause: "connection reset".to_string(),
        }))
    );
}

#[test]
fn failed_addition_ends_the_request() {
    let r = request(1.0, 2.0);
    assert_eq!(
        r.render_response(Stage::Adding, Event::QueryFailed("operator does not exist".to_string())),
        failed(ServiceError::Query(QueryError {
            statement: Statement::Add { x: number_of(1.0), y: number_of(2.0) },
            cause: "operator does not exist".to_string(),
        }))
    );
}

#[test]
fn failed_encoding_ends_the_request() {
    let r = request(1.0, 2.0);
    assert_eq!(r.render_response(Stage::Encoding, Event::EncodeFailed), failed(ServiceError::Encode));
}

#[test]
fn every_failure_is_answered_alike() {
    for error in [
        ServiceError::Decode(DecodeError::Missing(Name::X)),
        ServiceError::Pool(PoolError::Timeout),
        ServiceError::Query(QueryError { statement: Statement::Delay, cause: String::new() }),
        ServiceError::Encode,
    ] {
        assert_eq!(
            Action::Fail(error).answer(),
            Some(Response { status: 500, content_type: None, body: None })
        );
    }
}

#[test]
fn unfinished_actions_have_no_answer() {
    assert_eq!(Action::Acquire.answer(), None);
    assert_eq!(Action::Run(Statement::Delay).answer(), None);
    assert_eq!(Action::Encode(number_of(1.0)).answer(), None);
}

#[test]
fn response_action_answers_with_its_response() {
    assert_eq!(Action::Respond(Response::result("1.0")).answer(), Some(Response::result("1.0")));
}

#[test]
fn events_out_of_order_are_not_taken() {
    let r = request(1.0, 2.0);
    let events = || {
        vec![
            Event::Acquired,
            Event::AcquireFailed(PoolError::Timeout),
            Event::Delayed,
            Event::Summed(number_of(3.0)),
            Event::QueryFailed("cause".to_string()),
            Event::Encoded("3.0".to_string()),
            Event::EncodeFailed,
        ]
    };
    let awaited = |stage: Stage, event: &Event| match (stage, event) {
        (Stage::Acquiring, Event::Acquired | Event::AcquireFailed(_)) => true,
        (Stage::Delaying, Event::Delayed | Event::QueryFailed(_)) => true,
        (Stage::Adding, Event::Summed(_) | Event::QueryFailed(_)) => true,
        (Stage::Encoding, Event::Encoded(_) | Event::EncodeFailed) => true,
        _ => false,
    };
    for stage in [Stage::Acquiring, Stage::Delaying, Stage::Adding, Stage::Encoding, Stage::Done] {
        for event in events() {
            let expected = awaited(stage, &event);
            assert_eq!(r.render_response(stage, event).is_some(), expected);
        }
    }
}

#[test]
fn connection_is_held_from_checkout_to_answer() {
    assert!(!Stage::Acquiring.holds());
    assert!(Stage::Delaying.holds());
    assert!(Stage::Adding.holds());
    assert!(Stage::Encoding.holds());
    assert!(!Stage::Done.holds());
}

#[test]
fn every_request_is_over_after_four_events() {
    let r = request(4.0, 5.0);
    let script = [
        Event::Acquired,
        Event::Delayed,
        Event::Summed(number_of(9.0)),
        Event::Encoded("9.0".to_string()),
    ];
    let mut current = begin(&Ok(r));
    let mut taken = 0;
    for event in script {
        current = r.render_response(current.stage, event).expect("awaited");
        taken += 1;
    }
    assert_eq!(taken, 4);
    assert_eq!(current.stage, Stage::Done);
    assert_eq!(current.action, Action::Respond(Response::result("9.0")));
    assert_eq!(r.render_response(current.stage, Event::Acquired), None);
}

#[test]
fn statements_have_their_text_and_parameters() {
    assert_eq!(Statement::Delay.sql(), "SELECT pg_sleep(0.5)");
    assert_eq!(Statement::Delay.parameters(), vec![]);
    let addition = request(1.5, 2.5).addition();
    assert_eq!(addition, Statement::Add { x: number_of(1.5), y: number_of(2.5) });
    assert_eq!(addition.sql(), "SELECT $1 + $2");
    assert_eq!(addition.parameters(), vec![number_of(1.5), number_of(2.5)]);
}
