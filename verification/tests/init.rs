use imap_idle::frame::{Response, ResponseData, Status};
use imap_idle::handle::{Error, Handle, State, DONE, IDLE};
use imap_idle::outcome::Step;

type Frame = ResponseData<&'static str>;
type Pull = Option<Result<Frame, &'static str>>;
type InitStep = Step<&'static str, Result<(), Error<&'static str>>>;

fn init_frame(parsed: Response, raw: &'static str) -> Frame {
    ResponseData::new(parsed, raw)
}

fn init_completion(tag: &str, status: Status, information: Option<&str>) -> Response {
    Response::Done {
        tag: tag.to_string(),
        status,
        information: information.map(|text| text.to_string()),
    }
}

fn init_step(handle: &mut Handle<u8>, id: &str, pulled: Pull) -> InitStep {
    handle.init(&id.to_string(), pulled)
}

#[test]
fn commands_are_spelled_as_on_the_wire() {
    assert_eq!(IDLE, "IDLE");
    assert_eq!(DONE, "DONE");
}

#[test]
fn new_handle_is_uninitialized() {
    let handle = Handle::new(3u8);
    assert_eq!(handle.state(), &State::Uninitialized);
    assert_eq!(handle.state().id(), None);
    assert_eq!(handle.session(), &3);
}

#[test]
fn continuation_acknowledges_idle() {
    let mut handle = Handle::new(3u8);
    let step = init_step(&mut handle, "A1", Some(Ok(init_frame(Response::Continue, "+ idling"))));
    assert_eq!(step, Step::Ready(Ok(())));
    assert_eq!(handle.state(), &State::Idling { id: "A1".to_string() });
    assert_eq!(handle.state().id(), Some(&"A1".to_string()));
    assert_eq!(handle.session(), &3);
}

#[test]
fn bad_completion_of_idle_rejects_with_the_servers_reason() {
    let mut handle = Handle::new(3u8);
    let frame = init_frame(
        init_completion("A1", Status::BAD, Some("IDLE not supported")),
        "A1 BAD IDLE not supported",
    );
    let step = init_step(&mut handle, "A1", Some(Ok(frame)));
    let Step::Ready(Err(error)) = step else {
        panic!("init went on after a rejection: {:?}", step);
    };
    assert_eq!(error, Error::Rejected { reason: Some("IDLE not supported".to_string()) });
    assert!(error.is_connection_refused());
    assert!(error.reason().unwrap().contains("IDLE not supported"));
    assert_eq!(handle.state(), &State::Failed);
    assert_eq!(handle.state().id(), None);
}

#[test]
fn bad_completion_without_text_rejects_without_reason() {
    let mut handle = Handle::new(3u8);
    let frame = init_frame(init_completion("A1", Status::BAD, None), "A1 BAD");
    let step = init_step(&mut handle, "A1", Some(Ok(frame)));
    assert_eq!(step, Step::Ready(Err(Error::Rejected { reason: None })));
    assert_eq!(handle.state(), &State::Failed);
}

#[test]
fn bad_completion_of_another_command_is_forwarded() {
    let mut handle = Handle::new(3u8);
    let frame = init_frame(init_completion("A0", Status::BAD, Some("what")), "A0 BAD what");
    let step = init_step(&mut handle, "A1", Some(Ok(frame.clone())));
    assert_eq!(step, Step::Forward(frame));
    assert_eq!(handle.state(), &State::Uninitialized);
}

#[test]
fn no_completion_of_idle_rejects_like_bad() {
    let mut handle = Handle::new(3u8);
    let frame = init_frame(
        init_completion("A1", Status::NO, Some("not in this state")),
        "A1 NO not in this state",
    );
    let step = init_step(&mut handle, "A1", Some(Ok(frame)));
    assert_eq!(
        step,
        Step::Ready(Err(Error::Rejected { reason: Some("not in this state".to_string()) }))
    );
    assert_eq!(handle.state(), &State::Failed);
}

#[test]
fn no_completion_of_another_command_is_forwarded() {
    let mut handle = Handle::new(3u8);
    let frame = init_frame(init_completion("A0", Status::NO, None), "A0 NO");
    let step = init_step(&mut handle, "A1", Some(Ok(frame.clone())));
    assert_eq!(step, Step::Forward(frame));
    assert_eq!(handle.state(), &State::Uninitialized);
}

#[test]
fn completions_of_idle_that_are_not_negative_are_forwarded() {
    for status in [Status::OK, Status::PREAUTH, Status::BYE] {
        let mut handle = Handle::new(3u8);
        let frame = init_frame(init_completion("A1", status, Some("text")), "A1 ...");
        let step = init_step(&mut handle, "A1", Some(Ok(frame.clone())));
        assert_eq!(step, Step::Forward(frame));
        assert_eq!(handle.state(), &State::Uninitialized);
    }
}

#[test]
fn unrelated_frames_before_the_answer_are_forwarded() {
    let mut handle = Handle::new(3u8);
    for parsed in [
        Response::Other,
        Response::Data { status: Status::OK },
        Response::Data { status: Status::BYE },
    ] {
        let frame = init_frame(parsed, "* ...");
        let step = init_step(&mut handle, "A1", Some(Ok(frame.clone())));
        assert_eq!(step, Step::Forward(frame));
        assert_eq!(handle.state(), &State::Uninitialized);
    }
}

#[test]
fn end_of_frames_refuses_the_connection() {
    let mut handle = Handle::new(3u8);
    let step = init_step(&mut handle, "A1", None);
    let Step::Ready(Err(error)) = step else {
        panic!("init went on after the end of the frames: {:?}", step);
    };
    assert_eq!(error, Error::Closed);
    assert!(error.is_connection_refused());
    assert_eq!(error.reason(), None);
    assert_eq!(handle.state(), &State::Failed);
}

#[test]
fn failed_read_is_passed_on() {
    let mut handle = Handle::new(3u8);
    let step = init_step(&mut handle, "A1", Some(Err("broken pipe")));
    let Step::Ready(Err(error)) = step else {
        panic!("init went on after a failed read: {:?}", step);
    };
    assert_eq!(error, Error::Transport("broken pipe"));
    assert!(!error.is_connection_refused());
    assert_eq!(error.reason(), None);
    assert_eq!(handle.state(), &State::Failed);
}

#[test]
fn init_can_be_tried_again_after_a_failure() {
    let mut handle = Handle::new(3u8);
    assert_eq!(init_step(&mut handle, "A1", None), Step::Ready(Err(Error::Closed)));
    assert_eq!(handle.state(), &State::Failed);
    let step = init_step(&mut handle, "A2", Some(Ok(init_frame(Response::Continue, "+ idling"))));
    assert_eq!(step, Step::Ready(Ok(())));
    assert_eq!(handle.state(), &State::Idling { id: "A2".to_string() });
}

#[test]
fn failed_init_ends_idling() {
    let mut handle = Handle::new(3u8);
    let ack = init_frame(Response::Continue, "+ idling");
    assert_eq!(init_step(&mut handle, "A1", Some(Ok(ack))), Step::Ready(Ok(())));
    assert_eq!(init_step(&mut handle, "A2", Some(Err("reset"))), Step::Ready(Err(Error::Transport("reset"))));
    assert_eq!(handle.state(), &State::Failed);
}

#[test]
fn as_mut_reaches_the_session_and_leaves_the_lifecycle() {
    let mut handle = Handle::new(3u8);
    let ack = init_frame(Response::Continue, "+ idling");
    assert_eq!(init_step(&mut handle, "A1", Some(Ok(ack))), Step::Ready(Ok(())));
    *handle.as_mut() = 9;
    assert_eq!(handle.session(), &9);
    assert_eq!(handle.state(), &State::Idling { id: "A1".to_string() });
}

#[test]
fn init_then_done_returns_the_session() {
    let mut handle = Handle::new(String::from("session"));
    let ack: Frame = ResponseData::new(Response::Continue, "+ idling");
    let step: Step<&'static str, Result<(), Error<&'static str>>> =
        handle.init(&"A1".to_string(), Some(Ok(ack)));
    assert_eq!(step, Step::Ready(Ok(())));
    let confirmed: Result<(), &'static str> = Ok(());
    assert_eq!(handle.done(confirmed), Ok(String::from("session")));
}

#[test]
fn done_passes_the_failure_on() {
    let mut handle = Handle::new(String::from("session"));
    let ack: Frame = ResponseData::new(Response::Continue, "+ idling");
    let step: Step<&'static str, Result<(), Error<&'static str>>> =
        handle.init(&"A1".to_string(), Some(Ok(ack)));
    assert_eq!(step, Step::Ready(Ok(())));
    assert_eq!(handle.done(Err("A1 NO not now")), Err("A1 NO not now"));
}
