use ztr::command::Action;
use ztr::engine::Diagnostic;
use ztr::engine::Engine;
use ztr::engine::Event;
use ztr::engine::Phase;
use ztr::engine::RenderPayload;
use ztr::engine::Request;
use ztr::engine::Unexpected;
use ztr::engine::EXIT_STATUS;
use ztr::engine::FAILURE_STATUS;
use ztr::hash_string;
use ztr::window::WindowState;

/// What a scripted driver saw in one session.
struct Session {
    payloads: Vec<RenderPayload>,
    diagnostics: Vec<Diagnostic>,
    decoded: Vec<String>,
    surfaces: usize,
    waits: usize,
    exit: Option<i32>,
    engine: Engine,
}

/// Decodes a line the way the driver does: a JSON object with a string
/// `cmd` and an array of strings `args`.
fn decode(line: &str) -> Option<Action> {
    let value: serde_json::Value = serde_json::from_str(line).ok()?;
    let object = value.as_object()?;
    let cmd = object.get("cmd")?.as_str()?.to_string();
    let mut args = Vec::new();
    for arg in object.get("args")?.as_array()? {
        args.push(arg.as_str()?.to_string());
    }
    Some(Action { cmd, args })
}

/// Runs a session over `input`, answering every request at once; the end of
/// `input` is a read failure.
fn drive(input: &[u8]) -> Session {
    let mut session = Session {
        payloads: Vec::new(),
        diagnostics: Vec::new(),
        decoded: Vec::new(),
        surfaces: 0,
        waits: 0,
        exit: None,
        engine: Engine::new(),
    };
    let mut position = 0;
    let mut event = Event::Started;
    loop {
        let request = session.engine.step(event).expect("the driver answers each request");
        event = match request {
            Request::ReadByte => {
                if position < input.len() {
                    position += 1;
                    Event::Byte(input[position - 1])
                } else {
                    Event::ReadFailed
                }
            }
            Request::Decode { line } => {
                let parsed = decode(&line);
                session.decoded.push(line);
                Event::Decoded(parsed)
            }
            Request::CreateSurface => {
                session.surfaces += 1;
                Event::SurfaceCreated
            }
            Request::AwaitReady => {
                session.waits += 1;
                Event::SurfaceReady
            }
            Request::Emit { payload } => {
                session.payloads.push(payload);
                Event::Performed
            }
            Request::Report { diagnostic } => {
                session.diagnostics.push(diagnostic);
                Event::Performed
            }
            Request::Exit { status } => {
                session.exit = Some(status);
                return session;
            }
        };
    }
}

fn render(content: &str) -> Action {
    Action { cmd: "render".to_string(), args: vec![content.to_string()] }
}

/// An engine that has just asked for a line to be decoded.
fn engine_decoding(line: &str) -> Engine {
    let mut engine = Engine::new();
    assert_eq!(engine.step(Event::Started), Ok(Request::ReadByte));
    for byte in line.bytes() {
        assert_eq!(engine.step(Event::Byte(byte)), Ok(Request::ReadByte));
    }
    assert_eq!(engine.step(Event::Byte(10)), Ok(Request::Decode { line: line.to_string() }));
    engine
}

#[test]
fn render_noop_done_yields_one_first_payload() {
    let input = b"{\"cmd\":\"render\",\"args\":[\"hello\"]}\n{\"cmd\":\"noop\",\"args\":[]}\n{\"cmd\":\"done\",\"args\":[]}\n";
    let session = drive(input);
    assert_eq!(session.payloads.len(), 1);
    assert_eq!(session.payloads[0].render_string, "hello");
    assert!(session.payloads[0].is_first_render);
    assert_eq!(session.payloads[0].string_hash, hash_string(&"hello".to_string()));
    assert_eq!(session.diagnostics.len(), 0);
    assert_eq!(session.decoded.len(), 3);
    assert_eq!(session.exit, Some(0));
    assert_eq!(session.engine.phase(), Phase::Finished);
}

#[test]
fn bogus_then_done_yields_one_diagnostic() {
    let session = drive(b"{\"cmd\":\"bogus\"}\n{\"cmd\":\"done\",\"args\":[]}\n");
    assert_eq!(session.payloads.len(), 0);
    assert_eq!(session.diagnostics.len(), 1);
    assert_eq!(
        session.diagnostics[0],
        Diagnostic::InvalidLine { line: "{\"cmd\":\"bogus\"}".to_string() }
    );
    assert_eq!(session.surfaces, 0);
    assert_eq!(session.exit, Some(0));
}

#[test]
fn two_renders_are_first_then_not_first() {
    let session = drive(
        b"{\"cmd\":\"render\",\"args\":[\"a\"]}\n{\"cmd\":\"render\",\"args\":[\"b\"]}\n",
    );
    assert_eq!(session.payloads.len(), 2);
    assert_eq!(session.payloads[0].render_string, "a");
    assert_eq!(session.payloads[1].render_string, "b");
    assert!(session.payloads[0].is_first_render);
    assert!(!session.payloads[1].is_first_render);
    assert_ne!(session.payloads[0].string_hash, session.payloads[1].string_hash);
    assert_eq!(session.exit, Some(0));
}

#[test]
fn same_content_has_same_hash_in_every_payload() {
    let session = drive(
        b"{\"cmd\":\"render\",\"args\":[\"x\"]}\n{\"cmd\":\"noop\",\"args\":[]}\n{\"cmd\":\"render\",\"args\":[\"x\"]}\n",
    );
    assert_eq!(session.payloads.len(), 2);
    assert_eq!(session.payloads[0].string_hash, session.payloads[1].string_hash);
    assert_eq!(session.payloads[0].string_hash, hash_string(&"x".to_string()));
}

#[test]
fn first_render_flag_survives_other_commands() {
    let session = drive(
        b"{\"cmd\":\"noop\",\"args\":[]}\n{\"cmd\":\"what\",\"args\":[]}\nnot json\n{\"cmd\":\"render\",\"args\":[]}\n{\"cmd\":\"render\",\"args\":[\"one\"]}\n{\"cmd\":\"zap\",\"args\":[\"q\"]}\n{\"cmd\":\"render\",\"args\":[\"two\"]}\n{\"cmd\":\"render\",\"args\":[\"three\"]}\n",
    );
    let flags: Vec<bool> = session.payloads.iter().map(|p| p.is_first_render).collect();
    assert_eq!(flags, vec![true, false, false]);
    let contents: Vec<&str> = session.payloads.iter().map(|p| p.render_string.as_str()).collect();
    assert_eq!(contents, vec!["one", "two", "three"]);
    assert_eq!(session.diagnostics.len(), 4);
}

#[test]
fn done_truncates_the_stream() {
    let session = drive(
        b"{\"cmd\":\"done\",\"args\":[]}\n{\"cmd\":\"render\",\"args\":[\"late\"]}\n",
    );
    assert_eq!(session.decoded, vec!["{\"cmd\":\"done\",\"args\":[]}".to_string()]);
    assert_eq!(session.payloads.len(), 0);
    assert_eq!(session.surfaces, 0);
    assert_eq!(session.exit, Some(EXIT_STATUS));
}

#[test]
fn malformed_lines_do_not_end_the_session() {
    let session = drive(b"{\n[1,2\n\n{\"cmd\":\"render\",\"args\":[\"still here\"]}\n");
    assert_eq!(session.diagnostics.len(), 3);
    assert_eq!(session.diagnostics[0], Diagnostic::InvalidLine { line: "{".to_string() });
    assert_eq!(session.diagnostics[1], Diagnostic::InvalidLine { line: "[1,2".to_string() });
    assert_eq!(session.diagnostics[2], Diagnostic::InvalidLine { line: String::new() });
    assert_eq!(session.payloads.len(), 1);
    assert_eq!(session.payloads[0].render_string, "still here");
    assert!(session.payloads[0].is_first_render);
}

#[test]
fn surface_is_created_once_and_awaited_once() {
    let session = drive(
        b"{\"cmd\":\"render\",\"args\":[\"a\"]}\n{\"cmd\":\"render\",\"args\":[\"b\"]}\n{\"cmd\":\"render\",\"args\":[\"c\"]}\n",
    );
    assert_eq!(session.surfaces, 1);
    assert_eq!(session.waits, 1);
    assert_eq!(session.payloads.len(), 3);
    assert_eq!(session.engine.window(), WindowState::Ready);
}

#[test]
fn no_render_means_no_surface() {
    let session = drive(b"{\"cmd\":\"noop\",\"args\":[]}\n{\"cmd\":\"noop\",\"args\":[]}\n");
    assert_eq!(session.surfaces, 0);
    assert_eq!(session.waits, 0);
    assert_eq!(session.engine.window(), WindowState::Absent);
    assert!(session.engine.is_first_render());
    assert_eq!(session.exit, Some(0));
}

#[test]
fn stream_end_exits_with_success() {
    let session = drive(b"");
    assert_eq!(session.exit, Some(0));
    assert!(session.engine.stdin_done());
    assert_eq!(session.decoded.len(), 0);
}

#[test]
fn end_of_transmission_byte_ends_the_session() {
    let session = drive(b"{\"cmd\":\"noop\",\"args\":[]}\n\0{\"cmd\":\"render\",\"args\":[\"x\"]}\n");
    assert_eq!(session.decoded.len(), 1);
    assert_eq!(session.payloads.len(), 0);
    assert_eq!(session.exit, Some(0));
    assert!(session.engine.stdin_done());
}

#[test]
fn unterminated_last_line_is_not_a_command() {
    let session = drive(b"{\"cmd\":\"render\",\"args\":[\"x\"]}");
    assert_eq!(session.decoded.len(), 0);
    assert_eq!(session.payloads.len(), 0);
    assert_eq!(session.exit, Some(0));
}

#[test]
fn line_that_is_not_text_ends_the_stream() {
    let session = drive(b"\xff\xfe\n{\"cmd\":\"render\",\"args\":[\"x\"]}\n");
    assert_eq!(session.decoded.len(), 0);
    assert_eq!(session.diagnostics.len(), 0);
    assert_eq!(session.payloads.len(), 0);
    assert_eq!(session.exit, Some(0));
    assert!(session.engine.stdin_done());
}

#[test]
fn render_waits_for_surface_and_readiness() {
    let mut engine = engine_decoding("r");
    assert_eq!(engine.step(Event::Decoded(Some(render("hi")))), Ok(Request::CreateSurface));
    assert_eq!(engine.phase(), Phase::Creating);
    assert_eq!(engine.window(), WindowState::Absent);
    assert_eq!(engine.step(Event::SurfaceCreated), Ok(Request::AwaitReady));
    assert_eq!(engine.phase(), Phase::Awaiting);
    assert_eq!(engine.window(), WindowState::Created);
    assert!(engine.is_first_render());
    assert_eq!(
        engine.step(Event::SurfaceReady),
        Ok(Request::Emit {
            payload: RenderPayload {
                render_string: "hi".to_string(),
                string_hash: hash_string(&"hi".to_string()),
                is_first_render: true,
            },
        })
    );
    assert_eq!(engine.window(), WindowState::Ready);
    assert!(!engine.is_first_render());
    assert_eq!(engine.phase(), Phase::Performing);
    assert_eq!(engine.step(Event::Performed), Ok(Request::ReadByte));
    assert_eq!(engine.phase(), Phase::Reading);
}

#[test]
fn nothing_but_the_signal_is_accepted_while_waiting() {
    let mut engine = engine_decoding("r");
    assert_eq!(engine.step(Event::Decoded(Some(render("hi")))), Ok(Request::CreateSurface));
    assert_eq!(engine.step(Event::SurfaceReady), Err(Unexpected { phase: Phase::Creating }));
    assert_eq!(engine.step(Event::SurfaceCreated), Ok(Request::AwaitReady));
    assert_eq!(engine.step(Event::Byte(65)), Err(Unexpected { phase: Phase::Awaiting }));
    assert_eq!(
        engine.step(Event::Decoded(Some(render("other")))),
        Err(Unexpected { phase: Phase::Awaiting })
    );
    assert_eq!(engine.step(Event::Performed), Err(Unexpected { phase: Phase::Awaiting }));
    assert_eq!(engine.window(), WindowState::Created);
    match engine.step(Event::SurfaceReady) {
        Ok(Request::Emit { payload }) => assert_eq!(payload.render_string, "hi"),
        other => panic!("expected a payload, got {:?}", other),
    }
}

#[test]
fn render_without_arguments_is_reported_and_skipped() {
    let mut engine = engine_decoding("r");
    let bare = Action { cmd: "render".to_string(), args: vec![] };
    assert_eq!(
        engine.step(Event::Decoded(Some(bare))),
        Ok(Request::Report { diagnostic: Diagnostic::MissingArgument })
    );
    assert_eq!(engine.window(), WindowState::Absent);
    assert!(engine.is_first_render());
    assert_eq!(engine.step(Event::Performed), Ok(Request::ReadByte));
}

#[test]
fn unknown_command_is_reported_with_its_action() {
    let mut engine = engine_decoding("r");
    let action = Action { cmd: "bogus".to_string(), args: vec!["x".to_string(), "y".to_string()] };
    let same = Action { cmd: "bogus".to_string(), args: vec!["x".to_string(), "y".to_string()] };
    assert_eq!(
        engine.step(Event::Decoded(Some(action))),
        Ok(Request::Report { diagnostic: Diagnostic::UnknownCommand { action: same } })
    );
    assert_eq!(engine.step(Event::Performed), Ok(Request::ReadByte));
}

#[test]
fn undecodable_line_is_echoed() {
    let mut engine = engine_decoding("{oops");
    assert_eq!(
        engine.step(Event::Decoded(None)),
        Ok(Request::Report { diagnostic: Diagnostic::InvalidLine { line: "{oops".to_string() } })
    );
    assert_eq!(engine.phase(), Phase::Performing);
    assert_eq!(engine.step(Event::Performed), Ok(Request::ReadByte));
}

#[test]
fn noop_and_done_commands() {
    let mut engine = engine_decoding("n");
    assert_eq!(engine.step(Event::Decoded(Some(Action::noop()))), Ok(Request::ReadByte));
    assert_eq!(engine.step(Event::Byte(10)), Ok(Request::Decode { line: String::new() }));
    let done = Action { cmd: "done".to_string(), args: vec![] };
    assert_eq!(engine.step(Event::Decoded(Some(done))), Ok(Request::Exit { status: 0 }));
    assert_eq!(engine.phase(), Phase::Finished);
    assert!(!engine.stdin_done());
}

#[test]
fn unexpected_events_change_nothing() {
    let mut engine = Engine::new();
    assert_eq!(engine.phase(), Phase::Idle);
    assert_eq!(engine.step(Event::Byte(1)), Err(Unexpected { phase: Phase::Idle }));
    assert_eq!(engine.step(Event::Performed), Err(Unexpected { phase: Phase::Idle }));
    assert_eq!(engine.phase(), Phase::Idle);
    assert_eq!(engine.step(Event::Started), Ok(Request::ReadByte));
    assert_eq!(engine.step(Event::Started), Err(Unexpected { phase: Phase::Reading }));
    assert_eq!(engine.step(Event::Decoded(None)), Err(Unexpected { phase: Phase::Reading }));
    assert_eq!(engine.step(Event::SurfaceReady), Err(Unexpected { phase: Phase::Reading }));
    assert_eq!(engine.window(), WindowState::Absent);
    assert_eq!(engine.step(Event::Byte(10)), Ok(Request::Decode { line: String::new() }));
    assert_eq!(engine.step(Event::Byte(10)), Err(Unexpected { phase: Phase::Decoding }));
}

#[test]
fn finished_engine_accepts_nothing() {
    let mut engine = Engine::new();
    assert_eq!(engine.step(Event::Started), Ok(Request::ReadByte));
    assert_eq!(engine.step(Event::ReadFailed), Ok(Request::Exit { status: 0 }));
    assert!(engine.stdin_done());
    assert_eq!(engine.step(Event::Byte(10)), Err(Unexpected { phase: Phase::Finished }));
    assert_eq!(engine.step(Event::Started), Err(Unexpected { phase: Phase::Finished }));
    assert_eq!(engine.step(Event::Decoded(Some(render("x")))), Err(Unexpected { phase: Phase::Finished }));
    assert_eq!(engine.phase(), Phase::Finished);
}

#[test]
fn exit_statuses() {
    assert_eq!(EXIT_STATUS, 0);
    assert_eq!(FAILURE_STATUS, 1);
}

#[test]
fn surface_that_cannot_be_created_is_fatal() {
    let mut engine = engine_decoding("r");
    assert_eq!(engine.step(Event::Decoded(Some(render("hi")))), Ok(Request::CreateSurface));
    assert_eq!(
        engine.step(Event::SurfaceFailed),
        Ok(Request::Report { diagnostic: Diagnostic::SurfaceUnavailable })
    );
    assert_eq!(engine.phase(), Phase::Aborting);
    assert_eq!(engine.window(), WindowState::Absent);
    assert_eq!(engine.step(Event::SurfaceCreated), Err(Unexpected { phase: Phase::Aborting }));
    assert_eq!(engine.step(Event::Byte(10)), Err(Unexpected { phase: Phase::Aborting }));
    assert_eq!(engine.step(Event::Performed), Ok(Request::Exit { status: 1 }));
    assert_eq!(engine.phase(), Phase::Finished);
    assert!(engine.is_first_render());
    assert!(!engine.stdin_done());
    assert_eq!(engine.step(Event::Performed), Err(Unexpected { phase: Phase::Finished }));
}

#[test]
fn surface_that_never_gets_ready_is_fatal() {
    let mut engine = engine_decoding("r");
    assert_eq!(engine.step(Event::Decoded(Some(render("hi")))), Ok(Request::CreateSurface));
    assert_eq!(engine.step(Event::SurfaceCreated), Ok(Request::AwaitReady));
    assert_eq!(
        engine.step(Event::SurfaceFailed),
        Ok(Request::Report { diagnostic: Diagnostic::SurfaceUnavailable })
    );
    assert_eq!(engine.window(), WindowState::Created);
    assert_eq!(engine.step(Event::SurfaceReady), Err(Unexpected { phase: Phase::Aborting }));
    assert_eq!(engine.step(Event::Performed), Ok(Request::Exit { status: FAILURE_STATUS }));
}

#[test]
fn surface_failure_is_only_taken_while_it_is_awaited() {
    let mut engine = Engine::new();
    assert_eq!(engine.step(Event::SurfaceFailed), Err(Unexpected { phase: Phase::Idle }));
    assert_eq!(engine.step(Event::Started), Ok(Request::ReadByte));
    assert_eq!(engine.step(Event::SurfaceFailed), Err(Unexpected { phase: Phase::Reading }));
    assert_eq!(engine.step(Event::Byte(10)), Ok(Request::Decode { line: String::new() }));
    assert_eq!(engine.step(Event::SurfaceFailed), Err(Unexpected { phase: Phase::Decoding }));
    assert_eq!(engine.step(Event::Decoded(None)).is_ok(), true);
    assert_eq!(engine.step(Event::SurfaceFailed), Err(Unexpected { phase: Phase::Performing }));
}
