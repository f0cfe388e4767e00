//! The render dispatcher: a state machine that turns the events of a session
//! into the requests its driver has to carry out.
//!
//! The driver hands the engine one event at a time and performs the request
//! that comes back: it reads a byte, decodes a line, creates the surface,
//! waits for its readiness signal, delivers a payload, prints a diagnostic or
//! exits. The engine decides; the driver acts.

use crate::command::Action;
use crate::command::ActionView;
use crate::command::CommandKind;
use crate::fingerprint::fingerprint;
use crate::fingerprint::hash_string;
use crate::line_reader::LineReader;
use crate::line_reader::LineReaderView;
use crate::line_reader::ReadStep;
use crate::window::WindowState;
use vstd::prelude::*;
use vstd::utf8::decode_utf8;

verus! {

/// What is delivered to the display surface for one `render` command.
#[derive(Debug, PartialEq, Eq)]
pub struct RenderPayload {
    pub render_string: String,
    pub string_hash: String,
    pub is_first_render: bool,
}

/// Mathematical value of a [`RenderPayload`].
pub struct RenderPayloadView {
    pub render_string: Seq<char>,
    pub string_hash: Seq<char>,
    pub is_first_render: bool,
}

impl View for RenderPayload {
    type V = RenderPayloadView;

    open spec fn view(&self) -> RenderPayloadView {
        RenderPayloadView {
            render_string: self.render_string@,
            string_hash: self.string_hash@,
            is_first_render: self.is_first_render,
        }
    }
}

/// Something for the error channel. Only `SurfaceUnavailable` ends the
/// session.
#[derive(Debug, PartialEq, Eq)]
pub enum Diagnostic {
    /// The line could not be decoded as a command.
    InvalidLine { line: String },
    /// A `render` command came without the content to render.
    MissingArgument,
    /// The command's name is not known.
    UnknownCommand { action: Action },
    /// The display surface could not be created, or will never be ready.
    SurfaceUnavailable,
}

/// Mathematical value of a [`Diagnostic`].
pub enum DiagnosticView {
    InvalidLine { line: Seq<char> },
    MissingArgument,
    UnknownCommand { action: ActionView },
    SurfaceUnavailable,
}

impl View for Diagnostic {
    type V = DiagnosticView;

    open spec fn view(&self) -> DiagnosticView {
        match *self {
            Diagnostic::InvalidLine { line } => DiagnosticView::InvalidLine { line: line@ },
            Diagnostic::MissingArgument => DiagnosticView::MissingArgument,
            Diagnostic::UnknownCommand { action } => DiagnosticView::UnknownCommand {
                action: action@,
            },
            Diagnostic::SurfaceUnavailable => DiagnosticView::SurfaceUnavailable,
        }
    }
}

/// What the driver reports to the engine.
#[derive(Debug, PartialEq, Eq)]
pub enum Event {
    /// The session starts.
    Started,
    /// A byte was read from the input stream.
    Byte(u8),
    /// Reading the input stream failed or reached its end.
    ReadFailed,
    /// The line was decoded, or could not be.
    Decoded(Option<Action>),
    /// The display surface was created.
    SurfaceCreated,
    /// The display surface signalled readiness.
    SurfaceReady,
    /// The display surface could not be created, or its readiness signal
    /// can no longer arrive.
    SurfaceFailed,
    /// The payload was delivered, or the diagnostic printed.
    Performed,
}

/// Mathematical value of an [`Event`].
pub enum EventView {
    Started,
    Byte(u8),
    ReadFailed,
    Decoded(Option<ActionView>),
    SurfaceCreated,
    SurfaceReady,
    SurfaceFailed,
    Performed,
}

impl View for Event {
    type V = EventView;

    open spec fn view(&self) -> EventView {
        match *self {
            Event::Started => EventView::Started,
            Event::Byte(byte) => EventView::Byte(byte),
            Event::ReadFailed => EventView::ReadFailed,
            Event::Decoded(parsed) => EventView::Decoded(
                match parsed {
                    Some(action) => Some(action@),
                    None => None,
                },
            ),
            Event::SurfaceCreated => EventView::SurfaceCreated,
            Event::SurfaceReady => EventView::SurfaceReady,
            Event::SurfaceFailed => EventView::SurfaceFailed,
            Event::Performed => EventView::Performed,
        }
    }
}

/// What the engine asks the driver to do next.
#[derive(Debug, PartialEq, Eq)]
pub enum Request {
    /// Read one byte from the input stream; answer with `Byte` or
    /// `ReadFailed`.
    ReadByte,
    /// Decode the line as a command; answer with `Decoded`.
    Decode { line: String },
    /// Create the display surface; answer with `SurfaceCreated` or
    /// `SurfaceFailed`.
    CreateSurface,
    /// Wait for the surface's readiness signal; answer with `SurfaceReady`,
    /// or with `SurfaceFailed` where the signal can no longer arrive.
    AwaitReady,
    /// Deliver the payload to the surface; answer with `Performed`.
    Emit { payload: RenderPayload },
    /// Print the diagnostic on the error channel; answer with `Performed`.
    Report { diagnostic: Diagnostic },
    /// Leave with the given status. The session is over.
    Exit { status: i32 },
}

/// Mathematical value of a [`Request`].
pub enum RequestView {
    ReadByte,
    Decode { line: Seq<char> },
    CreateSurface,
    AwaitReady,
    Emit { payload: RenderPayloadView },
    Report { diagnostic: DiagnosticView },
    Exit { status: i32 },
}

impl View for Request {
    type V = RequestView;

    open spec fn view(&self) -> RequestView {
        match *self {
            Request::ReadByte => RequestView::ReadByte,
            Request::Decode { line } => RequestView::Decode { line: line@ },
            Request::CreateSurface => RequestView::CreateSurface,
            Request::AwaitReady => RequestView::AwaitReady,
            Request::Emit { payload } => RequestView::Emit { payload: payload@ },
            Request::Report { diagnostic } => RequestView::Report { diagnostic: diagnostic@ },
            Request::Exit { status } => RequestView::Exit { status },
        }
    }
}

/// Which answer the engine is waiting for.
#[derive(Clone, Copy, PartialEq, Eq, Debug, Structural)]
pub enum Phase {
    /// Nothing has happened yet; waits for `Started`.
    Idle,
    /// Waits for the next byte of input.
    Reading,
    /// Waits for the decoded line.
    Decoding,
    /// Waits for the surface to be created.
    Creating,
    /// Waits for the surface's readiness signal.
    Awaiting,
    /// Waits for a delivery or a diagnostic to be carried out.
    Performing,
    /// Waits for the diagnostic of a fatal failure to be printed.
    Aborting,
    /// The session is over.
    Finished,
}

/// An event that does not answer the request that was outstanding.
#[derive(Clone, Copy, PartialEq, Eq, Debug, Structural)]
pub struct Unexpected {
    /// The phase in which the event arrived.
    pub phase: Phase,
}

/// Status with which a session ends at a `done` command or at the end of its
/// input stream.
pub const EXIT_STATUS: i32 = 0;

/// Status with which a session ends when it cannot have its surface.
pub const FAILURE_STATUS: i32 = 1;

/// Mathematical value of an [`Engine`].
pub struct EngineView {
    /// The line reader; the input stream is over once it is done.
    pub reader: LineReaderView,
    /// The display surface's lifecycle.
    pub window: WindowState,
    /// Whether no payload has been handed out yet.
    pub is_first_render: bool,
    /// Which answer the engine is waiting for.
    pub phase: Phase,
    /// The line that is being decoded, or the content that waits for the
    /// surface; empty in the other phases.
    pub held: Seq<char>,
}

impl EngineView {
    /// The engine before its session starts.
    pub open spec fn initial() -> EngineView {
        EngineView {
            reader: LineReaderView::start(),
            window: WindowState::Absent,
            is_first_render: true,
            phase: Phase::Idle,
            held: Seq::empty(),
        }
    }

    /// The session ends: nothing is held and no further event is taken.
    pub open spec fn finish(self, status: i32) -> (EngineView, RequestView) {
        (
            EngineView { phase: Phase::Finished, held: Seq::empty(), ..self },
            RequestView::Exit { status },
        )
    }

    /// The session cannot have its surface: the driver is given the
    /// diagnostic to print before the session ends.
    pub open spec fn abort(self) -> (EngineView, RequestView) {
        (
            EngineView { phase: Phase::Aborting, held: Seq::empty(), ..self },
            RequestView::Report { diagnostic: DiagnosticView::SurfaceUnavailable },
        )
    }

    /// The engine turns to the next byte of input.
    pub open spec fn read_on(self) -> (EngineView, RequestView) {
        (EngineView { phase: Phase::Reading, held: Seq::empty(), ..self }, RequestView::ReadByte)
    }

    /// The driver is given a diagnostic to print.
    pub open spec fn report(self, diagnostic: DiagnosticView) -> (EngineView, RequestView) {
        (
            EngineView { phase: Phase::Performing, held: Seq::empty(), ..self },
            RequestView::Report { diagnostic },
        )
    }

    /// A byte arrives while the engine reads.
    pub open spec fn take_byte(self, byte: u8) -> (EngineView, RequestView) {
        let fed = EngineView { reader: self.reader.after(byte), ..self };
        if self.reader.completes_line(byte) {
            let line = decode_utf8(self.reader.pending);
            (EngineView { phase: Phase::Decoding, held: line, ..fed }, RequestView::Decode { line })
        } else if self.reader.ends_stream(byte) {
            fed.finish(EXIT_STATUS)
        } else {
            fed.read_on()
        }
    }

    /// The held content is handed out for delivery.
    pub open spec fn deliver(self) -> (EngineView, RequestView) {
        (
            EngineView {
                phase: Phase::Performing,
                is_first_render: false,
                held: Seq::empty(),
                ..self
            },
            RequestView::Emit {
                payload: RenderPayloadView {
                    render_string: self.held,
                    string_hash: fingerprint(self.held),
                    is_first_render: self.is_first_render,
                },
            },
        )
    }

    /// The held content is brought as far towards the surface as the
    /// surface's lifecycle allows.
    pub open spec fn advance_render(self) -> (EngineView, RequestView) {
        match self.window {
            WindowState::Absent => (
                EngineView { phase: Phase::Creating, ..self },
                RequestView::CreateSurface,
            ),
            WindowState::Created => (
                EngineView { phase: Phase::Awaiting, ..self },
                RequestView::AwaitReady,
            ),
            WindowState::Ready => self.deliver(),
        }
    }

    /// The decoding of the held line arrives.
    pub open spec fn dispatch(self, parsed: Option<ActionView>) -> (EngineView, RequestView) {
        match parsed {
            None => self.report(DiagnosticView::InvalidLine { line: self.held }),
            Some(action) => match action.kind() {
                CommandKind::Noop => self.read_on(),
                CommandKind::Done => self.finish(EXIT_STATUS),
                CommandKind::Render => (EngineView { held: action.args[0], ..self }).advance_render(),
                CommandKind::MissingArgument => self.report(DiagnosticView::MissingArgument),
                CommandKind::Unknown => self.report(DiagnosticView::UnknownCommand { action }),
            },
        }
    }

    /// The engine's answer to `event`: its next state and its request, or
    /// `None` where `event` does not answer the outstanding request.
    pub open spec fn step(self, event: EventView) -> Option<(EngineView, RequestView)> {
        match (self.phase, event) {
            (Phase::Idle, EventView::Started) => Some(self.read_on()),
            (Phase::Reading, EventView::Byte(byte)) => Some(self.take_byte(byte)),
            (Phase::Reading, EventView::ReadFailed) => Some(
                (EngineView { reader: LineReaderView::ended(), ..self }).finish(EXIT_STATUS),
            ),
            (Phase::Decoding, EventView::Decoded(parsed)) => Some(self.dispatch(parsed)),
            (Phase::Creating, EventView::SurfaceCreated) => Some(
                (EngineView { window: self.window.created(), ..self }).advance_render(),
            ),
            (Phase::Awaiting, EventView::SurfaceReady) => Some(
                (EngineView { window: self.window.signalled(), ..self }).advance_render(),
            ),
            (Phase::Creating, EventView::SurfaceFailed) => Some(self.abort()),
            (Phase::Awaiting, EventView::SurfaceFailed) => Some(self.abort()),
            (Phase::Performing, EventView::Performed) => Some(self.read_on()),
            (Phase::Aborting, EventView::Performed) => Some(self.finish(FAILURE_STATUS)),
            _ => None,
        }
    }
}

/// The state of one session.
pub struct Engine {
    reader: LineReader,
    window: WindowState,
    is_first_render: bool,
    phase: Phase,
    held: String,
}

impl View for Engine {
    type V = EngineView;

    closed spec fn view(&self) -> EngineView {
        EngineView {
            reader: self.reader@,
            window: self.window,
            is_first_render: self.is_first_render,
            phase: self.phase,
            held: self.held@,
        }
    }
}

impl Engine {
    /// An engine before its session starts.
    pub fn new() -> (r: Engine)
        ensures
            r@ == EngineView::initial(),
    {
        Engine {
            reader: LineReader::new(),
            window: WindowState::Absent,
            is_first_render: true,
            phase: Phase::Idle,
            held: String::new(),
        }
    }

    /// Which answer the engine is waiting for.
    pub fn phase(&self) -> (r: Phase)
        ensures
            r == self@.phase,
    {
        self.phase
    }

    /// Where the display surface stands in its lifecycle.
    pub fn window(&self) -> (r: WindowState)
        ensures
            r == self@.window,
    {
        self.window
    }

    /// Whether no payload has been handed out yet.
    pub fn is_first_render(&self) -> (r: bool)
        ensures
            r == self@.is_first_render,
    {
        self.is_first_render
    }

    /// Whether the input stream is over.
    pub fn stdin_done(&self) -> (r: bool)
        ensures
            r == self@.reader.done,
    {
        self.reader.is_done()
    }

    fn finish(&mut self, status: i32) -> (r: Request)
        ensures
            (final(self)@, r@) == old(self)@.finish(status),
    {
        self.phase = Phase::Finished;
        self.held = String::new();
        Request::Exit { status }
    }

    fn abort(&mut self) -> (r: Request)
        ensures
            (final(self)@, r@) == old(self)@.abort(),
    {
        self.phase = Phase::Aborting;
        self.held = String::new();
        Request::Report { diagnostic: Diagnostic::SurfaceUnavailable }
    }

    fn read_on(&mut self) -> (r: Request)
        ensures
            (final(self)@, r@) == old(self)@.read_on(),
    {
        self.phase = Phase::Reading;
        self.held = String::new();
        Request::ReadByte
    }

    fn report(&mut self, diagnostic: Diagnostic) -> (r: Request)
        ensures
            (final(self)@, r@) == old(self)@.report(diagnostic@),
    {
        self.phase = Phase::Performing;
        self.held = String::new();
        Request::Report { diagnostic }
    }

    fn take_byte(&mut self, byte: u8) -> (r: Request)
        ensures
            (final(self)@, r@) == old(self)@.take_byte(byte),
    {
        match self.reader.push(byte) {
            ReadStep::Pending => self.read_on(),
            ReadStep::End => self.finish(EXIT_STATUS),
            ReadStep::Line(line) => {
                self.phase = Phase::Decoding;
                self.held = line.clone();
                Request::Decode { line }
            },
        }
    }

    fn advance_render(&mut self) -> (r: Request)
        ensures
            (final(self)@, r@) == old(self)@.advance_render(),
    {
        match self.window {
            WindowState::Absent => {
                self.phase = Phase::Creating;
                Request::CreateSurface
            },
            WindowState::Created => {
                self.phase = Phase::Awaiting;
                Request::AwaitReady
            },
            WindowState::Ready => {
                let mut render_string = String::new();
                std::mem::swap(&mut self.held, &mut render_string);
                let string_hash = hash_string(&render_string);
                let is_first_render = self.is_first_render;
                self.phase = Phase::Performing;
                self.is_first_render = false;
                Request::Emit {
                    payload: RenderPayload { render_string, string_hash, is_first_render },
                }
            },
        }
    }

    fn dispatch(&mut self, parsed: Option<Action>) -> (r: Request)
        ensures
            (final(self)@, r@) == old(self)@.dispatch(
                match parsed {
                    Some(action) => Some(action@),
                    None => None,
                },
            ),
    {
        match parsed {
            None => {
                let mut line = String::new();
                std::mem::swap(&mut self.held, &mut line);
                self.report(Diagnostic::InvalidLine { line })
            },
            Some(action) => match action.kind() {
                CommandKind::Noop => self.read_on(),
                CommandKind::Done => self.finish(EXIT_STATUS),
                CommandKind::Render => {
                    self.held = action.args[0].clone();
                    self.advance_render()
                },
                CommandKind::MissingArgument => self.report(Diagnostic::MissingArgument),
                CommandKind::Unknown => self.report(Diagnostic::UnknownCommand { action }),
            },
        }
    }

    /// Takes the driver's answer to the outstanding request and says what to
    /// do next. An event that is no such answer changes nothing.
    pub fn step(&mut self, event: Event) -> (r: Result<Request, Unexpected>)
        ensures
            match old(self)@.step(event@) {
                Some((next, request)) => final(self)@ == next && r is Ok && r->Ok_0@ == request,
                None => final(self)@ == old(self)@ && r == Err::<Request, Unexpected>(
                    Unexpected { phase: old(self)@.phase },
                ),
            },
    {
        match (self.phase, event) {
            (Phase::Idle, Event::Started) => Ok(self.read_on()),
            (Phase::Reading, Event::Byte(byte)) => Ok(self.take_byte(byte)),
            (Phase::Reading, Event::ReadFailed) => {
                self.reader.fail();
                Ok(self.finish(EXIT_STATUS))
            },
            (Phase::Decoding, Event::Decoded(parsed)) => Ok(self.dispatch(parsed)),
            (Phase::Creating, Event::SurfaceCreated) => {
                self.window = self.window.created();
                Ok(self.advance_render())
            },
            (Phase::Awaiting, Event::SurfaceReady) => {
                self.window = self.window.signalled();
                Ok(self.advance_render())
            },
            (Phase::Creating, Event::SurfaceFailed) => Ok(self.abort()),
            (Phase::Awaiting, Event::SurfaceFailed) => Ok(self.abort()),
            (Phase::Performing, Event::Performed) => Ok(self.read_on()),
            (Phase::Aborting, Event::Performed) => Ok(self.finish(FAILURE_STATUS)),
            _ => Err(Unexpected { phase: self.phase }),
        }
    }
}

} // verus!
