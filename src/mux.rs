//! The decisions of the interactive client.
//!
//! The interactive client merges two sources: commands typed locally and
//! responses from the server. Each event is handed to `CliClient`, which
//! decides what to show, what to ask of the writer, and whether the session
//! is over; the program around it waits on the two sources and carries the
//! decisions out. While no session is open, `offline_command` decides what a
//! local command means.
use vstd::prelude::*;
use crate::client::{Request, RequestView, Response};
use crate::message::MessageView;
use crate::time::{clock_text, format_clock, micros_reading, parse_micros};
use crate::util::str_eq;
use crate::wire::packed_line;

verus! {

/// Something to show the user.
#[derive(Debug)]
pub enum Output {
    /// A line of text.
    Text(String),
    /// The command help.
    Help,
    /// A failure of the connection.
    Error(std::io::Error),
}

/// What is shown, with text as characters.
pub enum OutputView {
    Text(Seq<char>),
    Help,
    Error,
}

impl View for Output {
    type V = OutputView;

    open spec fn view(&self) -> OutputView {
        match self {
            Output::Text(s) => OutputView::Text(s@),
            Output::Help => OutputView::Help,
            Output::Error(_) => OutputView::Error,
        }
    }
}

/// The decision on one event: what to show, what to hand to the writer, and,
/// when the session is over, whether the whole program must exit.
#[derive(Debug)]
pub struct MuxStep {
    pub output: Option<Output>,
    pub request: Option<Request>,
    pub end: Option<bool>,
}

/// What a decision holds.
pub struct MuxStepView {
    pub output: Option<OutputView>,
    pub request: Option<RequestView>,
    pub end: Option<bool>,
}

impl View for MuxStep {
    type V = MuxStepView;

    open spec fn view(&self) -> MuxStepView {
        MuxStepView {
            output: match self.output {
                Some(o) => Some(o@),
                None => None,
            },
            request: match self.request {
                Some(r) => Some(r@),
                None => None,
            },
            end: self.end,
        }
    }
}

/// The state of an interactive session.
pub struct CliView {
    /// The last position the server reported, as displayed.
    pub last_time: Seq<char>,
    /// Whether new positions are shown as they come.
    pub report_time: bool,
}

/// The decision made of the given parts.
pub open spec fn decide(
    output: Option<OutputView>,
    request: Option<RequestView>,
    end: Option<bool>,
) -> MuxStepView {
    MuxStepView { output, request, end }
}

/// Whether `m` is the local directive `w`, which takes no arguments.
pub open spec fn is_directive(m: MessageView, w: Seq<char>) -> bool {
    m.word == w && m.args.len() == 0
}

/// How the session moves on a local command; `None` stands for a local
/// source that has closed.
pub open spec fn local_next(c: CliView, req: Option<Request>) -> (CliView, MuxStepView) {
    match req {
        Some(Request::SendMessage(m)) => if is_directive(m@, "disconnect"@) {
            (c, decide(None, Some(RequestView::Quit), Some(false)))
        } else if is_directive(m@, "quit"@) {
            (c, decide(None, Some(RequestView::Quit), Some(true)))
        } else if is_directive(m@, "help"@) {
            (c, decide(Some(OutputView::Help), None, None))
        } else if is_directive(m@, "toggle-time-report"@) {
            let on = !c.report_time;
            (
                CliView { last_time: c.last_time, report_time: on },
                decide(
                    Some(
                        OutputView::Text(
                            "i time reporting: "@ + if on {
                                "on"@
                            } else {
                                "off"@
                            },
                        ),
                    ),
                    None,
                    None,
                ),
            )
        } else if is_directive(m@, "report-time"@) {
            (c, decide(Some(OutputView::Text("T "@ + c.last_time)), None, None))
        } else {
            (
                c,
                decide(
                    Some(OutputView::Text("> "@ + packed_line(m@.word, m@.args))),
                    Some(RequestView::Send(m@)),
                    None,
                ),
            )
        },
        Some(Request::Quit) => (c, decide(None, Some(RequestView::Quit), Some(false))),
        None => (c, decide(None, None, Some(false))),
    }
}

/// Whether a response is a position report: `TIME` with one argument.
pub open spec fn is_time_report(resp: Option<Response>) -> bool {
    resp matches Some(Response::Message(m)) && m@.word == "TIME"@ && m@.args.len() == 1
}

/// How the session moves on a response from the server; `None` stands for
/// a response channel that has closed.
pub open spec fn response_next(c: CliView, resp: Option<Response>) -> (CliView, MuxStepView) {
    match resp {
        Some(Response::Message(m)) => if is_time_report(resp) {
            match micros_reading(m@.args[0]) {
                Some(us) => {
                    let t = clock_text(us as nat);
                    if t == c.last_time {
                        (c, decide(None, None, None))
                    } else {
                        (
                            CliView { last_time: t, report_time: c.report_time },
                            decide(
                                if c.report_time {
                                    Some(OutputView::Text("T "@ + t))
                                } else {
                                    None
                                },
                                None,
                                None,
                            ),
                        )
                    }
                },
                None => (c, decide(None, None, None)),
            }
        } else {
            (c, decide(Some(OutputView::Text("< "@ + packed_line(m@.word, m@.args))), None, None))
        },
        Some(Response::ClientError(_)) => (c, decide(Some(OutputView::Error), None, Some(false))),
        _ => (c, decide(None, None, Some(false))),
    }
}

/// A server reporting the same position twice shows it at most once.
pub proof fn lemma_repeated_time_shown_once(c: CliView, resp: Option<Response>)
    requires
        is_time_report(resp),
    ensures
        response_next(response_next(c, resp).0, resp).1.output is None,
        response_next(response_next(c, resp).0, resp).0 == response_next(c, resp).0,
{
}

/// The state of an interactive session with a server.
pub struct CliClient {
    last_time: String,
    report_time: bool,
}

impl View for CliClient {
    type V = CliView;

    closed spec fn view(&self) -> CliView {
        CliView { last_time: self.last_time@, report_time: self.report_time }
    }
}

/// Builds a decision.
fn make_step(output: Option<Output>, request: Option<Request>, end: Option<bool>) -> (r: MuxStep)
    ensures
        r.output == output,
        r.request == request,
        r.end == end,
{
    MuxStep { output, request, end }
}

/// A line of text to show.
fn text(prefix: &str, body: &str) -> (r: Option<Output>)
    ensures
        r matches Some(Output::Text(s)) && s@ == prefix@ + body@,
{
    Some(Output::Text(String::from_str(prefix).concat(body)))
}

impl CliClient {
    /// Starts a session: no position reported yet, reporting on.
    pub fn new() -> (r: CliClient)
        ensures
            r@.last_time == "0:00"@,
            r@.report_time,
    {
        CliClient { last_time: String::from_str("0:00"), report_time: true }
    }

    /// The last position reported, as displayed.
    pub fn last_time(&self) -> (r: &str)
        ensures
            r@ == self@.last_time,
    {
        self.last_time.as_str()
    }

    /// Whether new positions are shown as they come.
    pub fn reports_time(&self) -> (r: bool)
        ensures
            r == self@.report_time,
    {
        self.report_time
    }

    /// Decides what a local command means; `None` stands for a local source
    /// that has closed.
    pub fn handle_local(&mut self, req: Option<Request>) -> (out: MuxStep)
        ensures
            (final(self)@, out@) == local_next(old(self)@, req),
    {
        match req {
            Some(Request::SendMessage(m)) => {
                let directive = m.args().len() == 0;
                if directive && str_eq(m.word(), "disconnect") {
                    make_step(None, Some(Request::Quit), Some(false))
                } else if directive && str_eq(m.word(), "quit") {
                    make_step(None, Some(Request::Quit), Some(true))
                } else if directive && str_eq(m.word(), "help") {
                    make_step(Some(Output::Help), None, None)
                } else if directive && str_eq(m.word(), "toggle-time-report") {
                    self.report_time = !self.report_time;
                    let shown = if self.report_time {
                        text("i time reporting: ", "on")
                    } else {
                        text("i time reporting: ", "off")
                    };
                    make_step(shown, None, None)
                } else if directive && str_eq(m.word(), "report-time") {
                    make_step(text("T ", self.last_time.as_str()), None, None)
                } else {
                    let line = m.pack();
                    let shown = text("> ", line.as_str());
                    make_step(shown, Some(Request::SendMessage(m)), None)
                }
            },
            Some(Request::Quit) => make_step(None, Some(Request::Quit), Some(false)),
            None => make_step(None, None, Some(false)),
        }
    }

    /// Decides what a response from the server means; `None` stands for a
    /// response channel that has closed.
    pub fn handle_response(&mut self, resp: Option<Response>) -> (out: MuxStep)
        ensures
            (final(self)@, out@) == response_next(old(self)@, resp),
    {
        match resp {
            Some(Response::Message(m)) => {
                let margs = m.args();
                if str_eq(m.word(), "TIME") && margs.len() == 1 {
                    match parse_micros(margs[0]) {
                        Some(us) => {
                            let t = format_clock(us);
                            if t == self.last_time {
                                make_step(None, None, None)
                            } else {
                                let shown = if self.report_time {
                                    text("T ", t.as_str())
                                } else {
                                    None
                                };
                                self.last_time = t;
                                make_step(shown, None, None)
                            }
                        },
                        None => make_step(None, None, None),
                    }
                } else {
                    let line = m.pack();
                    make_step(text("< ", line.as_str()), None, None)
                }
            },
            Some(Response::ClientError(e)) => make_step(Some(Output::Error(e)), None, Some(false)),
            _ => make_step(None, None, Some(false)),
        }
    }
}

/// What a local command means while no session is open.
#[derive(Debug)]
pub enum Offline {
    /// Connect to the server at the given address.
    Connect(String),
    /// Show the command help.
    Help,
    /// Leave the program.
    Quit,
    /// The command needs a session.
    Refuse,
}

/// What an offline decision holds.
pub enum OfflineView {
    Connect(Seq<char>),
    Help,
    Quit,
    Refuse,
}

impl View for Offline {
    type V = OfflineView;

    open spec fn view(&self) -> OfflineView {
        match self {
            Offline::Connect(a) => OfflineView::Connect(a@),
            Offline::Help => OfflineView::Help,
            Offline::Quit => OfflineView::Quit,
            Offline::Refuse => OfflineView::Refuse,
        }
    }
}

/// What a local command means while no session is open: `connect ADDRESS`
/// opens one, `help` and `quit` work as in a session, and the end of local
/// input leaves the program.
pub open spec fn offline_meaning(req: Option<Request>) -> OfflineView {
    match req {
        Some(Request::SendMessage(m)) => if m@.word == "connect"@ && m@.args.len() == 1 {
            OfflineView::Connect(m@.args[0])
        } else if is_directive(m@, "help"@) {
            OfflineView::Help
        } else if is_directive(m@, "quit"@) {
            OfflineView::Quit
        } else {
            OfflineView::Refuse
        },
        _ => OfflineView::Quit,
    }
}

/// Decides what a local command means while no session is open; `None`
/// stands for a local source that has closed.
pub fn offline_command(req: &Option<Request>) -> (r: Offline)
    ensures
        r@ == offline_meaning(*req),
{
    match req {
        Some(Request::SendMessage(m)) => {
            let margs = m.args();
            if str_eq(m.word(), "connect") && margs.len() == 1 {
                Offline::Connect(String::from_str(margs[0]))
            } else if margs.len() == 0 && str_eq(m.word(), "help") {
                Offline::Help
            } else if margs.len() == 0 && str_eq(m.word(), "quit") {
                Offline::Quit
            } else {
                Offline::Refuse
            }
        },
        _ => Offline::Quit,
    }
}

} // verus!
