//! The order of one invocation: connect, bind, search, show, unbind.
//!
//! A [`Session`] decides; its caller performs. Each call of
//! [`Session::step`] takes what happened and returns the lines to print and
//! the next thing to do.

use vstd::prelude::*;
use vstd::string::*;
use crate::entry::{entries_view, EntryView, ResultEntry};
use crate::error::{ClientError, ErrorKind, ErrorView};
use crate::json::json_text;
use crate::render::{invalid_mode_text, mode_of_token, render, table_text, OutputMode};
use crate::request::{
    ConnectionParameters, Job, JobView, ParametersView, Presentation, PresentationView,
    RequestView, SearchRequest,
};
use crate::text::{copy_texts, decimal, push_decimal, texts};

verus! {

/// Where a session stands.
#[derive(Clone, Copy, Debug, PartialEq, Eq, Structural)]
pub enum Stage {
    /// Nothing has been done yet.
    Ready,
    /// The connection is being opened.
    Connecting,
    /// The bind is under way.
    Binding,
    /// The search is under way.
    Searching,
    /// The result has been shown and the session is being closed.
    Closing,
    /// The session is over.
    Done,
}

/// The result part of a server's answer: code, matched name, diagnostic text.
#[derive(Clone, Debug, PartialEq, Eq)]
pub struct Reply {
    pub rc: u32,
    pub matched: String,
    pub text: String,
}

/// What a reply holds.
pub struct ReplyView {
    pub rc: u32,
    pub matched: Seq<char>,
    pub text: Seq<char>,
}

impl View for Reply {
    type V = ReplyView;

    open spec fn view(&self) -> ReplyView {
        ReplyView { rc: self.rc, matched: self.matched@, text: self.text@ }
    }
}

/// What happened since the last step.
#[derive(Clone, Debug, PartialEq, Eq)]
pub enum Event {
    /// The caller is ready to start.
    Begin,
    /// The connection was opened, or the session was closed.
    Completed,
    /// The action failed below the protocol; the text is the cause.
    Broken(String),
    /// The server answered the bind.
    Bound(Reply),
    /// The server answered the search with these entries.
    Found(Reply, Vec<ResultEntry>),
}

/// What an event holds.
pub enum EventView {
    Begin,
    Completed,
    Broken(Seq<char>),
    Bound(ReplyView),
    Found(ReplyView, Seq<EntryView>),
}

impl View for Event {
    type V = EventView;

    open spec fn view(&self) -> EventView {
        match self {
            Event::Begin => EventView::Begin,
            Event::Completed => EventView::Completed,
            Event::Broken(cause) => EventView::Broken(cause@),
            Event::Bound(reply) => EventView::Bound(reply@),
            Event::Found(reply, entries) => EventView::Found(reply@, entries_view(entries@)),
        }
    }
}

/// What the caller is to do next.
#[derive(Clone, Debug, PartialEq, Eq)]
pub enum Action {
    /// Open a connection to this address.
    Connect { url: String },
    /// Bind with this name and password.
    Bind { dn: String, password: String },
    /// Issue this search.
    Search(SearchRequest),
    /// Close the session.
    Unbind,
    /// Stop: with success, or with this error.
    Stop(Option<ClientError>),
}

/// What an action holds.
pub enum ActionView {
    Connect { url: Seq<char> },
    Bind { dn: Seq<char>, password: Seq<char> },
    Search(RequestView),
    Unbind,
    Stop(Option<ErrorView>),
}

impl View for Action {
    type V = ActionView;

    open spec fn view(&self) -> ActionView {
        match self {
            Action::Connect { url } => ActionView::Connect { url: url@ },
            Action::Bind { dn, password } => ActionView::Bind { dn: dn@, password: password@ },
            Action::Search(request) => ActionView::Search(request@),
            Action::Unbind => ActionView::Unbind,
            Action::Stop(end) => ActionView::Stop(
                match end {
                    Some(e) => Some(e@),
                    None => None,
                },
            ),
        }
    }
}

/// The answer of a step: the lines to print now, then the action to perform.
#[derive(Clone, Debug, PartialEq, Eq)]
pub struct Step {
    pub output: Vec<String>,
    pub action: Action,
}

/// A step as the rules give it: the stage the session moves to, the lines to
/// print, and the action.
pub struct Outcome {
    pub stage: Stage,
    pub output: Seq<Seq<char>>,
    pub action: ActionView,
}

/// One invocation of the client on its way from start to stop.
#[derive(Debug)]
pub struct Session {
    stage: Stage,
    params: ConnectionParameters,
    job: Job,
}

/// What a session holds.
pub struct SessionView {
    pub stage: Stage,
    pub params: ParametersView,
    pub job: JobView,
}

impl View for Session {
    type V = SessionView;

    closed spec fn view(&self) -> SessionView {
        SessionView { stage: self.stage, params: self.params@, job: self.job@ }
    }
}

/// The text for a result code other than success, as the directory client
/// library words it.
pub uninterp spec fn failure_text(rc: u32, matched: Seq<char>, text: Seq<char>) -> Seq<char>;

/// `LdapResult::success` of `ldap3`, on a result with the given code, matched
/// name and text: it accepts code zero and nothing else. For any other code
/// the text of its error is returned, which depends on the three values
/// alone; `failure_text` is the name of that text. The answer to a search is
/// judged here too: `SearchResult::success` makes the same test on the result
/// part and builds the same error.
#[verifier::external_body]
fn reply_failure(rc: u32, matched: &str, text: &str) -> (r: Option<String>)
    ensures
        r is None <==> rc == 0,
        r matches Some(t) ==> t@ == failure_text(rc, matched@, text@),
{
    let reply = ldap3::LdapResult {
        rc,
        matched: matched.to_string(),
        text: text.to_string(),
        refs: Vec::new(),
        ctrls: Vec::new(),
    };
    match reply.success() {
        Ok(_) => None,
        Err(e) => Some(e.to_string()),
    }
}

/// A step that ends the session with an error and prints nothing.
pub open spec fn stop_with(kind: ErrorKind, context: Seq<char>, cause: Option<Seq<char>>) -> Outcome {
    Outcome {
        stage: Stage::Done,
        output: Seq::empty(),
        action: ActionView::Stop(Some(ErrorView { kind, context, cause })),
    }
}

/// The step for an event that the stage does not expect.
pub open spec fn out_of_order() -> Outcome {
    stop_with(ErrorKind::Unexpected, "Event does not fit the stage of the session"@, None)
}

/// The line that acknowledges a successful bind.
pub open spec fn bound_text() -> Seq<char> {
    "✓ Successfully connected and authenticated to LDAP server"@
}

/// The context of a search that failed below the protocol.
pub open spec fn search_broken_text(presentation: PresentationView) -> Seq<char> {
    match presentation {
        PresentationView::Render(_) => "LDAP search failed"@,
        PresentationView::Count => "Test search failed"@,
    }
}

/// The context of a search that the server answered with a failure.
pub open spec fn search_rejected_text(presentation: PresentationView) -> Seq<char> {
    match presentation {
        PresentationView::Render(_) => "LDAP search operation failed"@,
        PresentationView::Count => "Test search operation failed"@,
    }
}

/// The lines of a connection check that went through.
pub open spec fn count_lines(found: nat) -> Seq<Seq<char>> {
    seq!["✓ Connection test successful!"@, "✓ Found "@ + decimal(found) + " base entries"@]
}

/// The step after a rendering: print the text and close, or stop with the
/// error of the rendering.
pub open spec fn shown(rendered: Result<Seq<char>, ErrorView>) -> Outcome {
    match rendered {
        Ok(text) => Outcome { stage: Stage::Closing, output: seq![text], action: ActionView::Unbind },
        Err(e) => Outcome {
            stage: Stage::Done,
            output: Seq::empty(),
            action: ActionView::Stop(Some(e)),
        },
    }
}

/// What rendering gives for entries in the mode of a name.
pub open spec fn rendering(entries: Seq<EntryView>, mode: Seq<char>) -> Result<
    Seq<char>,
    ErrorView,
> {
    match mode_of_token(mode) {
        None => Err(
            ErrorView {
                kind: ErrorKind::InvalidOutputMode,
                context: invalid_mode_text(mode),
                cause: None,
            },
        ),
        Some(OutputMode::Table) => Ok(table_text(entries)),
        Some(OutputMode::Json) => Ok(json_text(entries)),
    }
}

/// The step after a search that succeeded. A connection check prints the
/// count and closes the session. Otherwise no entry at all is reported as
/// such, whatever the output mode, and the session is closed; one or more
/// are rendered and printed and the session is closed, or the output mode is
/// rejected and the session ends.
pub open spec fn present(presentation: PresentationView, entries: Seq<EntryView>) -> Outcome {
    match presentation {
        PresentationView::Count => Outcome {
            stage: Stage::Closing,
            output: count_lines(entries.len()),
            action: ActionView::Unbind,
        },
        PresentationView::Render(mode) => if entries.len() == 0 {
            Outcome {
                stage: Stage::Closing,
                output: seq!["No entries found."@],
                action: ActionView::Unbind,
            }
        } else {
            shown(rendering(entries, mode))
        },
    }
}

/// The rules of a session: the step for an event at a stage.
pub open spec fn advance(s: SessionView, e: EventView) -> Outcome {
    match (s.stage, e) {
        (Stage::Ready, EventView::Begin) => Outcome {
            stage: Stage::Connecting,
            output: s.job.preamble,
            action: ActionView::Connect { url: s.params.url },
        },
        (Stage::Connecting, EventView::Completed) => Outcome {
            stage: Stage::Binding,
            output: Seq::empty(),
            action: ActionView::Bind { dn: s.params.bind_dn, password: s.params.password },
        },
        (Stage::Connecting, EventView::Broken(cause)) => stop_with(
            ErrorKind::ConnectFailed,
            "Failed to connect to LDAP server"@,
            Some(cause),
        ),
        (Stage::Binding, EventView::Bound(reply)) => if reply.rc == 0 {
            Outcome {
                stage: Stage::Searching,
                output: seq![bound_text()] + s.job.announcement,
                action: ActionView::Search(s.job.request),
            }
        } else {
            stop_with(
                ErrorKind::BindFailed,
                "LDAP bind failed"@,
                Some(failure_text(reply.rc, reply.matched, reply.text)),
            )
        },
        (Stage::Binding, EventView::Broken(cause)) => stop_with(
            ErrorKind::BindFailed,
            "Failed to bind to LDAP server"@,
            Some(cause),
        ),
        (Stage::Searching, EventView::Found(reply, entries)) => if reply.rc == 0 {
            present(s.job.presentation, entries)
        } else {
            stop_with(
                ErrorKind::SearchFailed,
                search_rejected_text(s.job.presentation),
                Some(failure_text(reply.rc, reply.matched, reply.text)),
            )
        },
        (Stage::Searching, EventView::Broken(cause)) => stop_with(
            ErrorKind::SearchFailed,
            search_broken_text(s.job.presentation),
            Some(cause),
        ),
        (Stage::Closing, EventView::Completed) => Outcome {
            stage: Stage::Done,
            output: Seq::empty(),
            action: ActionView::Stop(None),
        },
        (Stage::Closing, EventView::Broken(cause)) => stop_with(
            ErrorKind::UnbindFailed,
            "Failed to unbind from LDAP server"@,
            Some(cause),
        ),
        _ => out_of_order(),
    }
}

/// A step as the rules see it, together with the stage it leads to.
pub open spec fn outcome_of(stage: Stage, step: Step) -> Outcome {
    Outcome { stage, output: texts(step.output@), action: step.action@ }
}

/// What a rendering holds.
pub open spec fn rendered_view(rendered: Result<String, ClientError>) -> Result<
    Seq<char>,
    ErrorView,
> {
    match rendered {
        Ok(text) => Ok(text@),
        Err(e) => Err(e@),
    }
}

fn halt(kind: ErrorKind, context: &str, cause: Option<String>) -> (r: (Stage, Step))
    ensures
        outcome_of(r.0, r.1) == stop_with(
            kind,
            context@,
            match cause {
                Some(c) => Some(c@),
                None => None,
            },
        ),
{
    let output: Vec<String> = Vec::new();
    assert(texts(output@) =~= Seq::<Seq<char>>::empty());
    let error = ClientError { kind, context: String::from_str(context), cause };
    (Stage::Done, Step { output, action: Action::Stop(Some(error)) })
}

fn quiet(stage: Stage, action: Action) -> (r: (Stage, Step))
    ensures
        outcome_of(r.0, r.1) == (Outcome { stage, output: Seq::empty(), action: action@ }),
{
    let output: Vec<String> = Vec::new();
    assert(texts(output@) =~= Seq::<Seq<char>>::empty());
    (stage, Step { output, action })
}

/// The step that follows a rendering: its text is printed and the session is
/// closed, or its error ends the session and nothing is printed.
pub fn after_rendering(rendered: Result<String, ClientError>) -> (r: (Stage, Step))
    ensures
        outcome_of(r.0, r.1) == shown(rendered_view(rendered)),
{
    match rendered {
        Ok(text) => {
            let mut output: Vec<String> = Vec::new();
            output.push(text);
            assert(texts(output@) =~= seq![text@]);
            (Stage::Closing, Step { output, action: Action::Unbind })
        },
        Err(e) => {
            let output: Vec<String> = Vec::new();
            assert(texts(output@) =~= Seq::<Seq<char>>::empty());
            (Stage::Done, Step { output, action: Action::Stop(Some(e)) })
        },
    }
}

fn show(presentation: &Presentation, entries: &Vec<ResultEntry>) -> (r: (Stage, Step))
    ensures
        outcome_of(r.0, r.1) == present(presentation@, entries_view(entries@)),
{
    match presentation {
        Presentation::Count => {
            let mut output: Vec<String> = Vec::new();
            output.push(String::from_str("✓ Connection test successful!"));
            let mut line = String::from_str("✓ Found ");
            push_decimal(&mut line, entries.len());
            line.append(" base entries");
            output.push(line);
            assert(texts(output@) =~= count_lines(entries_view(entries@).len()));
            (Stage::Closing, Step { output, action: Action::Unbind })
        },
        Presentation::Render(mode) => {
            if entries.len() == 0 {
                let mut output: Vec<String> = Vec::new();
                output.push(String::from_str("No entries found."));
                assert(texts(output@) =~= seq!["No entries found."@]);
                (Stage::Closing, Step { output, action: Action::Unbind })
            } else {
                let rendered = render(entries, mode.as_str());
                assert(rendered_view(rendered) == rendering(entries_view(entries@), mode@));
                after_rendering(rendered)
            }
        },
    }
}

impl Session {
    /// A session that has not started yet.
    pub fn new(params: ConnectionParameters, job: Job) -> (session: Session)
        ensures
            session@ == (SessionView { stage: Stage::Ready, params: params@, job: job@ }),
    {
        Session { stage: Stage::Ready, params, job }
    }

    /// The stage at which the session stands.
    pub fn stage(&self) -> (stage: Stage)
        ensures
            stage == self@.stage,
    {
        self.stage
    }

    /// Takes what happened and says what to print and what to do next.
    ///
    /// The session moves as [`advance`] says. Parameters and job stay as they
    /// are.
    pub fn step(&mut self, event: Event) -> (step: Step)
        ensures
            final(self)@.params == old(self)@.params,
            final(self)@.job == old(self)@.job,
            outcome_of(final(self)@.stage, step) == advance(old(self)@, event@),
    {
        let (stage, step) = match self.stage {
            Stage::Ready => match event {
                Event::Begin => (
                    Stage::Connecting,
                    Step {
                        output: copy_texts(&self.job.preamble),
                        action: Action::Connect { url: self.params.url.clone() },
                    },
                ),
                _ => halt(ErrorKind::Unexpected, "Event does not fit the stage of the session", None),
            },
            Stage::Connecting => match event {
                Event::Completed => quiet(
                    Stage::Binding,
                    Action::Bind {
                        dn: self.params.bind_dn.clone(),
                        password: self.params.password.clone(),
                    },
                ),
                Event::Broken(cause) => halt(
                    ErrorKind::ConnectFailed,
                    "Failed to connect to LDAP server",
                    Some(cause),
                ),
                _ => halt(ErrorKind::Unexpected, "Event does not fit the stage of the session", None),
            },
            Stage::Binding => match event {
                Event::Bound(reply) => match reply_failure(
                    reply.rc,
                    reply.matched.as_str(),
                    reply.text.as_str(),
                ) {
                    None => {
                        let mut output: Vec<String> = Vec::new();
                        output.push(
                            String::from_str(
                                "✓ Successfully connected and authenticated to LDAP server",
                            ),
                        );
                        let ghost first = texts(output@);
                        crate::text::append_lines(&mut output, copy_texts(&self.job.announcement));
                        assert(first =~= seq![bound_text()]);
                        (
                            Stage::Searching,
                            Step { output, action: Action::Search(self.job.request.copy()) },
                        )
                    },
                    Some(failure) => halt(ErrorKind::BindFailed, "LDAP bind failed", Some(failure)),
                },
                Event::Broken(cause) => halt(
                    ErrorKind::BindFailed,
                    "Failed to bind to LDAP server",
                    Some(cause),
                ),
                _ => halt(ErrorKind::Unexpected, "Event does not fit the stage of the session", None),
            },
            Stage::Searching => match event {
                Event::Found(reply, entries) => match reply_failure(
                    reply.rc,
                    reply.matched.as_str(),
                    reply.text.as_str(),
                ) {
                    None => show(&self.job.presentation, &entries),
                    Some(failure) => match self.job.presentation {
                        Presentation::Render(_) => halt(
                            ErrorKind::SearchFailed,
                            "LDAP search operation failed",
                            Some(failure),
                        ),
                        Presentation::Count => halt(
                            ErrorKind::SearchFailed,
                            "Test search operation failed",
                            Some(failure),
                        ),
                    },
                },
                Event::Broken(cause) => match self.job.presentation {
                    Presentation::Render(_) => halt(
                        ErrorKind::SearchFailed,
                        "LDAP search failed",
                        Some(cause),
                    ),
                    Presentation::Count => halt(
                        ErrorKind::SearchFailed,
                        "Test search failed",
                        Some(cause),
                    ),
                },
                _ => halt(ErrorKind::Unexpected, "Event does not fit the stage of the session", None),
            },
            Stage::Closing => match event {
                Event::Completed => quiet(Stage::Done, Action::Stop(None)),
                Event::Broken(cause) => halt(
                    ErrorKind::UnbindFailed,
                    "Failed to unbind from LDAP server",
                    Some(cause),
                ),
                _ => halt(ErrorKind::Unexpected, "Event does not fit the stage of the session", None),
            },
            Stage::Done => halt(
                ErrorKind::Unexpected,
                "Event does not fit the stage of the session",
                None,
            ),
        };
        self.stage = stage;
        step
    }
}

/// Whether an event tells of a bind that did not go through: the exchange
/// broke, or the server answered with a code other than success.
pub open spec fn failed_bind(e: EventView) -> bool {
    match e {
        EventView::Broken(_) => true,
        EventView::Bound(reply) => reply.rc != 0,
        _ => false,
    }
}

/// Whether an event tells that the server accepted the bind.
pub open spec fn accepted_bind(e: EventView) -> bool {
    match e {
        EventView::Bound(reply) => reply.rc == 0,
        _ => false,
    }
}

/// A session after a step.
pub open spec fn moved(s: SessionView, o: Outcome) -> SessionView {
    SessionView { stage: o.stage, params: s.params, job: s.job }
}

/// A session after a run of events.
pub open spec fn after(s: SessionView, events: Seq<EventView>) -> SessionView
    decreases events.len(),
{
    if events.len() == 0 {
        s
    } else {
        let before = after(s, events.drop_last());
        moved(before, advance(before, events.last()))
    }
}

/// Only one step issues a search or enters the searching stage: the one that
/// takes the server's acceptance of the bind at the binding stage.
pub proof fn lemma_search_follows_bind(s: SessionView, e: EventView)
    ensures
        advance(s, e).action is Search || advance(s, e).stage == Stage::Searching
            ==> s.stage == Stage::Binding && accepted_bind(e),
{
}

/// Each action is issued at one stage alone: a connection is opened only by
/// a session that has not started, a bind follows the connection, a search
/// follows the bind, and the session is closed only after a search.
pub proof fn lemma_actions_name_their_stage(s: SessionView, e: EventView)
    ensures
        advance(s, e).action is Connect ==> s.stage == Stage::Ready,
        advance(s, e).action is Bind ==> s.stage == Stage::Connecting,
        advance(s, e).action is Search ==> s.stage == Stage::Binding,
        advance(s, e).action is Unbind ==> s.stage == Stage::Searching,
{
}

/// A step that ends the session with an error prints nothing.
pub proof fn lemma_errors_print_nothing(s: SessionView, e: EventView)
    ensures
        advance(s, e).action matches ActionView::Stop(Some(_)) ==> advance(s, e).output
            == Seq::<Seq<char>>::empty() && advance(s, e).stage == Stage::Done,
{
}

/// A session ends with success at one stage alone: the closing stage, when
/// the close went through. So every run that meets no error ends with the
/// close.
pub proof fn lemma_success_follows_close(s: SessionView, e: EventView)
    ensures
        advance(s, e).action == ActionView::Stop(None) ==> s.stage == Stage::Closing && e
            == EventView::Completed,
{
}

/// A search that the server answers with success and without an entry is
/// reported as such and followed by the close, whatever the output mode; a
/// connection check reports its count and is followed by the close.
pub proof fn lemma_answered_search_closes(s: SessionView, reply: ReplyView, entries: Seq<EntryView>)
    requires
        s.stage == Stage::Searching,
        reply.rc == 0,
        entries.len() == 0 || s.job.presentation == PresentationView::Count,
    ensures
        advance(s, EventView::Found(reply, entries)).stage == Stage::Closing,
        advance(s, EventView::Found(reply, entries)).action == ActionView::Unbind,
        advance(s, EventView::Found(reply, entries)).output == match s.job.presentation {
            PresentationView::Count => count_lines(entries.len()),
            PresentationView::Render(_) => seq!["No entries found."@],
        },
{
}

/// Entries that a search found are shown in the mode that was asked for, and
/// the session is closed, exactly when the mode is `json` or `table`. Any
/// other mode ends the session with `InvalidOutputMode`, and nothing is
/// printed.
pub proof fn lemma_unknown_mode_alone_is_rejected(
    s: SessionView,
    reply: ReplyView,
    entries: Seq<EntryView>,
    mode: Seq<char>,
)
    requires
        s.stage == Stage::Searching,
        s.job.presentation == PresentationView::Render(mode),
        reply.rc == 0,
        entries.len() > 0,
    ensures
        advance(s, EventView::Found(reply, entries)).action is Stop <==> mode_of_token(mode)
            is None,
        mode_of_token(mode) is None ==> advance(s, EventView::Found(reply, entries)) == stop_with(
            ErrorKind::InvalidOutputMode,
            invalid_mode_text(mode),
            None,
        ),
        mode_of_token(mode) == Some(OutputMode::Table) ==> advance(
            s,
            EventView::Found(reply, entries),
        ) == (Outcome {
            stage: Stage::Closing,
            output: seq![table_text(entries)],
            action: ActionView::Unbind,
        }),
        mode_of_token(mode) == Some(OutputMode::Json) ==> advance(
            s,
            EventView::Found(reply, entries),
        ) == (Outcome {
            stage: Stage::Closing,
            output: seq![json_text(entries)],
            action: ActionView::Unbind,
        }),
{
}

/// A bind that does not go through ends the session with `BindFailed`, and
/// nothing is printed.
pub proof fn lemma_failed_bind_ends_session(s: SessionView, e: EventView)
    requires
        s.stage == Stage::Binding,
        failed_bind(e),
    ensures
        advance(s, e).stage == Stage::Done,
        advance(s, e).output == Seq::<Seq<char>>::empty(),
        advance(s, e).action matches ActionView::Stop(Some(error)) && error.kind
            == ErrorKind::BindFailed,
{
}

/// A session that is over stays over: every further step stops.
pub proof fn lemma_done_is_final(s: SessionView, e: EventView)
    requires
        s.stage == Stage::Done,
    ensures
        advance(s, e).stage == Stage::Done,
        advance(s, e).action is Stop,
{
}

/// `SearchFailed` comes from the searching stage alone, `BindFailed` from the
/// binding stage alone.
pub proof fn lemma_failures_name_their_stage(s: SessionView, e: EventView)
    ensures
        advance(s, e).action matches ActionView::Stop(Some(error)) ==> {
            &&& error.kind == ErrorKind::SearchFailed ==> s.stage == Stage::Searching
            &&& error.kind == ErrorKind::BindFailed ==> s.stage == Stage::Binding
            &&& error.kind == ErrorKind::ConnectFailed ==> s.stage == Stage::Connecting
            &&& error.kind == ErrorKind::UnbindFailed ==> s.stage == Stage::Closing
        },
{
}

/// After a bind that did not go through, the session is over and no later
/// step issues a search, whatever events follow.
pub proof fn lemma_no_search_after_failed_bind(
    s: SessionView,
    events: Seq<EventView>,
    k: int,
    j: int,
)
    requires
        0 <= k < j <= events.len(),
        after(s, events.take(k)).stage == Stage::Binding,
        failed_bind(events[k]),
    ensures
        after(s, events.take(j)).stage == Stage::Done,
        j < events.len() ==> !(advance(after(s, events.take(j)), events[j]).action is Search),
    decreases j,
{
    assert(events.take(j).drop_last() =~= events.take(j - 1));
    assert(events.take(j).last() == events[j - 1]);
    if j - 1 > k {
        lemma_no_search_after_failed_bind(s, events, k, j - 1);
    }
}

} // verus!
