//! The run of the whole pipeline as a state machine.
//!
//! The caller owns everything that touches the outside world: it starts the
//! expansion of the project, reports how that went, and writes the directive
//! set out. [`step`] decides what happens in between.

use vstd::prelude::*;
use vstd::utf8::{decode_utf8, valid_utf8};
use crate::extractor::{directive_set, discover, notices};
use crate::literal::{find_unreadable, unreadable_literal};
use crate::source::{lexed_literals, literal_tokens, parse_items, parsed_source};
use crate::style::LinkerArgStyle;
use crate::text::decode;
use crate::tree::{SourceItem, SourceItemView};

verus! {

/// Why a run failed. Every failure ends the run.
#[derive(Debug, PartialEq, Eq)]
pub enum Failure {
    /// The expansion of the project could not be started; the cause is kept.
    NotStarted { cause: String },
    /// The expansion was started but could not be waited for; the cause is
    /// kept.
    WaitFailed { cause: String },
    /// The expansion printed something that is not text.
    OutputNotText,
    /// The expansion ended with an error; what it printed is kept.
    ExpansionFailed { stdout: String, stderr: String },
    /// The expanded text holds a literal of a kind that the parser cannot
    /// read, wherever in the text it stands: also in a place that the parser
    /// would have passed over.
    UnreadableLiteral { literal: String },
    /// The expanded text is not a Rust file.
    ParseFailed { message: String },
}

/// The mathematical value of a [`Failure`].
pub enum FailureView {
    NotStarted { cause: Seq<char> },
    WaitFailed { cause: Seq<char> },
    OutputNotText,
    ExpansionFailed { stdout: Seq<char>, stderr: Seq<char> },
    UnreadableLiteral { literal: Seq<char> },
    ParseFailed { message: Seq<char> },
}

impl DeepView for Failure {
    type V = FailureView;

    open spec fn deep_view(&self) -> FailureView {
        match self {
            Failure::NotStarted { cause } => FailureView::NotStarted { cause: cause@ },
            Failure::WaitFailed { cause } => FailureView::WaitFailed { cause: cause@ },
            Failure::OutputNotText => FailureView::OutputNotText,
            Failure::ExpansionFailed { stdout, stderr } => FailureView::ExpansionFailed {
                stdout: stdout@,
                stderr: stderr@,
            },
            Failure::UnreadableLiteral { literal } => FailureView::UnreadableLiteral {
                literal: literal@,
            },
            Failure::ParseFailed { message } => FailureView::ParseFailed { message: message@ },
        }
    }
}

/// The report that a failure is shown to the user with. A failed expansion is
/// reported with everything it printed.
pub open spec fn failure_report(failure: FailureView) -> Seq<char> {
    match failure {
        FailureView::NotStarted { cause } =>
            "Failed to execute nightly rust compiler, one must be installed for strict_linking: "@
                + cause,
        FailureView::WaitFailed { cause } =>
            "error executing nightly rust compiler during strict_linking: "@ + cause,
        FailureView::OutputNotText => "cargo output wasn't utf8. This is a bug!"@,
        FailureView::ExpansionFailed { stdout, stderr } =>
            "Compiling with nightly failed.\nstdout: "@ + stdout + "\nstderr: "@ + stderr,
        FailureView::UnreadableLiteral { literal } =>
            "strict_linking failed to parse code as token stream: unrecognized literal: "@
                + literal,
        FailureView::ParseFailed { message } =>
            "strict_linking failed to parse code as token stream: "@ + message,
    }
}

impl Failure {
    /// The report to show to the user.
    pub fn report(&self) -> (text: String)
        ensures
            text@ == failure_report(self.deep_view()),
    {
        match self {
            Failure::NotStarted { cause } => String::from_str(
                "Failed to execute nightly rust compiler, one must be installed for strict_linking: ",
            ).concat(cause.as_str()),
            Failure::WaitFailed { cause } => String::from_str(
                "error executing nightly rust compiler during strict_linking: ",
            ).concat(cause.as_str()),
            Failure::OutputNotText => String::from_str("cargo output wasn't utf8. This is a bug!"),
            Failure::ExpansionFailed { stdout, stderr } => String::from_str(
                "Compiling with nightly failed.\nstdout: ",
            ).concat(stdout.as_str()).concat("\nstderr: ").concat(stderr.as_str()),
            Failure::UnreadableLiteral { literal } => String::from_str(
                "strict_linking failed to parse code as token stream: unrecognized literal: ",
            ).concat(literal.as_str()),
            Failure::ParseFailed { message } => String::from_str(
                "strict_linking failed to parse code as token stream: ",
            ).concat(message.as_str()),
        }
    }
}

/// Where a run stands.
#[derive(Debug, PartialEq, Eq)]
pub enum PipelineState {
    /// Nothing has happened yet.
    Idle,
    /// The expansion of the project is under way.
    Expanding,
    /// The expanded text is at hand and waits to be parsed.
    Parsing { text: String },
    /// The text is parsed and its items wait to be walked.
    Walking { items: Vec<SourceItem> },
    /// Every directive is collected and waits to be handed over.
    Emitting { directives: Vec<String>, notices: Vec<String> },
    /// The run is over.
    Done,
    /// The run has failed.
    Failed(Failure),
}

/// The mathematical value of a [`PipelineState`].
pub enum StateView {
    Idle,
    Expanding,
    Parsing { text: Seq<char> },
    Walking { items: Seq<SourceItemView> },
    Emitting { directives: Seq<Seq<char>>, notices: Seq<Seq<char>> },
    Done,
    Failed(FailureView),
}

impl DeepView for PipelineState {
    type V = StateView;

    open spec fn deep_view(&self) -> StateView {
        match self {
            PipelineState::Idle => StateView::Idle,
            PipelineState::Expanding => StateView::Expanding,
            PipelineState::Parsing { text } => StateView::Parsing { text: text@ },
            PipelineState::Walking { items } => StateView::Walking { items: items.deep_view() },
            PipelineState::Emitting { directives, notices } => StateView::Emitting {
                directives: directives.deep_view(),
                notices: notices.deep_view(),
            },
            PipelineState::Done => StateView::Done,
            PipelineState::Failed(failure) => StateView::Failed(failure.deep_view()),
        }
    }
}

/// What the expansion of the project left behind.
#[derive(Debug, PartialEq, Eq)]
pub struct ExpansionOutput {
    /// Whether the process reported success.
    pub success: bool,
    /// What it wrote to its standard output.
    pub stdout: Vec<u8>,
    /// What it wrote to its standard error.
    pub stderr: Vec<u8>,
}

/// What the caller reports to the pipeline.
#[derive(Debug, PartialEq, Eq)]
pub enum Event {
    /// The run begins. `already_expanding` says that this run was itself
    /// started by an expansion, which must not start another.
    Start { already_expanding: bool, toolchain_override: Option<String> },
    /// The expansion could not be started, for the given cause.
    ExpansionNotStarted { cause: String },
    /// The expansion was started but could not be waited for, for the given
    /// cause.
    ExpansionWaitFailed { cause: String },
    /// The expansion ran to its end.
    ExpansionFinished(ExpansionOutput),
    /// Nothing happened outside; the pipeline may go on.
    Proceed,
}

/// The mathematical value of an [`Event`].
pub enum EventView {
    Start { already_expanding: bool, toolchain_override: Option<Seq<char>> },
    ExpansionNotStarted { cause: Seq<char> },
    ExpansionWaitFailed { cause: Seq<char> },
    ExpansionFinished { success: bool, stdout: Seq<u8>, stderr: Seq<u8> },
    Proceed,
}

impl DeepView for Event {
    type V = EventView;

    open spec fn deep_view(&self) -> EventView {
        match self {
            Event::Start { already_expanding, toolchain_override } => EventView::Start {
                already_expanding: *already_expanding,
                toolchain_override: toolchain_override.deep_view(),
            },
            Event::ExpansionNotStarted { cause } => EventView::ExpansionNotStarted {
                cause: cause@,
            },
            Event::ExpansionWaitFailed { cause } => EventView::ExpansionWaitFailed {
                cause: cause@,
            },
            Event::ExpansionFinished(output) => EventView::ExpansionFinished {
                success: output.success,
                stdout: output.stdout@,
                stderr: output.stderr@,
            },
            Event::Proceed => EventView::Proceed,
        }
    }
}

/// What the pipeline asks of the caller.
#[derive(Debug, PartialEq, Eq)]
pub enum Action {
    /// Nothing: the run is over, or the event was not one the state waits for.
    Nothing,
    /// Nothing outside: report `Proceed`.
    Continue,
    /// Expand the project with the given toolchain argument and report how it
    /// went.
    Expand { toolchain: String },
    /// Write the directive set out, one directive per line, and show the
    /// notices.
    Emit { directives: Vec<String>, notices: Vec<String> },
    /// Fail the build with this report.
    Abort { report: String },
}

/// The mathematical value of an [`Action`].
pub enum ActionView {
    Nothing,
    Continue,
    Expand { toolchain: Seq<char> },
    Emit { directives: Seq<Seq<char>>, notices: Seq<Seq<char>> },
    Abort { report: Seq<char> },
}

impl DeepView for Action {
    type V = ActionView;

    open spec fn deep_view(&self) -> ActionView {
        match self {
            Action::Nothing => ActionView::Nothing,
            Action::Continue => ActionView::Continue,
            Action::Expand { toolchain } => ActionView::Expand { toolchain: toolchain@ },
            Action::Emit { directives, notices } => ActionView::Emit {
                directives: directives.deep_view(),
                notices: notices.deep_view(),
            },
            Action::Abort { report } => ActionView::Abort { report: report@ },
        }
    }
}

/// The argument that selects the toolchain of the expansion: the override if
/// there is one, the nightly toolchain otherwise.
pub open spec fn toolchain_argument_text(toolchain_override: Option<Seq<char>>) -> Seq<char> {
    "+"@ + match toolchain_override {
        Some(name) => name,
        None => "nightly"@,
    }
}

/// Writes the argument that selects the toolchain of the expansion.
pub fn toolchain_argument(toolchain_override: Option<&str>) -> (argument: String)
    ensures
        argument@ == toolchain_argument_text(toolchain_override.deep_view()),
{
    let name: &str = match toolchain_override {
        Some(name) => name,
        None => "nightly",
    };
    String::from_str("+").concat(name)
}

/// The failed state and the action that go with a failure.
pub open spec fn failed(failure: FailureView) -> (StateView, ActionView) {
    (StateView::Failed(failure), ActionView::Abort { report: failure_report(failure) })
}

/// Where the end of the expansion leads: to parsing its output, or to a
/// failure where it reported an error or printed something that is not text.
pub open spec fn after_expansion(success: bool, stdout: Seq<u8>, stderr: Seq<u8>) -> (
    StateView,
    ActionView,
) {
    if !valid_utf8(stdout) {
        failed(FailureView::OutputNotText)
    } else if success {
        (StateView::Parsing { text: decode_utf8(stdout) }, ActionView::Continue)
    } else if !valid_utf8(stderr) {
        failed(FailureView::OutputNotText)
    } else {
        failed(
            FailureView::ExpansionFailed {
                stdout: decode_utf8(stdout),
                stderr: decode_utf8(stderr),
            },
        )
    }
}

/// Where parsing the expanded text leads: to walking the items of the file it
/// parses to, or to a failure where it holds a literal that the parser cannot
/// read or is not a Rust file.
///
/// What the lexer and the parser make of a text is known by name only
/// (`lexed_literals`, `parsed_source`), and is what they make of it in a
/// process that is not a procedural macro.
pub open spec fn after_parsing(text: Seq<char>) -> (StateView, ActionView) {
    match unreadable_literal(lexed_literals(text)) {
        Some(literal) => failed(FailureView::UnreadableLiteral { literal }),
        None => match parsed_source(text) {
            Ok(items) => (StateView::Walking { items }, ActionView::Continue),
            Err(message) => failed(FailureView::ParseFailed { message }),
        },
    }
}

/// The state that follows `state` on `event`, and what is asked of the caller.
///
/// A run goes from `Idle` through `Expanding`, `Parsing`, `Walking` and
/// `Emitting` to `Done`, or from any of them to `Failed`. Nothing is tried
/// twice, `Done` and `Failed` are never left, and an event that the state does
/// not wait for changes nothing.
pub open spec fn next_step(state: StateView, event: EventView, style: LinkerArgStyle) -> (
    StateView,
    ActionView,
) {
    match (state, event) {
        (StateView::Idle, EventView::Start { already_expanding, toolchain_override }) => {
            if already_expanding {
                (StateView::Done, ActionView::Nothing)
            } else {
                (
                    StateView::Expanding,
                    ActionView::Expand { toolchain: toolchain_argument_text(toolchain_override) },
                )
            }
        },
        (StateView::Expanding, EventView::ExpansionNotStarted { cause }) => failed(
            FailureView::NotStarted { cause },
        ),
        (StateView::Expanding, EventView::ExpansionWaitFailed { cause }) => failed(
            FailureView::WaitFailed { cause },
        ),
        (StateView::Expanding, EventView::ExpansionFinished { success, stdout, stderr }) => {
            after_expansion(success, stdout, stderr)
        },
        (StateView::Parsing { text }, EventView::Proceed) => after_parsing(text),
        (StateView::Walking { items }, EventView::Proceed) => (
            StateView::Emitting {
                directives: directive_set(items, style),
                notices: notices(items),
            },
            ActionView::Continue,
        ),
        (StateView::Emitting { directives, notices }, EventView::Proceed) => (
            StateView::Done,
            ActionView::Emit { directives, notices },
        ),
        _ => (state, ActionView::Nothing),
    }
}

/// Enters the failed state.
fn fail(failure: Failure) -> (outcome: (PipelineState, Action))
    ensures
        (outcome.0.deep_view(), outcome.1.deep_view()) == failed(failure.deep_view()),
{
    let report = failure.report();
    (PipelineState::Failed(failure), Action::Abort { report })
}

/// Takes in what the expansion left behind.
fn finish_expansion(output: ExpansionOutput) -> (outcome: (PipelineState, Action))
    ensures
        (outcome.0.deep_view(), outcome.1.deep_view()) == after_expansion(
            output.success,
            output.stdout@,
            output.stderr@,
        ),
{
    let ExpansionOutput { success, stdout, stderr } = output;
    match decode(stdout) {
        None => fail(Failure::OutputNotText),
        Some(text) => {
            if success {
                (PipelineState::Parsing { text }, Action::Continue)
            } else {
                match decode(stderr) {
                    None => fail(Failure::OutputNotText),
                    Some(errors) => fail(Failure::ExpansionFailed { stdout: text, stderr: errors }),
                }
            }
        },
    }
}

/// Parses the expanded text, unless it holds a literal that the parser cannot
/// read.
fn parse(text: &str) -> (outcome: (PipelineState, Action))
    ensures
        (outcome.0.deep_view(), outcome.1.deep_view()) == after_parsing(text@),
{
    let unreadable = match literal_tokens(text) {
        Some(tokens) => find_unreadable(&tokens),
        None => None,
    };
    match unreadable {
        Some(literal) => fail(Failure::UnreadableLiteral { literal }),
        None => match parse_items(text) {
            Ok(items) => (PipelineState::Walking { items }, Action::Continue),
            Err(failure) => fail(Failure::ParseFailed { message: failure.message }),
        },
    }
}

/// Moves a run one step on: takes the state and what the caller reports, and
/// returns the next state and what the caller is to do.
///
/// The expanded text is lexed and parsed by `proc_macro2` and `syn`; what is
/// said of that step holds in a process that is not a procedural macro.
pub fn step(state: PipelineState, event: Event, style: LinkerArgStyle) -> (outcome: (
    PipelineState,
    Action,
))
    ensures
        (outcome.0.deep_view(), outcome.1.deep_view()) == next_step(
            state.deep_view(),
            event.deep_view(),
            style,
        ),
{
    match state {
        PipelineState::Idle => match event {
            Event::Start { already_expanding, toolchain_override } => {
                if already_expanding {
                    (PipelineState::Done, Action::Nothing)
                } else {
                    let toolchain = match &toolchain_override {
                        Some(name) => toolchain_argument(Some(name.as_str())),
                        None => toolchain_argument(None),
                    };
                    (PipelineState::Expanding, Action::Expand { toolchain })
                }
            },
            _ => (PipelineState::Idle, Action::Nothing),
        },
        PipelineState::Expanding => match event {
            Event::ExpansionNotStarted { cause } => fail(Failure::NotStarted { cause }),
            Event::ExpansionWaitFailed { cause } => fail(Failure::WaitFailed { cause }),
            Event::ExpansionFinished(output) => finish_expansion(output),
            _ => (PipelineState::Expanding, Action::Nothing),
        },
        PipelineState::Parsing { text } => match event {
            Event::Proceed => parse(text.as_str()),
            _ => (PipelineState::Parsing { text }, Action::Nothing),
        },
        PipelineState::Walking { items } => match event {
            Event::Proceed => {
                let found = discover(&items, style);
                (
                    PipelineState::Emitting {
                        directives: found.directives,
                        notices: found.notices,
                    },
                    Action::Continue,
                )
            },
            _ => (PipelineState::Walking { items }, Action::Nothing),
        },
        PipelineState::Emitting { directives, notices } => match event {
            Event::Proceed => (PipelineState::Done, Action::Emit { directives, notices }),
            _ => (PipelineState::Emitting { directives, notices }, Action::Nothing),
        },
        PipelineState::Done => (PipelineState::Done, Action::Nothing),
        PipelineState::Failed(failure) => (PipelineState::Failed(failure), Action::Nothing),
    }
}

} // verus!
