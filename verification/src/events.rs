//! What reaches the assistant (keys, mouse, model output, speech, tool results) and what
//! it asks its surroundings to do in return.
use vstd::prelude::*;
use crate::model::{ToolCall, ToolCallView};

verus! {

/// The keys the assistant tells apart; every other key is `Other`.
#[derive(Clone, Copy, Debug, PartialEq, Eq, Structural)]
pub enum KeyCode {
    Char(char),
    Enter,
    Esc,
    Up,
    Down,
    PageUp,
    PageDown,
    End,
    Other,
}

/// A key press, with whether Control was held.
#[derive(Clone, Copy, Debug, PartialEq, Eq, Structural)]
pub struct KeyPress {
    pub code: KeyCode,
    pub ctrl: bool,
}

/// A mouse event: wheel up, wheel down, or anything else.
#[derive(Clone, Copy, Debug, PartialEq, Eq, Structural)]
pub enum MouseAction {
    ScrollUp,
    ScrollDown,
    Other,
}

/// What one tool call produced: a one-line summary of its arguments for the chat, and its
/// output for the model.
#[derive(Clone, Debug)]
pub struct ToolOutcome {
    pub id: String,
    pub name: String,
    pub summary: String,
    pub result: String,
}

pub struct ToolOutcomeView {
    pub id: Seq<char>,
    pub name: Seq<char>,
    pub summary: Seq<char>,
    pub result: Seq<char>,
}

impl View for ToolOutcome {
    type V = ToolOutcomeView;

    open spec fn view(&self) -> ToolOutcomeView {
        ToolOutcomeView {
            id: self.id@,
            name: self.name@,
            summary: self.summary@,
            result: self.result@,
        }
    }
}

/// Everything the assistant reacts to.
#[derive(Debug)]
pub enum AppEvent {
    Key(KeyPress),
    Mouse(MouseAction),
    Resize(u16, u16),
    /// The animation clock ticked.
    Tick,
    /// A piece of the model's answer.
    LlmChunk(String),
    /// The model's answer is complete, with the tools it asks for.
    LlmComplete(String, Vec<ToolCall>),
    LlmError(String),
    /// Time to record speech (after the screen shows that the assistant listens).
    StartListening,
    /// The transcript of what was said (empty when nothing was heard).
    VoiceResult(String),
    /// Time to speak a text (after the screen shows it).
    VoiceSpeak(String),
    /// The output of one tool call: its id and result.
    ToolResult(String, String),
    /// The answer to a yes/no question.
    ConfirmAnswer(bool),
    /// The tools asked for by the model have run.
    ToolsDone(Vec<ToolOutcome>),
    /// The key of provider number `0` was looked up: the key, or what went wrong.
    ApiKeyReady(usize, Result<String, String>),
}

/// What the assistant asks its surroundings to do after handling an event.
#[derive(Debug)]
pub enum Action {
    /// Clear the input line.
    ResetInput,
    /// Let the input line edit itself with the key.
    EditInput,
    /// Queue `StartListening`, to be handled after the next redraw.
    QueueStartListening,
    /// Queue `VoiceSpeak` with the text, to be handled after the next redraw.
    QueueSpeak(String),
    /// Queue `ConfirmAnswer` with the answer.
    QueueConfirm(bool),
    /// Record speech in the given language and report it with `VoiceResult`.
    Listen(String),
    /// Speak the text in the given language.
    Speak(String, String),
    /// Send the conversation to the model and stream the answer back.
    StartLlmTurn,
    /// Run the tool calls and report with `ToolsDone`.
    RunTools(Vec<ToolCall>),
    /// Make sure provider number `0` has a key and report with `ApiKeyReady`.
    EnsureApiKey(usize),
}

pub enum ActionView {
    ResetInput,
    EditInput,
    QueueStartListening,
    QueueSpeak(Seq<char>),
    QueueConfirm(bool),
    Listen(Seq<char>),
    Speak(Seq<char>, Seq<char>),
    StartLlmTurn,
    RunTools(Seq<ToolCallView>),
    EnsureApiKey(usize),
}

pub open spec fn tool_calls_view(calls: Seq<ToolCall>) -> Seq<ToolCallView> {
    calls.map_values(|t: ToolCall| t@)
}

impl View for Action {
    type V = ActionView;

    open spec fn view(&self) -> ActionView {
        match self {
            Action::ResetInput => ActionView::ResetInput,
            Action::EditInput => ActionView::EditInput,
            Action::QueueStartListening => ActionView::QueueStartListening,
            Action::QueueSpeak(t) => ActionView::QueueSpeak(t@),
            Action::QueueConfirm(b) => ActionView::QueueConfirm(*b),
            Action::Listen(l) => ActionView::Listen(l@),
            Action::Speak(t, l) => ActionView::Speak(t@, l@),
            Action::StartLlmTurn => ActionView::StartLlmTurn,
            Action::RunTools(c) => ActionView::RunTools(tool_calls_view(c@)),
            Action::EnsureApiKey(i) => ActionView::EnsureApiKey(*i),
        }
    }
}

pub open spec fn actions_view(a: Seq<Action>) -> Seq<ActionView> {
    a.map_values(|x: Action| x@)
}

} // verus!
