//! The data the assistant keeps: chat bubbles, input modes, menus, voice options,
//! providers and the conversation sent to the language model, each with a view
//! over plain mathematical values.
use vstd::prelude::*;

verus! {

/// Who a chat bubble speaks for.
#[derive(Clone, Copy, Debug, PartialEq, Eq, Structural)]
pub enum BubbleRole {
    System,
    User,
    Assistant,
    Tool,
}

/// One entry of the visible chat history.
#[derive(Clone, Debug)]
pub struct ChatBubble {
    pub role: BubbleRole,
    pub content: String,
}

/// A chat bubble as a role and a sequence of characters.
pub struct BubbleView {
    pub role: BubbleRole,
    pub content: Seq<char>,
}

impl View for ChatBubble {
    type V = BubbleView;

    open spec fn view(&self) -> BubbleView {
        BubbleView { role: self.role, content: self.content@ }
    }
}

impl ChatBubble {
    /// A bubble with the given role and text.
    pub fn new(role: BubbleRole, content: &str) -> (b: ChatBubble)
        ensures
            b@ == (BubbleView { role: role, content: content@ }),
    {
        ChatBubble { role, content: content.to_owned() }
    }
}

/// What the input line is doing.
#[derive(Clone, Debug, PartialEq)]
pub enum InputMode {
    Normal,
    Listening,
    Processing,
    Menu,
    /// Waiting for a yes/no answer to the given question.
    Confirming(String),
}

/// An input mode as a plain value.
pub enum ModeView {
    Normal,
    Listening,
    Processing,
    Menu,
    Confirming(Seq<char>),
}

impl View for InputMode {
    type V = ModeView;

    open spec fn view(&self) -> ModeView {
        match self {
            InputMode::Normal => ModeView::Normal,
            InputMode::Listening => ModeView::Listening,
            InputMode::Processing => ModeView::Processing,
            InputMode::Menu => ModeView::Menu,
            InputMode::Confirming(q) => ModeView::Confirming(q@),
        }
    }
}

/// The spoken-interaction options.
#[derive(Clone, Debug)]
pub struct VoiceOpts {
    pub speak: bool,
    pub listen: bool,
    pub lang: String,
}

pub struct VoiceView {
    pub speak: bool,
    pub listen: bool,
    pub lang: Seq<char>,
}

impl View for VoiceOpts {
    type V = VoiceView;

    open spec fn view(&self) -> VoiceView {
        VoiceView { speak: self.speak, listen: self.listen, lang: self.lang@ }
    }
}

/// Which choice a pop-up menu offers.
#[derive(Clone, Copy, Debug, PartialEq, Eq, Structural)]
pub enum MenuKind {
    Model,
    Language,
}

/// A pop-up menu: a title, its entries and the highlighted entry.
#[derive(Clone, Debug)]
pub struct MenuState {
    pub title: String,
    pub items: Vec<String>,
    pub selected: usize,
    pub kind: MenuKind,
}

pub struct MenuView {
    pub title: Seq<char>,
    pub items: Seq<Seq<char>>,
    pub selected: usize,
    pub kind: MenuKind,
}

impl View for MenuState {
    type V = MenuView;

    open spec fn view(&self) -> MenuView {
        MenuView {
            title: self.title@,
            items: strings_view(self.items@),
            selected: self.selected,
            kind: self.kind,
        }
    }
}

pub open spec fn bubbles_view(bs: Seq<ChatBubble>) -> Seq<BubbleView> {
    bs.map_values(|b: ChatBubble| b@)
}

pub open spec fn strings_view(ss: Seq<String>) -> Seq<Seq<char>> {
    ss.map_values(|s: String| s@)
}

pub open spec fn menu_view(m: Option<MenuState>) -> Option<MenuView> {
    match m {
        Some(m) => Some(m@),
        None => None,
    }
}

/// A language-model service the assistant can talk to.
#[derive(Clone, Debug)]
pub struct Provider {
    /// Short name used in commands, such as `qwen`.
    pub code: String,
    /// Human-readable name.
    pub name: String,
    /// Model identifier sent to the service.
    pub model: String,
    /// The key, once one is known.
    pub api_key: Option<String>,
}

pub struct ProviderView {
    pub code: Seq<char>,
    pub name: Seq<char>,
    pub model: Seq<char>,
    pub api_key: Option<Seq<char>>,
}

pub open spec fn opt_string_view(s: Option<String>) -> Option<Seq<char>> {
    match s {
        Some(s) => Some(s@),
        None => None,
    }
}

pub open spec fn providers_view(ps: Seq<Provider>) -> Seq<ProviderView> {
    ps.map_values(|p: Provider| p@)
}

impl Provider {
    /// A field-by-field copy.
    pub fn copy(&self) -> (r: Provider)
        ensures
            r@ == self@,
    {
        Provider {
            code: self.code.clone(),
            name: self.name.clone(),
            model: self.model.clone(),
            api_key: match &self.api_key {
                Some(k) => Some(k.clone()),
                None => None,
            },
        }
    }
}

impl View for Provider {
    type V = ProviderView;

    open spec fn view(&self) -> ProviderView {
        ProviderView {
            code: self.code@,
            name: self.name@,
            model: self.model@,
            api_key: opt_string_view(self.api_key),
        }
    }
}

/// Bounds on what is sent to the language model.
#[derive(Clone, Copy, Debug)]
pub struct Limits {
    /// How many messages after the system prompt are kept between turns.
    pub max_history: usize,
}

/// A tool invocation requested by the language model.
#[derive(Clone, Debug)]
pub struct ToolCall {
    pub id: String,
    pub name: String,
    /// The arguments, as the model wrote them (JSON text).
    pub arguments: String,
}

impl ToolCall {
    /// A field-by-field copy.
    pub fn copy(&self) -> (r: ToolCall)
        ensures
            r@ == self@,
    {
        ToolCall { id: self.id.clone(), name: self.name.clone(), arguments: self.arguments.clone() }
    }
}

/// A copy of every call, in order.
pub fn copy_tool_calls(calls: &Vec<ToolCall>) -> (r: Vec<ToolCall>)
    ensures
        r@.map_values(|t: ToolCall| t@) == calls@.map_values(|t: ToolCall| t@),
{
    let mut r: Vec<ToolCall> = Vec::new();
    let mut i: usize = 0;
    while i < calls.len()
        invariant
            i <= calls.len(),
            r@.map_values(|t: ToolCall| t@) == calls@.subrange(0, i as int).map_values(|t: ToolCall| t@),
        decreases calls.len() - i,
    {
        let c = calls[i].copy();
        r.push(c);
        assert(calls@.subrange(0, i + 1).map_values(|t: ToolCall| t@) =~= calls@.subrange(0, i as int).map_values(|t: ToolCall| t@).push(c@));
        assert(r@.map_values(|t: ToolCall| t@) =~= calls@.subrange(0, i + 1).map_values(|t: ToolCall| t@));
        i = i + 1;
    }
    assert(calls@.subrange(0, calls.len() as int) =~= calls@);
    r
}

pub struct ToolCallView {
    pub id: Seq<char>,
    pub name: Seq<char>,
    pub arguments: Seq<char>,
}

impl View for ToolCall {
    type V = ToolCallView;

    open spec fn view(&self) -> ToolCallView {
        ToolCallView { id: self.id@, name: self.name@, arguments: self.arguments@ }
    }
}

/// One message of the conversation sent to the language model.
#[derive(Clone, Debug)]
pub struct Message {
    /// `system`, `user`, `assistant` or `tool`.
    pub role: String,
    pub content: String,
    /// For a tool result: the call it answers.
    pub tool_call_id: Option<String>,
    /// For an assistant message: the tools it asked for.
    pub tool_calls: Vec<ToolCall>,
}

pub struct MessageView {
    pub role: Seq<char>,
    pub content: Seq<char>,
    pub tool_call_id: Option<Seq<char>>,
    pub tool_calls: Seq<ToolCallView>,
}

impl View for Message {
    type V = MessageView;

    open spec fn view(&self) -> MessageView {
        MessageView {
            role: self.role@,
            content: self.content@,
            tool_call_id: opt_string_view(self.tool_call_id),
            tool_calls: self.tool_calls@.map_values(|t: ToolCall| t@),
        }
    }
}

pub open spec fn messages_view(ms: Seq<Message>) -> Seq<MessageView> {
    ms.map_values(|m: Message| m@)
}

impl Message {
    /// A plain message with the given role and text.
    pub fn new(role: &str, content: &str) -> (m: Message)
        ensures
            m@ == (MessageView {
                role: role@,
                content: content@,
                tool_call_id: None,
                tool_calls: Seq::empty(),
            }),
    {
        let m = Message {
            role: role.to_owned(),
            content: content.to_owned(),
            tool_call_id: None,
            tool_calls: Vec::new(),
        };
        assert(m.tool_calls@.map_values(|t: ToolCall| t@) =~= Seq::<ToolCallView>::empty());
        m
    }

    /// The model's answer, with the tools it asked for.
    pub fn assistant(content: String, tool_calls: Vec<ToolCall>) -> (m: Message)
        ensures
            m@ == (MessageView {
                role: "assistant"@,
                content: content@,
                tool_call_id: None,
                tool_calls: tool_calls@.map_values(|t: ToolCall| t@),
            }),
    {
        Message { role: "assistant".to_owned(), content, tool_call_id: None, tool_calls }
    }

    /// The output of the tool call `id`.
    pub fn tool_result(id: &str, result: String) -> (m: Message)
        ensures
            m@ == (MessageView {
                role: "tool"@,
                content: result@,
                tool_call_id: Some(id@),
                tool_calls: Seq::empty(),
            }),
    {
        let m = Message {
            role: "tool".to_owned(),
            content: result,
            tool_call_id: Some(id.to_owned()),
            tool_calls: Vec::new(),
        };
        assert(m.tool_calls@.map_values(|t: ToolCall| t@) =~= Seq::<ToolCallView>::empty());
        m
    }
}

} // verus!
