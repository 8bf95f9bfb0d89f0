//! The assistant's state: the chat shown to the user, the streaming answer, scrolling,
//! the input mode, the chosen provider and language, and the conversation kept for the
//! language model.
use vstd::prelude::*;
use crate::model::{
    bubbles_view, menu_view, messages_view, opt_string_view, providers_view, BubbleRole, BubbleView, ChatBubble, InputMode, Limits, MenuKind,
    MenuState, MenuView, Message, ModeView, MessageView, Provider, ProviderView, ToolCall, ToolCallView, VoiceOpts, VoiceView,
};
use crate::events::tool_calls_view;
use crate::text::{concat, push_char, strip_prefix, strip_prefix_spec, to_uppercase, uppercase};

verus! {

/// The instruction that opens every conversation with the language model.
pub const SYSTEM_PROMPT: &'static str = "Kamu Voca, asisten coding yang ringkas dan membantu. Kamu punya tool untuk melihat folder, mencari, membaca, menulis/mengedit file, dan menjalankan perintah. Pakai tool seperlunya. Jawab singkat dalam bahasa yang digunakan pengguna.";

/// The whole state of a session.
pub struct App {
    /// The visible chat history.
    pub messages: Vec<ChatBubble>,
    /// The answer that is being streamed in.
    pub current_stream: String,
    pub is_streaming: bool,
    /// First visible line of the chat.
    pub scroll_offset: u16,
    /// Whether the view follows the newest line.
    pub is_at_bottom: bool,
    /// Number of chat lines after wrapping, as last laid out.
    pub total_lines: u16,
    pub input_mode: InputMode,
    pub menu: Option<MenuState>,
    /// The provider in use.
    pub provider: Provider,
    /// Every provider the assistant knows, in menu order.
    pub providers: Vec<Provider>,
    pub voice: VoiceOpts,
    pub limits: Limits,
    /// Frame counter of the busy animation.
    pub spinner_frame: usize,
    /// What the busy animation says.
    pub spinner_msg: String,
    /// In hands-free mode: the user chose to type instead of speaking.
    pub voice_text_mode: bool,
    pub should_quit: bool,
    /// The conversation sent to the language model.
    pub llm_messages: Vec<Message>,
    /// Whether the speech sidecar is running.
    pub has_voice_bridge: bool,
    /// Tool calls that wait for the user's yes before they run.
    pub pending_tools: Vec<ToolCall>,
}

/// A session state as plain values.
#[verifier::ext_equal]
pub struct AppView {
    pub messages: Seq<BubbleView>,
    pub current_stream: Seq<char>,
    pub is_streaming: bool,
    pub scroll_offset: u16,
    pub is_at_bottom: bool,
    pub total_lines: u16,
    pub input_mode: ModeView,
    pub menu: Option<MenuView>,
    pub provider: ProviderView,
    pub providers: Seq<ProviderView>,
    pub voice: VoiceView,
    pub limits: Limits,
    pub spinner_frame: usize,
    pub spinner_msg: Seq<char>,
    pub voice_text_mode: bool,
    pub should_quit: bool,
    pub llm_messages: Seq<MessageView>,
    pub has_voice_bridge: bool,
    pub pending_tools: Seq<ToolCallView>,
}

impl View for App {
    type V = AppView;

    open spec fn view(&self) -> AppView {
        AppView {
            messages: bubbles_view(self.messages@),
            current_stream: self.current_stream@,
            is_streaming: self.is_streaming,
            scroll_offset: self.scroll_offset,
            is_at_bottom: self.is_at_bottom,
            total_lines: self.total_lines,
            input_mode: self.input_mode@,
            menu: menu_view(self.menu),
            provider: self.provider@,
            providers: providers_view(self.providers@),
            voice: self.voice@,
            limits: self.limits,
            spinner_frame: self.spinner_frame,
            spinner_msg: self.spinner_msg@,
            voice_text_mode: self.voice_text_mode,
            should_quit: self.should_quit,
            llm_messages: messages_view(self.llm_messages@),
            has_voice_bridge: self.has_voice_bridge,
            pending_tools: tool_calls_view(self.pending_tools@),
        }
    }
}

/// A menu that can be navigated: it has entries and one of them is highlighted; a model
/// menu lists every provider and a language menu the two languages.
pub open spec fn menu_wf(m: MenuView, providers: nat) -> bool {
    &&& 0 < m.items.len() <= usize::MAX
    &&& m.selected < m.items.len()
    &&& m.kind == MenuKind::Model ==> m.items.len() == providers
    &&& m.kind == MenuKind::Language ==> m.items.len() == 2
}

impl AppView {
    /// The session invariant: the provider list is not empty and an open menu can be
    /// navigated.
    pub open spec fn wf(self) -> bool {
        &&& self.providers.len() > 0
        &&& self.menu matches Some(m) ==> menu_wf(m, self.providers.len())
    }
}

// ---------------------------------------------------------------------------
// State transitions
// ---------------------------------------------------------------------------

/// `v` with one more chat bubble at the end.
pub open spec fn push_bubble(v: AppView, role: BubbleRole, text: Seq<char>) -> AppView {
    AppView { messages: v.messages.push(BubbleView { role: role, content: text }), ..v }
}

/// The offset `scroll_up` leaves: `n` lines higher, stopping at the top.
pub open spec fn scrolled_up(v: AppView, n: u16) -> AppView {
    AppView {
        scroll_offset: if v.scroll_offset >= n { (v.scroll_offset - n) as u16 } else { 0 },
        is_at_bottom: false,
        ..v
    }
}

/// The last offset at which the chat still fills a view of `visible_h` lines.
pub open spec fn max_offset(total_lines: u16, visible_h: u16) -> u16 {
    if total_lines >= visible_h { (total_lines - visible_h) as u16 } else { 0 }
}

/// The offset `scroll_down` leaves: `n` lines lower, stopping at the bottom.
pub open spec fn scrolled_down(v: AppView, n: u16, visible_h: u16) -> AppView {
    let max = max_offset(v.total_lines, visible_h);
    let off = if v.scroll_offset + n <= max { (v.scroll_offset + n) as u16 } else { max };
    AppView { scroll_offset: off, is_at_bottom: off >= max, ..v }
}

/// The view following the newest line.
pub open spec fn scrolled_to_bottom(v: AppView, visible_h: u16) -> AppView {
    AppView { scroll_offset: max_offset(v.total_lines, visible_h), is_at_bottom: true, ..v }
}

/// A new answer is being awaited; the animation shows `msg`.
pub open spec fn streaming_started(v: AppView, msg: Seq<char>) -> AppView {
    AppView {
        current_stream: Seq::empty(),
        is_streaming: true,
        input_mode: ModeView::Processing,
        spinner_msg: msg,
        spinner_frame: 0,
        ..v
    }
}

/// A piece of the answer arrived.
pub open spec fn chunk_appended(v: AppView, chunk: Seq<char>) -> AppView {
    AppView { current_stream: v.current_stream + chunk, ..v }
}

/// The answer is complete: a non-empty answer becomes an assistant bubble, and the input
/// line is usable again.
pub open spec fn streaming_finished(v: AppView) -> AppView {
    let v1 = if v.current_stream.len() > 0 {
        push_bubble(v, BubbleRole::Assistant, v.current_stream)
    } else {
        v
    };
    AppView {
        current_stream: Seq::empty(),
        is_streaming: false,
        input_mode: ModeView::Normal,
        ..v1
    }
}

// ---------------------------------------------------------------------------
// The banner
// ---------------------------------------------------------------------------

/// `path` with the home directory `home` written as `~`.
pub open spec fn shorten_home(path: Seq<char>, home: Option<Seq<char>>) -> Seq<char> {
    match home {
        Some(h) => match strip_prefix_spec(path, h) {
            Some(rest) => "~"@ + rest,
            None => path,
        },
        None => path,
    }
}

/// Asks `dirs::home_dir` for the user's home directory and converts it to text.
/// It depends on the environment, so nothing is claimed of the result.
#[verifier::external_body]
fn home_dir() -> Option<String> {
    match dirs::home_dir() {
        Some(h) => Some(h.to_string_lossy().into_owned()),
        None => None,
    }
}

/// `path` with the home directory written as `~`.
pub fn shorten_home_path(path: &str, home: Option<String>) -> (r: String)
    ensures
        r@ == shorten_home(path@, opt_string_view(home)),
{
    match home {
        Some(h) => match strip_prefix(path, h.as_str()) {
            Some(rest) => concat("~", rest.as_str()),
            None => path.to_owned(),
        },
        None => path.to_owned(),
    }
}

/// `path` with the user's home directory (as `dirs::home_dir` finds it) written as `~`.
pub fn home_short(path: &str) -> (r: String)
    ensures
        exists|home: Option<Seq<char>>| r@ == shorten_home(path@, home),
{
    let home = home_dir();
    let ghost h = opt_string_view(home);
    let r = shorten_home_path(path, home);
    assert(r@ == shorten_home(path@, h));
    r
}

/// How the banner names the interaction mode.
pub open spec fn mode_label(listen: bool, speak: bool) -> Seq<char> {
    if listen {
        "suara (hands-free)"@
    } else if speak {
        "ketik + suara"@
    } else {
        "ketik"@
    }
}

fn mode_label_str(listen: bool, speak: bool) -> (r: &'static str)
    ensures
        r@ == mode_label(listen, speak),
{
    if listen {
        "suara (hands-free)"
    } else if speak {
        "ketik + suara"
    } else {
        "ketik"
    }
}

pub open spec fn banner_top() -> Seq<char> {
    "╭──────────────────────────────────────────────────\n│ V O C A  ·  AI Coding Assistant\n├──────────────────────────────────────────────────\n│ model  : "@
}

pub open spec fn banner_bottom() -> Seq<char> {
    "\n╰──────────────────────────────────────────────────"@
}

/// The welcome banner: provider and model, language, working folder and mode.
pub open spec fn banner_text(
    name: Seq<char>,
    model: Seq<char>,
    lang_upper: Seq<char>,
    folder: Seq<char>,
    mode: Seq<char>,
) -> Seq<char> {
    banner_top() + name + " · "@ + model + "\n│ bahasa : "@ + lang_upper + "\n│ folder : "@ + folder
        + "\n│ mode   : "@ + mode + banner_bottom()
}

/// The banner text for the given values.
pub fn make_banner(name: &str, model: &str, lang_upper: &str, folder: &str, mode: &str) -> (r:
    String)
    ensures
        r@ == banner_text(name@, model@, lang_upper@, folder@, mode@),
{
    let mut r = String::new();
    r.append(
        "╭──────────────────────────────────────────────────\n│ V O C A  ·  AI Coding Assistant\n├──────────────────────────────────────────────────\n│ model  : ",
    );
    r.append(name);
    r.append(" · ");
    r.append(model);
    r.append("\n│ bahasa : ");
    r.append(lang_upper);
    r.append("\n│ folder : ");
    r.append(folder);
    r.append("\n│ mode   : ");
    r.append(mode);
    r.append("\n╰──────────────────────────────────────────────────");
    r
}

impl App {
    /// A fresh session with the given provider, known providers, voice options and limits:
    /// an empty chat following the bottom, normal input mode, and a conversation that
    /// holds only the system prompt.
    pub fn new(provider: Provider, providers: Vec<Provider>, voice: VoiceOpts, limits: Limits) -> (app: App)
        ensures
            app@ == (AppView {
                messages: Seq::empty(),
                current_stream: Seq::empty(),
                is_streaming: false,
                scroll_offset: 0,
                is_at_bottom: true,
                total_lines: 0,
                input_mode: ModeView::Normal,
                menu: None,
                provider: provider@,
                providers: providers_view(providers@),
                voice: voice@,
                limits: limits,
                spinner_frame: 0,
                spinner_msg: Seq::empty(),
                voice_text_mode: false,
                should_quit: false,
                llm_messages: seq![
                    MessageView {
                        role: "system"@,
                        content: SYSTEM_PROMPT@,
                        tool_call_id: None,
                        tool_calls: Seq::empty(),
                    },
                ],
                has_voice_bridge: false,
                pending_tools: Seq::empty(),
            }),
    {
        let mut llm_messages: Vec<Message> = Vec::new();
        llm_messages.push(Message::new("system", SYSTEM_PROMPT));
        let app = App {
            messages: Vec::new(),
            current_stream: String::new(),
            is_streaming: false,
            scroll_offset: 0,
            is_at_bottom: true,
            total_lines: 0,
            input_mode: InputMode::Normal,
            menu: None,
            provider,
            providers,
            voice,
            limits,
            spinner_frame: 0,
            spinner_msg: String::new(),
            voice_text_mode: false,
            should_quit: false,
            llm_messages,
            has_voice_bridge: false,
            pending_tools: Vec::new(),
        };
        assert(app@.messages =~= Seq::<BubbleView>::empty());
        assert(app@.pending_tools =~= Seq::<ToolCallView>::empty());
        assert(app@.llm_messages =~= seq![
            MessageView {
                role: "system"@,
                content: SYSTEM_PROMPT@,
                tool_call_id: None,
                tool_calls: Seq::empty(),
            },
        ]);
        app
    }

    /// Scrolls `n` lines up, stopping at the top, and stops following the bottom.
    pub fn scroll_up(&mut self, n: u16)
        ensures
            final(self)@ == scrolled_up(old(self)@, n),
    {
        self.scroll_offset = self.scroll_offset.saturating_sub(n);
        self.is_at_bottom = false;
    }

    /// Scrolls `n` lines down, stopping where a view of `visible_h` lines shows the last
    /// line; follows the bottom again when it is reached.
    pub fn scroll_down(&mut self, n: u16, visible_h: u16)
        requires
            old(self).scroll_offset + n <= u16::MAX,
        ensures
            final(self)@ == scrolled_down(old(self)@, n, visible_h),
    {
        let max = self.total_lines.saturating_sub(visible_h);
        let next = self.scroll_offset + n;
        self.scroll_offset = if next <= max {
            next
        } else {
            max
        };
        self.is_at_bottom = self.scroll_offset >= max;
    }

    /// Jumps to the last line and follows the bottom.
    pub fn scroll_to_bottom(&mut self, visible_h: u16)
        ensures
            final(self)@ == scrolled_to_bottom(old(self)@, visible_h),
    {
        self.scroll_offset = self.total_lines.saturating_sub(visible_h);
        self.is_at_bottom = true;
    }

    fn push_bubble(&mut self, role: BubbleRole, msg: &str)
        ensures
            final(self)@ == push_bubble(old(self)@, role, msg@),
    {
        let b = ChatBubble::new(role, msg);
        self.messages.push(b);
        assert(self@.messages =~= old(self)@.messages.push(b@));
    }

    /// Adds a system notice to the chat.
    pub fn push_system(&mut self, msg: &str)
        ensures
            final(self)@ == push_bubble(old(self)@, BubbleRole::System, msg@),
    {
        self.push_bubble(BubbleRole::System, msg);
    }

    /// Adds a message of the user to the chat.
    pub fn push_user(&mut self, msg: &str)
        ensures
            final(self)@ == push_bubble(old(self)@, BubbleRole::User, msg@),
    {
        self.push_bubble(BubbleRole::User, msg);
    }

    /// Adds a tool notice to the chat.
    pub fn push_tool(&mut self, msg: &str)
        ensures
            final(self)@ == push_bubble(old(self)@, BubbleRole::Tool, msg@),
    {
        self.push_bubble(BubbleRole::Tool, msg);
    }

    /// Starts awaiting an answer: the stream is emptied, the input line is busy and the
    /// animation shows `msg` from its first frame.
    pub fn start_streaming(&mut self, msg: &str)
        ensures
            final(self)@ == streaming_started(old(self)@, msg@),
    {
        self.current_stream = String::new();
        self.is_streaming = true;
        self.input_mode = InputMode::Processing;
        self.spinner_msg = msg.to_owned();
        self.spinner_frame = 0;
    }

    /// Appends a piece of the streamed answer.
    pub fn append_chunk(&mut self, chunk: &str)
        ensures
            final(self)@ == chunk_appended(old(self)@, chunk@),
    {
        self.current_stream.append(chunk);
    }

    /// Ends the streamed answer: a non-empty answer is added to the chat as an assistant
    /// bubble; the stream is emptied and the input line is usable again.
    pub fn finish_streaming(&mut self)
        ensures
            final(self)@ == streaming_finished(old(self)@),
    {
        if self.current_stream.unicode_len() > 0 {
            let content = self.current_stream.clone();
            self.messages.push(ChatBubble { role: BubbleRole::Assistant, content });
            assert(self@.messages =~= old(self)@.messages.push(
                BubbleView { role: BubbleRole::Assistant, content: old(self)@.current_stream },
            ));
        }
        self.current_stream = String::new();
        self.is_streaming = false;
        self.input_mode = InputMode::Normal;
    }

    /// Adds the welcome banner to the chat. `cwd` is the working directory, when it is
    /// known; it is shown with the home directory written as `~`.
    pub fn push_banner(&mut self, cwd: Option<&str>)
        ensures
            exists|folder: Seq<char>|
                {
                    &&& final(self)@ == push_bubble(
                        old(self)@,
                        BubbleRole::System,
                        banner_text(
                            old(self)@.provider.name,
                            old(self)@.provider.model,
                            uppercase(old(self)@.voice.lang),
                            folder,
                            mode_label(old(self)@.voice.listen, old(self)@.voice.speak),
                        ),
                    )
                    &&& cwd is None ==> folder.len() == 0
                    &&& cwd matches Some(p) ==> exists|home: Option<Seq<char>>|
                        folder == shorten_home(p@, home)
                },
    {
        let folder = match cwd {
            Some(p) => home_short(p),
            None => String::new(),
        };
        let lang = to_uppercase(self.voice.lang.as_str());
        let mode = mode_label_str(self.voice.listen, self.voice.speak);
        let msg = make_banner(
            self.provider.name.as_str(),
            self.provider.model.as_str(),
            lang.as_str(),
            folder.as_str(),
            mode,
        );
        self.push_system(msg.as_str());
    }
}

/// Law: a streamed answer is recorded whole: starting a stream, appending chunks and
/// finishing it adds exactly one assistant bubble holding the chunks in order when they
/// are not all empty, and none otherwise; the input line is usable again.
pub proof fn law_stream_records_answer(v: AppView, msg: Seq<char>, chunks: Seq<Seq<char>>)
    ensures
        ({
            let streamed = chunks.fold_left(streaming_started(v, msg), |s: AppView, c: Seq<char>| chunk_appended(s, c));
            let done = streaming_finished(streamed);
            let text = chunks.fold_left(Seq::<char>::empty(), |a: Seq<char>, c: Seq<char>| a + c);
            &&& done.messages == (if text.len() > 0 {
                v.messages.push(BubbleView { role: BubbleRole::Assistant, content: text })
            } else {
                v.messages
            })
            &&& done.input_mode == ModeView::Normal
            &&& !done.is_streaming
            &&& done.current_stream.len() == 0
            &&& done.llm_messages == v.llm_messages
        }),
{
    lemma_stream_fold(v, msg, chunks);
}

proof fn lemma_stream_fold(v: AppView, msg: Seq<char>, chunks: Seq<Seq<char>>)
    ensures
        ({
            let streamed = chunks.fold_left(streaming_started(v, msg), |s: AppView, c: Seq<char>| chunk_appended(s, c));
            let text = chunks.fold_left(Seq::<char>::empty(), |a: Seq<char>, c: Seq<char>| a + c);
            streamed == AppView { current_stream: text, ..streaming_started(v, msg) }
        }),
    decreases chunks.len(),
{
    let f = |s: AppView, c: Seq<char>| chunk_appended(s, c);
    let g = |a: Seq<char>, c: Seq<char>| a + c;
    if chunks.len() == 0 {
        assert(streaming_started(v, msg) =~= AppView { current_stream: Seq::empty(), ..streaming_started(v, msg) });
    } else {
        lemma_stream_fold(v, msg, chunks.drop_last());
        let streamed0 = chunks.drop_last().fold_left(streaming_started(v, msg), f);
        let text0 = chunks.drop_last().fold_left(Seq::<char>::empty(), g);
        assert(chunks.fold_left(streaming_started(v, msg), f) == f(streamed0, chunks.last()));
        assert(chunks.fold_left(Seq::<char>::empty(), g) == g(text0, chunks.last()));
        assert(f(streamed0, chunks.last()) =~= AppView { current_stream: text0 + chunks.last(), ..streaming_started(v, msg) });
    }
}

/// Law: scrolling down stays within the chat: the offset never passes the last offset
/// that fills the view, unless it was already there, and reaching it follows the bottom.
pub proof fn law_scroll_down_bounded(v: AppView, n: u16, visible_h: u16)
    requires
        v.scroll_offset <= max_offset(v.total_lines, visible_h),
    ensures
        scrolled_down(v, n, visible_h).scroll_offset <= max_offset(v.total_lines, visible_h),
        scrolled_down(v, n, visible_h).is_at_bottom == (scrolled_down(v, n, visible_h).scroll_offset
            == max_offset(v.total_lines, visible_h)),
{
}

/// Law: scrolling up and then down by the same amount returns to the same line when the
/// view did not hit the top or the bottom.
pub proof fn law_scroll_up_down_inverse(v: AppView, n: u16, visible_h: u16)
    requires
        v.scroll_offset >= n,
        v.scroll_offset < max_offset(v.total_lines, visible_h),
    ensures
        scrolled_down(scrolled_up(v, n), n, visible_h).scroll_offset == v.scroll_offset,
{
}

} // verus!
