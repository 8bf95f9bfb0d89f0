//! How the assistant reacts to each event: keys, mouse, streamed answers, speech, tool
//! results and slash commands. Each reaction is a function from the session state and the
//! event to the next state and the actions to perform.
use vstd::prelude::*;
use crate::app::{
    chunk_appended, push_bubble, scrolled_down, scrolled_to_bottom, scrolled_up, streaming_finished,
    streaming_started, App, AppView,
};
use crate::commands::{detect_quick_command, pair_view, quick_command};
use crate::events::{
    actions_view, tool_calls_view, Action, ActionView, AppEvent, KeyCode, KeyPress, MouseAction,
    ToolOutcome, ToolOutcomeView,
};
use crate::history::{trim_history, trimmed_history};
use crate::tools::{summarize_args, summary_of};
use crate::model::{
    copy_tool_calls, messages_view, BubbleRole, BubbleView, InputMode, MenuKind, MenuState, MenuView, Message,
    MessageView, ModeView, Provider, ProviderView, ToolCall, ToolCallView, VoiceView, providers_view,
    strings_view,
};
use crate::text::{
    concat, pad_right, pad_right_str, str_eq, strip_prefix, strip_prefix_spec, to_uppercase, trim,
    trim_start_char, trim_start_matches_char, trim_str, uppercase,
};

verus! {

// ---------------------------------------------------------------------------
// Fixed texts
// ---------------------------------------------------------------------------

pub open spec fn help_text() -> Seq<char> {
    "Perintah: /model [nama]  ·  /lan [id|en]  ·  /exit"@
}

pub open spec fn unknown_provider_text() -> Seq<char> {
    "❌ provider tidak dikenal (qwen / openai / openrouter / deepseek)"@
}

pub open spec fn no_speech_text() -> Seq<char> {
    "🎤 tidak ada ucapan terdeteksi — coba lagi atau ketik pesan"@
}

pub open spec fn cancelled_text() -> Seq<char> {
    "(dibatalkan)"@
}

pub open spec fn thinking_text() -> Seq<char> {
    "memikirkan..."@
}

// ---------------------------------------------------------------------------
// Specification of the reactions
// ---------------------------------------------------------------------------

/// The first provider at or after `i` whose code is `code`.
pub open spec fn find_code(ps: Seq<ProviderView>, code: Seq<char>, i: int) -> Option<int>
    decreases ps.len() - i,
{
    if i < 0 || i >= ps.len() {
        None
    } else if ps[i].code == code {
        Some(i)
    } else {
        find_code(ps, code, i + 1)
    }
}

pub proof fn lemma_find_code(ps: Seq<ProviderView>, code: Seq<char>, i: int)
    requires
        0 <= i,
    ensures
        find_code(ps, code, i) matches Some(k) ==> i <= k < ps.len() && ps[k].code == code
            && forall|j: int| i <= j < k ==> #[trigger] ps[j].code != code,
        find_code(ps, code, i) is None ==> forall|j: int| i <= j < ps.len() ==> #[trigger] ps[j].code != code,
    decreases ps.len() - i,
{
    if 0 <= i < ps.len() && ps[i].code != code {
        lemma_find_code(ps, code, i + 1);
    }
}

/// A user message of the conversation.
pub open spec fn user_message(text: Seq<char>) -> MessageView {
    MessageView { role: "user"@, content: text, tool_call_id: None, tool_calls: Seq::empty() }
}

/// The model's answer in the conversation.
pub open spec fn assistant_message(text: Seq<char>, calls: Seq<ToolCallView>) -> MessageView {
    MessageView { role: "assistant"@, content: text, tool_call_id: None, tool_calls: calls }
}

/// A tool's output in the conversation.
pub open spec fn tool_message(id: Seq<char>, result: Seq<char>) -> MessageView {
    MessageView { role: "tool"@, content: result, tool_call_id: Some(id), tool_calls: Seq::empty() }
}

/// `v` with one more message in the conversation.
pub open spec fn with_message(v: AppView, m: MessageView) -> AppView {
    AppView { llm_messages: v.llm_messages.push(m), ..v }
}

/// The language is set and announced in upper case.
pub open spec fn language_applied(v: AppView, lang: Seq<char>) -> AppView {
    let v1 = AppView { voice: VoiceView { lang: lang, ..v.voice }, ..v };
    push_bubble(v1, BubbleRole::System, "✓ bahasa: "@ + uppercase(lang))
}

pub open spec fn current_marker(is_current: bool) -> Seq<char> {
    if is_current {
        " ←"@
    } else {
        ""@
    }
}

/// The language menu's entries, the current language marked.
pub open spec fn language_items(lang: Seq<char>) -> Seq<Seq<char>> {
    seq!["Indonesia"@ + current_marker(lang == "id"@), "English"@ + current_marker(lang == "en"@)]
}

/// The language menu highlights the current language (Indonesian when it is neither).
pub open spec fn language_index(lang: Seq<char>) -> usize {
    if lang == "id"@ {
        0
    } else if lang == "en"@ {
        1
    } else {
        0
    }
}

/// `/lan`: `id` and `en` are applied, no argument opens the language menu, anything else
/// switches to the other language.
pub open spec fn lang_switched(v: AppView, arg: Seq<char>) -> AppView {
    if arg == "id"@ || arg == "en"@ {
        language_applied(v, arg)
    } else if arg.len() == 0 {
        AppView {
            menu: Some(
                MenuView {
                    title: "PILIH BAHASA"@,
                    items: language_items(v.voice.lang),
                    selected: language_index(v.voice.lang),
                    kind: MenuKind::Language,
                },
            ),
            input_mode: ModeView::Menu,
            ..v
        }
    } else {
        language_applied(v, if v.voice.lang == "id"@ { "en"@ } else { "id"@ })
    }
}

/// One entry of the model menu: the code padded to 11 characters, the model, whether a
/// key is known (`●`) or not (`○`), and an arrow at the current provider.
pub open spec fn model_item(p: ProviderView, current: Seq<char>) -> Seq<char> {
    pad_right(p.code, 11) + " "@ + p.model + "  "@ + (if p.api_key is Some {
        "●"@
    } else {
        "○"@
    }) + current_marker(p.code == current)
}

/// The model menu highlights the current provider (the first one when it is not listed).
pub open spec fn model_index(v: AppView) -> usize {
    match find_code(v.providers, v.provider.code, 0) {
        Some(i) => i as usize,
        None => 0,
    }
}

/// Choosing a provider by code: a known code asks for its key; an unknown one is reported.
pub open spec fn provider_applied(v: AppView, code: Seq<char>) -> (AppView, Seq<ActionView>) {
    match find_code(v.providers, code, 0) {
        Some(i) => (v, seq![ActionView::EnsureApiKey(i as usize)]),
        None => (push_bubble(v, BubbleRole::System, unknown_provider_text()), seq![]),
    }
}

/// `/model`: no argument opens the model menu; otherwise the named provider is chosen.
pub open spec fn model_switched(v: AppView, arg: Seq<char>) -> (AppView, Seq<ActionView>) {
    if arg.len() == 0 {
        (
            AppView {
                menu: Some(
                    MenuView {
                        title: "PILIH MODEL"@,
                        items: v.providers.map_values(|p: ProviderView| model_item(p, v.provider.code)),
                        selected: model_index(v),
                        kind: MenuKind::Model,
                    },
                ),
                input_mode: ModeView::Menu,
                ..v
            },
            seq![],
        )
    } else {
        provider_applied(v, arg)
    }
}

/// The key of provider `i` is known (it becomes the provider in use, announced) or could
/// not be had (the reason is reported).
pub open spec fn api_key_applied(v: AppView, i: usize, key: Result<Seq<char>, Seq<char>>) -> AppView {
    if i < v.providers.len() {
        match key {
            Ok(k) => {
                let p = ProviderView { api_key: Some(k), ..v.providers[i as int] };
                let v1 = push_bubble(
                    v,
                    BubbleRole::System,
                    "✓ model: "@ + p.name + " ("@ + p.model + ")"@,
                );
                AppView { provider: p, ..v1 }
            },
            Err(e) => push_bubble(v, BubbleRole::System, "❌ "@ + e),
        }
    } else {
        v
    }
}

/// A model turn begins: the answer is awaited and the model is asked.
pub open spec fn llm_turn_started(v: AppView) -> (AppView, Seq<ActionView>) {
    (streaming_started(v, thinking_text()), seq![ActionView::StartLlmTurn])
}

/// What a line typed or spoken by the user does, after trimming: nothing when empty;
/// `/exit` and `/quit` end the session; `/help` shows the commands; `/model` and `/lan`
/// switch the model or the language; a recognised short phrase does the same; anything
/// else is shown, added to the conversation and sent to the model.
pub open spec fn user_input_processed(v: AppView, teks: Seq<char>) -> (AppView, Seq<ActionView>) {
    let t = trim(teks);
    if t.len() == 0 {
        (v, seq![])
    } else if t == "/exit"@ || t == "/quit"@ {
        (AppView { should_quit: true, ..v }, seq![])
    } else if t == "/help"@ {
        (push_bubble(v, BubbleRole::System, help_text()), seq![])
    } else if strip_prefix_spec(t, "/model"@) is Some {
        model_switched(v, trim(strip_prefix_spec(t, "/model"@)->0))
    } else if strip_prefix_spec(t, "/lan"@) is Some {
        (lang_switched(v, trim(trim_start_char(strip_prefix_spec(t, "/lan"@)->0, 'g'))), seq![])
    } else {
        match quick_command(t) {
            Some((kind, val)) => if kind == "model"@ {
                model_switched(v, val)
            } else {
                (lang_switched(v, val), seq![])
            },
            None => llm_turn_started(
                with_message(push_bubble(v, BubbleRole::User, t), user_message(t)),
            ),
        }
    }
}

/// Hands-free mode waits for the microphone: voice input is on, the user has not chosen
/// to type, the input line is empty and the speech sidecar runs.
pub open spec fn mic_mode(v: AppView, input: Seq<char>) -> bool {
    v.voice.listen && !v.voice_text_mode && input.len() == 0 && v.has_voice_bridge
}

/// A key in normal mode. Enter sends the input line (or, in hands-free mode with an empty
/// line, starts listening); `t` in hands-free mode switches to typing; Esc leaves typing;
/// other keys edit the input line.
pub open spec fn normal_key(v: AppView, key: KeyPress, input: Seq<char>) -> (AppView, Seq<ActionView>) {
    let mic = mic_mode(v, input);
    match key.code {
        KeyCode::Enter => if input.len() > 0 {
            let r = user_input_processed(AppView { voice_text_mode: false, ..v }, input);
            (r.0, seq![ActionView::ResetInput] + r.1)
        } else if mic {
            (
                AppView { input_mode: ModeView::Listening, ..v },
                seq![ActionView::ResetInput, ActionView::QueueStartListening],
            )
        } else {
            (v, seq![ActionView::ResetInput])
        },
        KeyCode::Char(c) if (c == 't' || c == 'T') && mic => (
            AppView { voice_text_mode: true, ..v },
            seq![],
        ),
        KeyCode::Esc if v.voice_text_mode => (
            AppView { voice_text_mode: false, ..v },
            seq![ActionView::ResetInput],
        ),
        _ => (
            if mic {
                AppView { voice_text_mode: true, ..v }
            } else {
                v
            },
            seq![ActionView::EditInput],
        ),
    }
}

pub open spec fn is_up_key(k: KeyCode) -> bool {
    k == KeyCode::Up || k == KeyCode::Char('k')
}

pub open spec fn is_down_key(k: KeyCode) -> bool {
    k == KeyCode::Down || k == KeyCode::Char('j')
}

pub open spec fn is_cancel_key(k: KeyCode) -> bool {
    k == KeyCode::Esc || k == KeyCode::Char('q')
}

/// A key in a menu: Up/`k` and Down/`j` move the highlight around the ring of entries;
/// Enter closes the menu and applies the entry; Esc/`q` closes it and says so.
pub open spec fn menu_key(v: AppView, key: KeyPress) -> (AppView, Seq<ActionView>) {
    match v.menu {
        None => (v, seq![]),
        Some(m) => {
            let n = m.items.len();
            if is_up_key(key.code) {
                (
                    AppView {
                        menu: Some(MenuView { selected: ((m.selected + n - 1) % (n as int)) as usize, ..m }),
                        ..v
                    },
                    seq![],
                )
            } else if is_down_key(key.code) {
                (
                    AppView {
                        menu: Some(MenuView { selected: ((m.selected + 1) % (n as int)) as usize, ..m }),
                        ..v
                    },
                    seq![],
                )
            } else if key.code == KeyCode::Enter {
                let v1 = AppView { input_mode: ModeView::Normal, menu: None, ..v };
                match m.kind {
                    MenuKind::Model => provider_applied(v1, v.providers[m.selected as int].code),
                    MenuKind::Language => (
                        language_applied(v1, if m.selected == 0 { "id"@ } else { "en"@ }),
                        seq![],
                    ),
                }
            } else if is_cancel_key(key.code) {
                (
                    push_bubble(
                        AppView { input_mode: ModeView::Normal, menu: None, ..v },
                        BubbleRole::System,
                        cancelled_text(),
                    ),
                    seq![],
                )
            } else {
                (v, seq![])
            }
        },
    }
}

/// A key while a yes/no question is asked: `y` answers yes; Enter, `n` and Esc answer no.
pub open spec fn confirm_key(key: KeyPress) -> Seq<ActionView> {
    match key.code {
        KeyCode::Char(c) if c == 'y' || c == 'Y' => seq![ActionView::QueueConfirm(true)],
        KeyCode::Char(c) if c == 'n' || c == 'N' => seq![ActionView::QueueConfirm(false)],
        KeyCode::Enter => seq![ActionView::QueueConfirm(false)],
        KeyCode::Esc => seq![ActionView::QueueConfirm(false)],
        _ => seq![],
    }
}

/// A key: Ctrl-C quits; PageUp, PageDown and End scroll; otherwise the input mode decides.
/// Keys are ignored while listening or waiting for the model.
pub open spec fn key_handled(v: AppView, key: KeyPress, input: Seq<char>) -> (AppView, Seq<ActionView>) {
    if key.code == KeyCode::Char('c') && key.ctrl {
        (AppView { should_quit: true, ..v }, seq![])
    } else if key.code == KeyCode::PageUp {
        (scrolled_up(v, 10), seq![])
    } else if key.code == KeyCode::PageDown {
        (scrolled_down(v, 10, 0), seq![])
    } else if key.code == KeyCode::End {
        (scrolled_to_bottom(v, 0), seq![])
    } else {
        match v.input_mode {
            ModeView::Normal => normal_key(v, key, input),
            ModeView::Menu => menu_key(v, key),
            ModeView::Confirming(_) => (v, confirm_key(key)),
            _ => (v, seq![]),
        }
    }
}

/// The mouse wheel scrolls three lines.
pub open spec fn mouse_handled(v: AppView, m: MouseAction) -> AppView {
    match m {
        MouseAction::ScrollUp => scrolled_up(v, 3),
        MouseAction::ScrollDown => scrolled_down(v, 3, 0),
        MouseAction::Other => v,
    }
}

/// The tools that change the working folder or run a program; they wait for the user's
/// yes before they run.
pub open spec fn needs_confirmation(c: ToolCallView) -> bool {
    c.name == "write_file"@ || c.name == "run_command"@
}

/// Some of `calls` waits for the user's yes.
pub open spec fn any_needs_confirmation(calls: Seq<ToolCallView>) -> bool {
    exists|i: int| 0 <= i < calls.len() && needs_confirmation(#[trigger] calls[i])
}

/// The question asked before tools run: each call that waits for a yes, by name and with
/// the summary of its arguments.
pub open spec fn confirm_prompt(calls: Seq<ToolCallView>) -> Seq<char>
    decreases calls.len(),
{
    if calls.len() == 0 {
        "izinkan tool"@
    } else {
        let p = confirm_prompt(calls.drop_last());
        let c = calls.last();
        if needs_confirmation(c) {
            p + " · "@ + c.name + " "@ + summary_of(c.arguments)
        } else {
            p
        }
    }
}

/// The model's answer is complete: the streamed text becomes a bubble, the answer joins
/// the conversation, it is spoken when speech output is on, and then: when there are no
/// tool calls, the conversation is trimmed; when a call writes a file or runs a command,
/// the calls are held and the user is asked `[y/N]`; otherwise the calls run.
pub open spec fn llm_completed(v: AppView, text: Seq<char>, calls: Seq<ToolCallView>) -> (AppView, Seq<ActionView>) {
    let v2 = with_message(streaming_finished(v), assistant_message(text, calls));
    let speak: Seq<ActionView> = if v.voice.speak && v.has_voice_bridge && text.len() > 0 {
        seq![ActionView::QueueSpeak(text)]
    } else {
        seq![]
    };
    if calls.len() == 0 {
        (
            AppView {
                llm_messages: trimmed_history(v2.llm_messages, v.limits.max_history as nat),
                ..v2
            },
            speak,
        )
    } else if any_needs_confirmation(calls) {
        (
            AppView {
                input_mode: ModeView::Confirming(confirm_prompt(calls)),
                pending_tools: calls,
                ..v2
            },
            speak,
        )
    } else {
        (v2, speak.push(ActionView::RunTools(calls)))
    }
}

/// What the model is told of a tool call the user refused.
pub open spec fn refused_text() -> Seq<char> {
    "dibatalkan oleh pengguna"@
}

/// `msgs` with a refusal answering each of `calls`, in order.
pub open spec fn tools_refused(msgs: Seq<MessageView>, calls: Seq<ToolCallView>) -> Seq<MessageView>
    decreases calls.len(),
{
    if calls.len() == 0 {
        msgs
    } else {
        tools_refused(msgs, calls.drop_last()).push(tool_message(calls.last().id, refused_text()))
    }
}

/// The answer to the `[y/N]` question: yes runs the held tool calls; no drops them (the
/// model is told each was refused) and says so in the chat. Either way the input line is
/// usable again and nothing is held any more.
pub open spec fn confirm_answered(v: AppView, yes: bool) -> (AppView, Seq<ActionView>) {
    let v1 = AppView { input_mode: ModeView::Normal, pending_tools: Seq::empty(), ..v };
    if yes {
        (
            v1,
            if v.pending_tools.len() > 0 {
                seq![ActionView::RunTools(v.pending_tools)]
            } else {
                seq![]
            },
        )
    } else {
        (
            push_bubble(
                AppView { llm_messages: tools_refused(v.llm_messages, v.pending_tools), ..v1 },
                BubbleRole::System,
                cancelled_text(),
            ),
            seq![],
        )
    }
}

/// The chat line that announces a tool call.
pub open spec fn tool_line(o: ToolOutcomeView) -> Seq<char> {
    "◆ "@ + o.name + " "@ + o.summary
}

/// Each tool outcome is announced in the chat and its result joins the conversation.
pub open spec fn tools_recorded(v: AppView, outs: Seq<ToolOutcomeView>) -> AppView
    decreases outs.len(),
{
    if outs.len() == 0 {
        v
    } else {
        let v1 = tools_recorded(v, outs.drop_last());
        let o = outs.last();
        with_message(push_bubble(v1, BubbleRole::Tool, tool_line(o)), tool_message(o.id, o.result))
    }
}

pub open spec fn key_result_view(r: Result<String, String>) -> Result<Seq<char>, Seq<char>> {
    match r {
        Ok(k) => Ok(k@),
        Err(e) => Err(e@),
    }
}

/// The animation advances one frame, wrapping around.
pub open spec fn ticked(v: AppView) -> AppView {
    AppView {
        spinner_frame: if v.spinner_frame == usize::MAX { 0 } else { (v.spinner_frame + 1) as usize },
        ..v
    }
}

/// The reaction to an event, given the current text of the input line.
pub open spec fn event_handled(v: AppView, ev: AppEvent, input: Seq<char>) -> (AppView, Seq<ActionView>) {
    match ev {
        AppEvent::Key(k) => key_handled(v, k, input),
        AppEvent::Mouse(m) => (mouse_handled(v, m), seq![]),
        AppEvent::Resize(_, _) => (v, seq![]),
        AppEvent::Tick => (ticked(v), seq![]),
        AppEvent::LlmChunk(c) => {
            let v1 = chunk_appended(v, c@);
            (if v1.is_at_bottom { scrolled_to_bottom(v1, 0) } else { v1 }, seq![])
        },
        AppEvent::LlmComplete(text, calls) => llm_completed(v, text@, tool_calls_view(calls@)),
        AppEvent::LlmError(msg) => (
            push_bubble(streaming_finished(v), BubbleRole::System, "❌ "@ + msg@),
            seq![],
        ),
        AppEvent::StartListening => if v.has_voice_bridge {
            (v, seq![ActionView::Listen(v.voice.lang)])
        } else {
            (AppView { input_mode: ModeView::Normal, ..v }, seq![])
        },
        AppEvent::VoiceResult(text) => {
            let v1 = AppView { input_mode: ModeView::Normal, voice_text_mode: false, ..v };
            if text@.len() > 0 {
                user_input_processed(v1, text@)
            } else {
                (push_bubble(v1, BubbleRole::System, no_speech_text()), seq![])
            }
        },
        AppEvent::VoiceSpeak(text) => (
            v,
            if v.has_voice_bridge {
                seq![ActionView::Speak(text@, v.voice.lang)]
            } else {
                seq![]
            },
        ),
        AppEvent::ToolResult(id, result) => llm_turn_started(
            with_message(v, tool_message(id@, result@)),
        ),
        AppEvent::ConfirmAnswer(yes) => confirm_answered(v, yes),
        AppEvent::ToolsDone(outs) => llm_turn_started(
            tools_recorded(v, outs@.map_values(|o: ToolOutcome| o@)),
        ),
        AppEvent::ApiKeyReady(i, r) => (api_key_applied(v, i, key_result_view(r)), seq![]),
    }
}

/// The event can be handled without the scroll offset passing `u16::MAX` (where the
/// arithmetic of scrolling down would overflow).
pub open spec fn event_in_range(v: AppView, ev: AppEvent) -> bool {
    match ev {
        AppEvent::Key(k) => k.code == KeyCode::PageDown ==> v.scroll_offset + 10 <= u16::MAX,
        AppEvent::Mouse(m) => m == MouseAction::ScrollDown ==> v.scroll_offset + 3 <= u16::MAX,
        _ => true,
    }
}

// ---------------------------------------------------------------------------
// Implementation
// ---------------------------------------------------------------------------

/// The index of the first provider whose code is `code`.
pub fn provider_by_code(providers: &Vec<Provider>, code: &str) -> (r: Option<usize>)
    ensures
        match r {
            Some(i) => find_code(providers_view(providers@), code@, 0) == Some(i as int),
            None => find_code(providers_view(providers@), code@, 0) is None,
        },
{
    let ghost ps = providers_view(providers@);
    let mut i: usize = 0;
    while i < providers.len()
        invariant
            i <= providers.len(),
            ps == providers_view(providers@),
            find_code(ps, code@, 0) == find_code(ps, code@, i as int),
        decreases providers.len() - i,
    {
        if str_eq(providers[i].code.as_str(), code) {
            assert(ps[i as int].code == code@);
            return Some(i);
        }
        assert(ps[i as int].code != code@);
        i = i + 1;
    }
    None
}

/// Sets the language and announces it.
pub fn apply_language(app: &mut App, lang: &str)
    ensures
        final(app)@ == language_applied(old(app)@, lang@),
{
    app.voice.lang = lang.to_owned();
    let up = to_uppercase(lang);
    let msg = concat("✓ bahasa: ", up.as_str());
    app.push_system(msg.as_str());
}

fn marker(is_current: bool) -> (r: &'static str)
    ensures
        r@ == current_marker(is_current),
{
    if is_current {
        " ←"
    } else {
        ""
    }
}

/// `/lan` with its argument: `id` or `en` is applied, no argument opens the language menu,
/// anything else switches to the other language.
pub fn switch_lang(app: &mut App, arg: &str)
    requires
        old(app)@.wf(),
    ensures
        final(app)@ == lang_switched(old(app)@, arg@),
        final(app)@.wf(),
{
    if str_eq(arg, "id") || str_eq(arg, "en") {
        apply_language(app, arg);
    } else if arg.unicode_len() == 0 {
        let is_id = str_eq(app.voice.lang.as_str(), "id");
        let is_en = str_eq(app.voice.lang.as_str(), "en");
        let mut items: Vec<String> = Vec::new();
        items.push(concat("Indonesia", marker(is_id)));
        items.push(concat("English", marker(is_en)));
        let selected: usize = if is_id {
            0
        } else if is_en {
            1
        } else {
            0
        };
        assert(strings_view(items@) =~= language_items(old(app)@.voice.lang));
        app.menu = Some(
            MenuState {
                title: "PILIH BAHASA".to_owned(),
                items,
                selected,
                kind: MenuKind::Language,
            },
        );
        app.input_mode = InputMode::Menu;
    } else {
        let next = if str_eq(app.voice.lang.as_str(), "id") {
            "en"
        } else {
            "id"
        };
        apply_language(app, next);
    }
}

/// Chooses the provider with the given code: a known one asks for its key, an unknown one
/// is reported.
pub fn apply_provider(app: &mut App, code: &str) -> (r: Vec<Action>)
    ensures
        (final(app)@, actions_view(r@)) == provider_applied(old(app)@, code@),
{
    match provider_by_code(&app.providers, code) {
        Some(i) => {
            let r = vec![Action::EnsureApiKey(i)];
            assert(actions_view(r@) =~= seq![ActionView::EnsureApiKey(i)]);
            r
        },
        None => {
            app.push_system("❌ provider tidak dikenal (qwen / openai / openrouter / deepseek)");
            let r: Vec<Action> = Vec::new();
            assert(actions_view(r@) =~= Seq::<ActionView>::empty());
            r
        },
    }
}

fn model_menu_item(p: &Provider, current: &str) -> (r: String)
    ensures
        r@ == model_item(p@, current@),
{
    let mut r = pad_right_str(p.code.as_str(), 11);
    r.append(" ");
    r.append(p.model.as_str());
    r.append("  ");
    r.append(
        if p.api_key.is_some() {
            "●"
        } else {
            "○"
        },
    );
    r.append(marker(str_eq(p.code.as_str(), current)));
    r
}

/// `/model` with its argument: no argument opens the model menu, otherwise the named
/// provider is chosen.
pub fn switch_model(app: &mut App, arg: &str) -> (r: Vec<Action>)
    requires
        old(app)@.wf(),
    ensures
        (final(app)@, actions_view(r@)) == model_switched(old(app)@, arg@),
        final(app)@.wf(),
{
    if arg.unicode_len() == 0 {
        let ghost v = app@;
        let selected = match provider_by_code(&app.providers, app.provider.code.as_str()) {
            Some(i) => i,
            None => 0,
        };
        proof {
            lemma_find_code(v.providers, v.provider.code, 0);
        }
        let mut items: Vec<String> = Vec::new();
        let mut i: usize = 0;
        while i < app.providers.len()
            invariant
                v == app@,
                i <= app.providers.len(),
                strings_view(items@) == v.providers.take(i as int).map_values(
                    |p: ProviderView| model_item(p, v.provider.code),
                ),
            decreases app.providers.len() - i,
        {
            let item = model_menu_item(&app.providers[i], app.provider.code.as_str());
            assert(v.providers[i as int] == app.providers@[i as int]@);
            let ghost before = items@;
            items.push(item);
            assert(strings_view(items@) =~= strings_view(before).push(item@));
            assert(v.providers.take(i + 1) =~= v.providers.take(i as int).push(v.providers[i as int]));
            assert(strings_view(items@) =~= v.providers.take(i + 1).map_values(
                |p: ProviderView| model_item(p, v.provider.code),
            ));
            i = i + 1;
        }
        assert(v.providers.take(v.providers.len() as int) =~= v.providers);
        app.menu = Some(
            MenuState { title: "PILIH MODEL".to_owned(), items, selected, kind: MenuKind::Model },
        );
        app.input_mode = InputMode::Menu;
        let r: Vec<Action> = Vec::new();
        assert(actions_view(r@) =~= Seq::<ActionView>::empty());
        r
    } else {
        apply_provider(app, arg)
    }
}

/// Takes the outcome of looking up the key of provider `index`: with a key, that provider
/// is used from now on and announced; without, the reason is shown.
pub fn api_key_ready(app: &mut App, index: usize, result: Result<String, String>)
    requires
        old(app)@.wf(),
    ensures
        final(app)@ == api_key_applied(old(app)@, index, key_result_view(result)),
        final(app)@.wf(),
{
    if index < app.providers.len() {
        match result {
            Ok(k) => {
                let mut p = app.providers[index].copy();
                p.api_key = Some(k);
                let mut msg = concat("✓ model: ", p.name.as_str());
                msg.append(" (");
                msg.append(p.model.as_str());
                msg.append(")");
                app.push_system(msg.as_str());
                app.provider = p;
            },
            Err(e) => {
                let msg = concat("❌ ", e.as_str());
                app.push_system(msg.as_str());
            },
        }
    }
}

/// Starts a model turn: the answer is awaited and the model is asked.
pub fn start_llm_turn(app: &mut App) -> (r: Vec<Action>)
    ensures
        (final(app)@, actions_view(r@)) == llm_turn_started(old(app)@),
{
    app.start_streaming("memikirkan...");
    let r = vec![Action::StartLlmTurn];
    assert(actions_view(r@) =~= seq![ActionView::StartLlmTurn]);
    r
}

fn no_actions() -> (r: Vec<Action>)
    ensures
        actions_view(r@) == Seq::<ActionView>::empty(),
{
    let r: Vec<Action> = Vec::new();
    assert(actions_view(r@) =~= Seq::<ActionView>::empty());
    r
}

/// Handles a line the user typed or said (see `user_input_processed`).
pub fn process_user_input(app: &mut App, teks: &str) -> (r: Vec<Action>)
    requires
        old(app)@.wf(),
    ensures
        (final(app)@, actions_view(r@)) == user_input_processed(old(app)@, teks@),
        final(app)@.wf(),
{
    let t = trim_str(teks);
    if t.unicode_len() == 0 {
        return no_actions();
    }
    if str_eq(t.as_str(), "/exit") || str_eq(t.as_str(), "/quit") {
        app.should_quit = true;
        return no_actions();
    }
    if str_eq(t.as_str(), "/help") {
        app.push_system("Perintah: /model [nama]  ·  /lan [id|en]  ·  /exit");
        return no_actions();
    }
    match strip_prefix(t.as_str(), "/model") {
        Some(arg) => {
            let a = trim_str(arg.as_str());
            return switch_model(app, a.as_str());
        },
        None => {},
    }
    match strip_prefix(t.as_str(), "/lan") {
        Some(arg) => {
            let a1 = trim_start_matches_char(arg.as_str(), 'g');
            let a = trim_str(a1.as_str());
            switch_lang(app, a.as_str());
            return no_actions();
        },
        None => {},
    }
    match detect_quick_command(t.as_str()) {
        Some((kind, val)) => {
            if str_eq(kind, "model") {
                return switch_model(app, val);
            } else {
                switch_lang(app, val);
                return no_actions();
            }
        },
        None => {},
    }
    app.push_user(t.as_str());
    let m = Message::new("user", t.as_str());
    app.llm_messages.push(m);
    assert(app@.llm_messages =~= old(app)@.llm_messages.push(user_message(t@)));
    start_llm_turn(app)
}

fn normal_key_exec(app: &mut App, key: KeyPress, input: &str) -> (r: Vec<Action>)
    requires
        old(app)@.wf(),
        old(app)@.input_mode == ModeView::Normal,
    ensures
        (final(app)@, actions_view(r@)) == normal_key(old(app)@, key, input@),
        final(app)@.wf(),
{
    let empty = input.unicode_len() == 0;
    let mic = app.voice.listen && !app.voice_text_mode && empty && app.has_voice_bridge;
    match key.code {
        KeyCode::Enter => {
            let mut r = vec![Action::ResetInput];
            if !empty {
                app.voice_text_mode = false;
                let mut more = process_user_input(app, input);
                let ghost rest = more@;
                r.append(&mut more);
                assert(actions_view(r@) =~= seq![ActionView::ResetInput] + actions_view(rest));
                r
            } else if mic {
                app.input_mode = InputMode::Listening;
                r.push(Action::QueueStartListening);
                assert(actions_view(r@) =~= seq![
                    ActionView::ResetInput,
                    ActionView::QueueStartListening,
                ]);
                r
            } else {
                assert(actions_view(r@) =~= seq![ActionView::ResetInput]);
                r
            }
        },
        KeyCode::Char(c) if (c == 't' || c == 'T') && mic => {
            app.voice_text_mode = true;
            no_actions()
        },
        KeyCode::Esc if app.voice_text_mode => {
            app.voice_text_mode = false;
            let r = vec![Action::ResetInput];
            assert(actions_view(r@) =~= seq![ActionView::ResetInput]);
            r
        },
        _ => {
            if mic {
                app.voice_text_mode = true;
            }
            let r = vec![Action::EditInput];
            assert(actions_view(r@) =~= seq![ActionView::EditInput]);
            r
        },
    }
}

fn menu_key_exec(app: &mut App, key: KeyPress) -> (r: Vec<Action>)
    requires
        old(app)@.wf(),
    ensures
        (final(app)@, actions_view(r@)) == menu_key(old(app)@, key),
        final(app)@.wf(),
{
    let ghost v = app@;
    match app.menu.take() {
        None => no_actions(),
        Some(mut menu) => {
            let ghost m = menu@;
            let n = menu.items.len();
            assert(m.items.len() == n);
            if key.code == KeyCode::Up || key.code == KeyCode::Char('k') {
                menu.selected = if menu.selected == 0 {
                    n - 1
                } else {
                    menu.selected - 1
                };
                proof {
                    if m.selected == 0 {
                        vstd::arithmetic::div_mod::lemma_small_mod((n - 1) as nat, n as nat);
                    } else {
                        vstd::arithmetic::div_mod::lemma_mod_add_multiples_vanish(
                            (m.selected - 1) as int,
                            n as int,
                        );
                        vstd::arithmetic::div_mod::lemma_small_mod((m.selected - 1) as nat, n as nat);
                        assert(m.selected + n - 1 == n + (m.selected - 1));
                    }
                }
                app.menu = Some(menu);
                no_actions()
            } else if key.code == KeyCode::Down || key.code == KeyCode::Char('j') {
                menu.selected = if menu.selected + 1 == n {
                    0
                } else {
                    menu.selected + 1
                };
                proof {
                    if m.selected + 1 == n {
                        vstd::arithmetic::div_mod::lemma_mod_self_0(n as int);
                    } else {
                        vstd::arithmetic::div_mod::lemma_small_mod((m.selected + 1) as nat, n as nat);
                    }
                }
                app.menu = Some(menu);
                no_actions()
            } else if key.code == KeyCode::Enter {
                app.input_mode = InputMode::Normal;
                match menu.kind {
                    MenuKind::Model => {
                        let code = app.providers[menu.selected].code.clone();
                        assert(code@ == v.providers[m.selected as int].code);
                        apply_provider(app, code.as_str())
                    },
                    MenuKind::Language => {
                        let lang = if menu.selected == 0 {
                            "id"
                        } else {
                            "en"
                        };
                        apply_language(app, lang);
                        no_actions()
                    },
                }
            } else if key.code == KeyCode::Esc || key.code == KeyCode::Char('q') {
                app.input_mode = InputMode::Normal;
                app.push_system("(dibatalkan)");
                no_actions()
            } else {
                app.menu = Some(menu);
                no_actions()
            }
        },
    }
}

fn confirm_key_exec(key: KeyPress) -> (r: Vec<Action>)
    ensures
        actions_view(r@) == confirm_key(key),
{
    match key.code {
        KeyCode::Char(c) if c == 'y' || c == 'Y' => {
            let r = vec![Action::QueueConfirm(true)];
            assert(actions_view(r@) =~= seq![ActionView::QueueConfirm(true)]);
            r
        },
        KeyCode::Char(c) if c == 'n' || c == 'N' => {
            let r = vec![Action::QueueConfirm(false)];
            assert(actions_view(r@) =~= seq![ActionView::QueueConfirm(false)]);
            r
        },
        KeyCode::Enter | KeyCode::Esc => {
            let r = vec![Action::QueueConfirm(false)];
            assert(actions_view(r@) =~= seq![ActionView::QueueConfirm(false)]);
            r
        },
        _ => no_actions(),
    }
}

/// Handles a key press (see `key_handled`); `input` is the text of the input line.
pub fn handle_key(app: &mut App, key: KeyPress, input: &str) -> (r: Vec<Action>)
    requires
        old(app)@.wf(),
        key.code == KeyCode::PageDown ==> old(app)@.scroll_offset + 10 <= u16::MAX,
    ensures
        (final(app)@, actions_view(r@)) == key_handled(old(app)@, key, input@),
        final(app)@.wf(),
{
    if key.code == KeyCode::Char('c') && key.ctrl {
        app.should_quit = true;
        return no_actions();
    }
    if key.code == KeyCode::PageUp {
        app.scroll_up(10);
        return no_actions();
    }
    if key.code == KeyCode::PageDown {
        app.scroll_down(10, 0);
        return no_actions();
    }
    if key.code == KeyCode::End {
        app.scroll_to_bottom(0);
        return no_actions();
    }
    let mode: u8 = match &app.input_mode {
        InputMode::Normal => 0,
        InputMode::Menu => 1,
        InputMode::Confirming(_) => 2,
        _ => 3,
    };
    if mode == 0 {
        normal_key_exec(app, key, input)
    } else if mode == 1 {
        menu_key_exec(app, key)
    } else if mode == 2 {
        confirm_key_exec(key)
    } else {
        no_actions()
    }
}

/// Handles a mouse event: the wheel scrolls three lines.
pub fn handle_mouse(app: &mut App, mouse: MouseAction)
    requires
        mouse == MouseAction::ScrollDown ==> old(app)@.scroll_offset + 3 <= u16::MAX,
    ensures
        final(app)@ == mouse_handled(old(app)@, mouse),
{
    match mouse {
        MouseAction::ScrollUp => app.scroll_up(3),
        MouseAction::ScrollDown => app.scroll_down(3, 0),
        MouseAction::Other => {},
    }
}

/// Handles a completed answer of the model (see `llm_completed`).
pub fn handle_llm_complete(app: &mut App, text: String, tool_calls: Vec<ToolCall>) -> (r: Vec<Action>)
    requires
        old(app)@.wf(),
    ensures
        (final(app)@, actions_view(r@)) == llm_completed(old(app)@, text@, tool_calls_view(tool_calls@)),
        final(app)@.wf(),
{
    let ghost v = app@;
    app.finish_streaming();
    let copies = copy_tool_calls(&tool_calls);
    let msg = Message::assistant(text.clone(), copies);
    app.llm_messages.push(msg);
    assert(app@.llm_messages =~= streaming_finished(v).llm_messages.push(
        assistant_message(text@, tool_calls_view(tool_calls@)),
    ));
    let mut r: Vec<Action> = Vec::new();
    if app.voice.speak && app.has_voice_bridge && text.unicode_len() > 0 {
        r.push(Action::QueueSpeak(text));
    }
    let ghost speak = actions_view(r@);
    assert(speak =~= (if v.voice.speak && v.has_voice_bridge && text@.len() > 0 {
        seq![ActionView::QueueSpeak(text@)]
    } else {
        seq![]
    }));
    if tool_calls.len() == 0 {
        let max = app.limits.max_history;
        trim_history(&mut app.llm_messages, max);
        return r;
    }
    let ghost calls = tool_calls_view(tool_calls@);
    if any_needs_confirmation_exec(&tool_calls) {
        let prompt = confirm_prompt_exec(&tool_calls);
        app.input_mode = InputMode::Confirming(prompt);
        app.pending_tools = tool_calls;
        return r;
    }
    r.push(Action::RunTools(tool_calls));
    assert(actions_view(r@) =~= speak.push(ActionView::RunTools(calls)));
    r
}

fn needs_confirmation_exec(c: &ToolCall) -> (r: bool)
    ensures
        r == needs_confirmation(c@),
{
    str_eq(c.name.as_str(), "write_file") || str_eq(c.name.as_str(), "run_command")
}

fn any_needs_confirmation_exec(calls: &Vec<ToolCall>) -> (r: bool)
    ensures
        r == any_needs_confirmation(tool_calls_view(calls@)),
{
    let ghost cs = tool_calls_view(calls@);
    let mut i: usize = 0;
    while i < calls.len()
        invariant
            i <= calls.len(),
            cs == tool_calls_view(calls@),
            forall|k: int| 0 <= k < i ==> !needs_confirmation(#[trigger] cs[k]),
        decreases calls.len() - i,
    {
        if needs_confirmation_exec(&calls[i]) {
            assert(cs[i as int] == calls@[i as int]@);
            assert(needs_confirmation(cs[i as int]));
            return true;
        }
        assert(cs[i as int] == calls@[i as int]@);
        i = i + 1;
    }
    false
}

fn confirm_prompt_exec(calls: &Vec<ToolCall>) -> (r: String)
    ensures
        r@ == confirm_prompt(tool_calls_view(calls@)),
{
    let ghost cs = tool_calls_view(calls@);
    let mut r = owned_prompt();
    let mut i: usize = 0;
    assert(cs.take(0) =~= Seq::<ToolCallView>::empty());
    while i < calls.len()
        invariant
            i <= calls.len(),
            cs == tool_calls_view(calls@),
            r@ == confirm_prompt(cs.take(i as int)),
        decreases calls.len() - i,
    {
        proof {
            assert(cs[i as int] == calls@[i as int]@);
            assert(cs.take(i + 1).drop_last() =~= cs.take(i as int));
            assert(cs.take(i + 1).last() == cs[i as int]);
        }
        if needs_confirmation_exec(&calls[i]) {
            r.append(" · ");
            r.append(calls[i].name.as_str());
            r.append(" ");
            let summary = summarize_args(calls[i].arguments.as_str());
            r.append(summary.as_str());
        }
        i = i + 1;
    }
    assert(cs.take(calls.len() as int) =~= cs);
    r
}

fn owned_prompt() -> (r: String)
    ensures
        r@ == "izinkan tool"@,
{
    "izinkan tool".to_owned()
}

/// Adds to `msgs` a refusal answering each of `calls`, in order.
fn refuse_tools(msgs: &mut Vec<Message>, calls: &Vec<ToolCall>)
    ensures
        messages_view(final(msgs)@) == tools_refused(messages_view(old(msgs)@), tool_calls_view(calls@)),
{
    let ghost m0 = messages_view(msgs@);
    let ghost cs = tool_calls_view(calls@);
    let mut i: usize = 0;
    assert(cs.take(0) =~= Seq::<ToolCallView>::empty());
    while i < calls.len()
        invariant
            i <= calls.len(),
            cs == tool_calls_view(calls@),
            messages_view(msgs@) == tools_refused(m0, cs.take(i as int)),
        decreases calls.len() - i,
    {
        let ghost before = messages_view(msgs@);
        let m = Message::tool_result(calls[i].id.as_str(), crate::text::owned("dibatalkan oleh pengguna"));
        msgs.push(m);
        proof {
            assert(cs[i as int] == calls@[i as int]@);
            assert(cs.take(i + 1).drop_last() =~= cs.take(i as int));
            assert(cs.take(i + 1).last() == cs[i as int]);
            assert(messages_view(msgs@) =~= before.push(m@));
        }
        i = i + 1;
    }
    assert(cs.take(calls.len() as int) =~= cs);
}

/// Handles the answer to the `[y/N]` question (see `confirm_answered`).
pub fn confirm_answer(app: &mut App, yes: bool) -> (r: Vec<Action>)
    requires
        old(app)@.wf(),
    ensures
        (final(app)@, actions_view(r@)) == confirm_answered(old(app)@, yes),
        final(app)@.wf(),
{
    let ghost v = app@;
    app.input_mode = InputMode::Normal;
    let mut pending: Vec<ToolCall> = Vec::new();
    std::mem::swap(&mut pending, &mut app.pending_tools);
    assert(app@.pending_tools =~= Seq::<ToolCallView>::empty());
    if yes {
        if pending.len() > 0 {
            let ghost p = tool_calls_view(pending@);
            let r = vec![Action::RunTools(pending)];
            assert(actions_view(r@) =~= seq![ActionView::RunTools(p)]);
            r
        } else {
            no_actions()
        }
    } else {
        refuse_tools(&mut app.llm_messages, &pending);
        app.push_system("(dibatalkan)");
        no_actions()
    }
}

fn tool_line_exec(o: &ToolOutcome) -> (r: String)
    ensures
        r@ == tool_line(o@),
{
    let mut r = concat("◆ ", o.name.as_str());
    r.append(" ");
    r.append(o.summary.as_str());
    r
}

/// Announces each tool outcome in the chat and adds its result to the conversation.
pub fn record_tools(app: &mut App, outs: &Vec<ToolOutcome>)
    requires
        old(app)@.wf(),
    ensures
        final(app)@ == tools_recorded(old(app)@, outs@.map_values(|o: ToolOutcome| o@)),
        final(app)@.wf(),
{
    let ghost v = app@;
    let ghost os = outs@.map_values(|o: ToolOutcome| o@);
    let mut i: usize = 0;
    assert(os.take(0) =~= Seq::<ToolOutcomeView>::empty());
    while i < outs.len()
        invariant
            i <= outs.len(),
            os == outs@.map_values(|o: ToolOutcome| o@),
            app@ == tools_recorded(v, os.take(i as int)),
            app@.wf(),
        decreases outs.len() - i,
    {
        let line = tool_line_exec(&outs[i]);
        app.push_tool(line.as_str());
        let m = Message::tool_result(outs[i].id.as_str(), outs[i].result.clone());
        let ghost before = app@;
        app.llm_messages.push(m);
        proof {
            assert(os[i as int] == outs@[i as int]@);
            assert(os.take(i + 1).drop_last() =~= os.take(i as int));
            assert(app@.llm_messages =~= before.llm_messages.push(
                tool_message(os[i as int].id, os[i as int].result),
            ));
        }
        i = i + 1;
    }
    assert(os.take(outs.len() as int) =~= os);
}

/// Handles one event, given the current text of the input line, and returns what to do
/// next (see `event_handled`).
pub fn handle_event(app: &mut App, event: AppEvent, input: &str) -> (r: Vec<Action>)
    requires
        old(app)@.wf(),
        event_in_range(old(app)@, event),
    ensures
        (final(app)@, actions_view(r@)) == event_handled(old(app)@, event, input@),
        final(app)@.wf(),
{
    match event {
        AppEvent::Key(k) => handle_key(app, k, input),
        AppEvent::Mouse(m) => {
            handle_mouse(app, m);
            no_actions()
        },
        AppEvent::Resize(_, _) => no_actions(),
        AppEvent::Tick => {
            app.spinner_frame = app.spinner_frame.wrapping_add(1);
            no_actions()
        },
        AppEvent::LlmChunk(chunk) => {
            app.append_chunk(chunk.as_str());
            if app.is_at_bottom {
                app.scroll_to_bottom(0);
            }
            no_actions()
        },
        AppEvent::LlmComplete(text, calls) => handle_llm_complete(app, text, calls),
        AppEvent::LlmError(msg) => {
            app.finish_streaming();
            let m = concat("❌ ", msg.as_str());
            app.push_system(m.as_str());
            no_actions()
        },
        AppEvent::StartListening => {
            if app.has_voice_bridge {
                let r = vec![Action::Listen(app.voice.lang.clone())];
                assert(actions_view(r@) =~= seq![ActionView::Listen(app@.voice.lang)]);
                r
            } else {
                app.input_mode = InputMode::Normal;
                no_actions()
            }
        },
        AppEvent::VoiceResult(text) => {
            app.input_mode = InputMode::Normal;
            app.voice_text_mode = false;
            if text.unicode_len() > 0 {
                process_user_input(app, text.as_str())
            } else {
                app.push_system("🎤 tidak ada ucapan terdeteksi — coba lagi atau ketik pesan");
                no_actions()
            }
        },
        AppEvent::VoiceSpeak(text) => {
            if app.has_voice_bridge {
                let ghost t = text@;
                let r = vec![Action::Speak(text, app.voice.lang.clone())];
                assert(actions_view(r@) =~= seq![ActionView::Speak(t, app@.voice.lang)]);
                r
            } else {
                no_actions()
            }
        },
        AppEvent::ToolResult(id, result) => {
            let m = Message::tool_result(id.as_str(), result);
            app.llm_messages.push(m);
            assert(app@.llm_messages =~= old(app)@.llm_messages.push(m@));
            start_llm_turn(app)
        },
        AppEvent::ConfirmAnswer(yes) => confirm_answer(app, yes),
        AppEvent::ToolsDone(outs) => {
            record_tools(app, &outs);
            start_llm_turn(app)
        },
        AppEvent::ApiKeyReady(i, res) => {
            api_key_ready(app, i, res);
            no_actions()
        },
    }
}

// ---------------------------------------------------------------------------
// Laws
// ---------------------------------------------------------------------------

/// Law: a file is written or a command run only after the user says yes: an answer that
/// asks for such a tool runs nothing and asks `[y/N]`; yes then runs exactly the calls the
/// model asked for, and no runs nothing and holds nothing.
pub proof fn law_tools_wait_for_yes(v: AppView, text: Seq<char>, calls: Seq<ToolCallView>)
    requires
        any_needs_confirmation(calls),
    ensures
        ({
            let (w, acts) = llm_completed(v, text, calls);
            &&& forall|i: int| 0 <= i < acts.len() ==> !(#[trigger] acts[i] is RunTools)
            &&& w.input_mode == ModeView::Confirming(confirm_prompt(calls))
            &&& confirm_answered(w, true).1 == seq![ActionView::RunTools(calls)]
            &&& confirm_answered(w, false).1 == Seq::<ActionView>::empty()
            &&& confirm_answered(w, false).0.pending_tools.len() == 0
        }),
{
    let i = choose|i: int| 0 <= i < calls.len() && needs_confirmation(#[trigger] calls[i]);
    assert(calls.len() > 0);
}

/// Law: in a menu, Esc or `q` closes it: the menu is gone, the input line is back in
/// normal mode, the chat says `(dibatalkan)`, nothing else changes and nothing is asked
/// for.
pub proof fn law_menu_cancel_closes(v: AppView, key: KeyPress, input: Seq<char>)
    requires
        v.input_mode == ModeView::Menu,
        v.menu is Some,
        key.code == KeyCode::Esc || key.code == KeyCode::Char('q'),
    ensures
        key_handled(v, key, input) == (
            AppView {
                input_mode: ModeView::Normal,
                menu: None,
                messages: v.messages.push(BubbleView { role: BubbleRole::System, content: "(dibatalkan)"@ }),
                ..v
            },
            Seq::<ActionView>::empty(),
        ),
{
    assert(key_handled(v, key, input).1 =~= Seq::<ActionView>::empty());
}

/// Law: `/lan` without an argument opens the language menu on the current language: the
/// highlighted entry is the one marked ` ←` (Indonesian for `id`, English for `en`; the
/// first entry, unmarked, for any other language), so Enter keeps the language as it is.
pub proof fn law_language_menu_on_current(v: AppView)
    ensures
        ({
            let w = lang_switched(v, Seq::empty());
            let enter = KeyPress { code: KeyCode::Enter, ctrl: false };
            &&& w.input_mode == ModeView::Menu
            &&& w.menu is Some
            &&& w.menu->0.kind == MenuKind::Language
            &&& w.menu->0.items.len() == 2
            &&& v.voice.lang == "id"@ ==> w.menu->0.selected == 0 && w.menu->0.items[0] == "Indonesia ←"@
                && w.menu->0.items[1] == "English"@
            &&& v.voice.lang == "en"@ ==> w.menu->0.selected == 1 && w.menu->0.items[0] == "Indonesia"@
                && w.menu->0.items[1] == "English ←"@
            &&& (v.voice.lang != "id"@ && v.voice.lang != "en"@) ==> w.menu->0.selected == 0
                && w.menu->0.items[0] == "Indonesia"@ && w.menu->0.items[1] == "English"@
            &&& (v.voice.lang == "id"@ || v.voice.lang == "en"@) ==> menu_key(w, enter).0.voice.lang
                == v.voice.lang
        }),
{
    reveal_strlit("id");
    reveal_strlit("en");
    reveal_strlit("");
    reveal_strlit(" ←");
    reveal_strlit("Indonesia");
    reveal_strlit("English");
    reveal_strlit("Indonesia ←");
    reveal_strlit("English ←");
    assert(Seq::<char>::empty().len() == 0);
    assert("Indonesia"@ + " ←"@ =~= "Indonesia ←"@);
    assert("English"@ + " ←"@ =~= "English ←"@);
    assert("Indonesia"@ + ""@ =~= "Indonesia"@);
    assert("English"@ + ""@ =~= "English"@);
    assert("id"@ != "en"@) by {
        assert("id"@[0] != "en"@[0]);
    }
}

/// Law: `/model` without an argument opens the model menu on the provider in use: when it
/// is listed, the highlighted entry is the first provider with its code, and Enter asks for
/// exactly that provider's key; when it is not listed, the first entry is highlighted.
pub proof fn law_model_menu_on_current(v: AppView)
    requires
        v.wf(),
        v.providers.len() <= usize::MAX,
    ensures
        ({
            let (w, acts) = model_switched(v, Seq::empty());
            let enter = KeyPress { code: KeyCode::Enter, ctrl: false };
            let s = w.menu->0.selected as int;
            &&& acts.len() == 0
            &&& w.input_mode == ModeView::Menu
            &&& w.menu is Some
            &&& w.menu->0.kind == MenuKind::Model
            &&& w.menu->0.items.len() == v.providers.len()
            &&& 0 <= s < v.providers.len()
            &&& (exists|i: int| 0 <= i < v.providers.len() && #[trigger] v.providers[i].code == v.provider.code)
                ==> {
                &&& v.providers[s].code == v.provider.code
                &&& forall|j: int| 0 <= j < s ==> #[trigger] v.providers[j].code != v.provider.code
                &&& menu_key(w, enter).1 == seq![ActionView::EnsureApiKey(s as usize)]
            }
            &&& (forall|i: int| 0 <= i < v.providers.len() ==> #[trigger] v.providers[i].code != v.provider.code)
                ==> s == 0
        }),
{
    lemma_find_code(v.providers, v.provider.code, 0);
    reveal_strlit("");
    let (w, acts) = model_switched(v, Seq::empty());
    let s = w.menu->0.selected as int;
    if exists|i: int| 0 <= i < v.providers.len() && #[trigger] v.providers[i].code == v.provider.code {
        let i = choose|i: int| 0 <= i < v.providers.len() && #[trigger] v.providers[i].code == v.provider.code;
        assert(find_code(v.providers, v.provider.code, 0) is Some);
        let k = find_code(v.providers, v.provider.code, 0)->0;
        assert(s == k);
        lemma_find_code(w.providers, v.providers[s].code, 0);
        assert(w.providers == v.providers);
        assert(find_code(v.providers, v.providers[s].code, 0) == Some(s));
    }
}

/// Law: moving the menu highlight up and then down (or down and then up) returns to the
/// same entry, and the highlight stays on an entry.
pub proof fn law_menu_up_down_inverse(v: AppView, up: KeyPress, down: KeyPress)
    requires
        v.wf(),
        v.menu is Some,
        is_up_key(up.code),
        is_down_key(down.code),
    ensures
        menu_key(menu_key(v, up).0, down).0 == v,
        menu_key(menu_key(v, down).0, up).0 == v,
        menu_key(v, up).0.wf(),
        menu_key(v, down).0.wf(),
{
    let m = v.menu->0;
    let n = m.items.len() as int;
    let s = m.selected as int;
    assert(!is_down_key(up.code) && !is_up_key(down.code));
    if s == 0 {
        vstd::arithmetic::div_mod::lemma_small_mod((n - 1) as nat, n as nat);
    } else {
        vstd::arithmetic::div_mod::lemma_mod_add_multiples_vanish(s - 1, n);
        vstd::arithmetic::div_mod::lemma_small_mod((s - 1) as nat, n as nat);
    }
    let u = (s + n - 1) % n;
    if u + 1 == n {
        vstd::arithmetic::div_mod::lemma_mod_self_0(n);
    } else {
        vstd::arithmetic::div_mod::lemma_small_mod((u + 1) as nat, n as nat);
    }
    if s + 1 == n {
        vstd::arithmetic::div_mod::lemma_mod_self_0(n);
    } else {
        vstd::arithmetic::div_mod::lemma_small_mod((s + 1) as nat, n as nat);
    }
    let d = (s + 1) % n;
    if d == 0 {
        vstd::arithmetic::div_mod::lemma_small_mod((n - 1) as nat, n as nat);
    } else {
        vstd::arithmetic::div_mod::lemma_mod_add_multiples_vanish(d - 1, n);
        vstd::arithmetic::div_mod::lemma_small_mod((d - 1) as nat, n as nat);
    }
    assert(u == s - 1 || (s == 0 && u == n - 1));
    assert((u + 1) % n == s);
    assert(d == s + 1 || (s + 1 == n && d == 0));
    assert((d + n - 1) % n == s);
    let v1 = menu_key(v, up).0;
    assert(v1.menu == Some(MenuView { selected: u as usize, ..m }));
    assert(v1.menu->0.items.len() == n);
    assert(v1.input_mode == v.input_mode);
    let v2 = menu_key(v1, down).0;
    assert(v2.menu->0 =~= m);
    assert(v2 =~= v);
    let w1 = menu_key(v, down).0;
    assert(w1.menu == Some(MenuView { selected: d as usize, ..m }));
    let w2 = menu_key(w1, up).0;
    assert(w2.menu->0 =~= m);
    assert(w2 =~= v);
}

/// Law: Control-C ends the session whatever the input mode, and changes nothing else.
pub proof fn law_ctrl_c_quits(v: AppView, input: Seq<char>)
    ensures
        key_handled(v, KeyPress { code: KeyCode::Char('c'), ctrl: true }, input)
            == (AppView { should_quit: true, ..v }, Seq::<ActionView>::empty()),
{
    assert(key_handled(v, KeyPress { code: KeyCode::Char('c'), ctrl: true }, input).1 =~= Seq::<ActionView>::empty());
}

/// Law: while the assistant listens or waits for the model, keys other than the global
/// ones (Ctrl-C, PageUp, PageDown, End) change nothing and ask for nothing.
pub proof fn law_busy_ignores_keys(v: AppView, key: KeyPress, input: Seq<char>)
    requires
        v.input_mode == ModeView::Processing || v.input_mode == ModeView::Listening,
        !(key.code == KeyCode::Char('c') && key.ctrl),
        key.code != KeyCode::PageUp,
        key.code != KeyCode::PageDown,
        key.code != KeyCode::End,
    ensures
        key_handled(v, key, input) == (v, Seq::<ActionView>::empty()),
{
}

/// Law: switching to "the other language" twice restores the language when it is
/// Indonesian or English, and announces each switch.
pub proof fn law_language_toggle_twice(v: AppView, arg: Seq<char>)
    requires
        v.voice.lang == "id"@ || v.voice.lang == "en"@,
        arg.len() > 0,
        arg != "id"@,
        arg != "en"@,
    ensures
        lang_switched(lang_switched(v, arg), arg).voice.lang == v.voice.lang,
        lang_switched(lang_switched(v, arg), arg).messages.len() == v.messages.len() + 2,
{
    reveal_strlit("id");
    reveal_strlit("en");
}

/// Law: what is sent to the model is what is shown: whenever handling a line starts a
/// model turn, the line (trimmed) was added both to the chat as a user bubble and to the
/// conversation as a user message, and the answer is now awaited.
pub proof fn law_sent_input_is_shown(v: AppView, teks: Seq<char>)
    ensures
        ({
            let (w, acts) = user_input_processed(v, teks);
            acts == seq![ActionView::StartLlmTurn] ==> {
                &&& w.messages == v.messages.push(
                    crate::model::BubbleView { role: BubbleRole::User, content: trim(teks) },
                )
                &&& w.llm_messages == v.llm_messages.push(user_message(trim(teks)))
                &&& w.is_streaming
                &&& w.input_mode == ModeView::Processing
            }
        }),
{
    let t = trim(teks);
    let (w, acts) = user_input_processed(v, teks);
    if acts == seq![ActionView::StartLlmTurn] {
        if t.len() > 0 && t != "/exit"@ && t != "/quit"@ && t != "/help"@ && strip_prefix_spec(t, "/model"@) is None
            && strip_prefix_spec(t, "/lan"@) is None {
            match quick_command(t) {
                Some((kind, val)) => {
                    if kind == "model"@ {
                        if val.len() == 0 {
                            assert(model_switched(v, val).1 =~= Seq::<ActionView>::empty());
                        } else {
                            match find_code(v.providers, val, 0) {
                                Some(i) => {
                                    assert(provider_applied(v, val).1[0] == ActionView::EnsureApiKey(i as usize));
                                },
                                None => {
                                    assert(provider_applied(v, val).1 =~= Seq::<ActionView>::empty());
                                },
                            }
                        }
                    } else {
                        assert(acts =~= Seq::<ActionView>::empty());
                    }
                },
                None => {},
            }
        } else if t.len() > 0 && t != "/exit"@ && t != "/quit"@ && t != "/help"@ && strip_prefix_spec(t, "/model"@) is Some {
            let arg = trim(strip_prefix_spec(t, "/model"@)->0);
            if arg.len() == 0 {
                assert(model_switched(v, arg).1 =~= Seq::<ActionView>::empty());
            } else {
                match find_code(v.providers, arg, 0) {
                    Some(i) => {
                        assert(provider_applied(v, arg).1[0] == ActionView::EnsureApiKey(i as usize));
                    },
                    None => {
                        assert(provider_applied(v, arg).1 =~= Seq::<ActionView>::empty());
                    },
                }
            }
        } else {
            assert(acts =~= Seq::<ActionView>::empty());
        }
    }
}

/// Law: a completed answer without tool calls leaves at most `max_history` messages after
/// the system prompt, and the system prompt stays first.
pub proof fn law_completed_answer_bounds_history(v: AppView, text: Seq<char>)
    requires
        v.llm_messages.len() > 0,
    ensures
        llm_completed(v, text, Seq::empty()).0.llm_messages.len() <= v.limits.max_history + 1,
        llm_completed(v, text, Seq::empty()).0.llm_messages[0] == v.llm_messages[0],
{
    let ms = with_message(streaming_finished(v), assistant_message(text, Seq::empty())).llm_messages;
    crate::history::law_trim_history_shape(ms, v.limits.max_history as nat);
}

} // verus!
