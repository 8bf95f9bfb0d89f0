//! What the terminal shows: the chat as styled lines, how many rows they take once
//! wrapped, where the view scrolls to, and the header, status bar, input line and menu
//! pop-up. Colours are named by `Tone`; drawing them is left to the terminal front end.
use vstd::prelude::*;
use crate::app::{max_offset, App, AppView};
use crate::model::{BubbleRole, BubbleView, InputMode, MenuKind, ModeView, MenuState, MenuView};
use crate::text::{
    concat, lines_of, push_char, split_lines, str_eq, strip_prefix, strip_prefix_spec, to_uppercase,
    uppercase, newline_index, lemma_newline_index_bound,
};

verus! {

/// The look of a piece of text.
#[derive(Clone, Copy, Debug, PartialEq, Eq, Structural)]
pub enum Tone {
    /// No style of its own.
    Plain,
    Accent,
    AccentBold,
    AccentItalic,
    Muted,
    MutedItalic,
    /// Ordinary text.
    Text,
    TextBold,
    Error,
    Warning,
    WarningBold,
    Tool,
    ToolDim,
    /// Separators of the status bar.
    Border,
    /// The mode badge of the header in hands-free mode.
    BadgeVoice,
    /// The mode badge of the header in typing mode.
    BadgeTyping,
    /// The highlighted entry of a menu and its marker.
    MenuSelected,
    MenuSelectedMarker,
    MenuItem,
    MenuHint,
    MenuTitle,
}

/// A piece of text with its look.
#[derive(Clone, Debug)]
pub struct StyledSpan {
    pub text: String,
    pub tone: Tone,
}

/// One line of the screen, as pieces of styled text.
#[derive(Clone, Debug)]
pub struct ChatLine {
    pub spans: Vec<StyledSpan>,
}

pub type SpanView = (Seq<char>, Tone);

pub type LineView = Seq<SpanView>;

impl View for StyledSpan {
    type V = SpanView;

    open spec fn view(&self) -> SpanView {
        (self.text@, self.tone)
    }
}

impl View for ChatLine {
    type V = LineView;

    open spec fn view(&self) -> LineView {
        self.spans@.map_values(|s: StyledSpan| s@)
    }
}

pub open spec fn lines_view(ls: Seq<ChatLine>) -> Seq<LineView> {
    ls.map_values(|l: ChatLine| l@)
}

fn styled(text: &str, tone: Tone) -> (s: StyledSpan)
    ensures
        s@ == (text@, tone),
{
    StyledSpan { text: text.to_owned(), tone }
}

fn line_of(spans: Vec<StyledSpan>) -> (l: ChatLine)
    ensures
        l@ == spans@.map_values(|s: StyledSpan| s@),
{
    ChatLine { spans }
}

fn line2(a: StyledSpan, b: StyledSpan) -> (l: ChatLine)
    ensures
        l@ == seq![a@, b@],
{
    let mut v: Vec<StyledSpan> = Vec::new();
    v.push(a);
    v.push(b);
    let l = ChatLine { spans: v };
    assert(l@ =~= seq![a@, b@]);
    l
}

fn line3(a: StyledSpan, b: StyledSpan, c: StyledSpan) -> (l: ChatLine)
    ensures
        l@ == seq![a@, b@, c@],
{
    let mut v: Vec<StyledSpan> = Vec::new();
    v.push(a);
    v.push(b);
    v.push(c);
    let l = ChatLine { spans: v };
    assert(l@ =~= seq![a@, b@, c@]);
    l
}

// ---------------------------------------------------------------------------
// The busy animation
// ---------------------------------------------------------------------------

/// The frames of the busy animation.
pub open spec fn spinner_frames() -> Seq<char> {
    seq!['⠋', '⠙', '⠹', '⠸', '⠼', '⠴', '⠦', '⠧', '⠇', '⠏']
}

/// Frame `idx` of the busy animation; the frames repeat.
pub fn spin(idx: usize) -> (c: char)
    ensures
        c == spinner_frames()[(idx % 10) as int],
{
    let k = idx % 10;
    if k == 0 {
        '⠋'
    } else if k == 1 {
        '⠙'
    } else if k == 2 {
        '⠹'
    } else if k == 3 {
        '⠸'
    } else if k == 4 {
        '⠼'
    } else if k == 5 {
        '⠴'
    } else if k == 6 {
        '⠦'
    } else if k == 7 {
        '⠧'
    } else if k == 8 {
        '⠇'
    } else {
        '⠏'
    }
}

// ---------------------------------------------------------------------------
// The chat
// ---------------------------------------------------------------------------

pub open spec fn blank_line() -> LineView {
    seq![(""@, Tone::Plain)]
}

/// The heading of a user or assistant bubble.
pub open spec fn header_line(who: Seq<char>) -> LineView {
    seq![("  ╭─ "@, Tone::Accent), (who, Tone::AccentBold)]
}

pub open spec fn prefixed_line(prefix: Seq<char>, prefix_tone: Tone, raw: Seq<char>, tone: Tone) -> LineView {
    seq![(prefix, prefix_tone), (raw, tone)]
}

/// Each line of `content`, behind `prefix`.
pub open spec fn prefixed_lines(content: Seq<char>, prefix: Seq<char>, prefix_tone: Tone, tone: Tone) -> Seq<LineView> {
    lines_of(content).map_values(|raw: Seq<char>| prefixed_line(prefix, prefix_tone, raw, tone))
}

/// System notices are red when they start with `❌`, orange when they start with `⚠`,
/// and muted otherwise.
pub open spec fn system_tone(content: Seq<char>) -> Tone {
    if strip_prefix_spec(content, "❌"@) is Some {
        Tone::Error
    } else if strip_prefix_spec(content, "⚠"@) is Some {
        Tone::Warning
    } else {
        Tone::MutedItalic
    }
}

/// The lines of one bubble.
pub open spec fn bubble_lines(b: BubbleView) -> Seq<LineView> {
    match b.role {
        BubbleRole::System => prefixed_lines(b.content, "  "@, Tone::Plain, system_tone(b.content)),
        BubbleRole::User => seq![header_line("ANDA"@)] + prefixed_lines(
            b.content,
            "  │ "@,
            Tone::Accent,
            Tone::Text,
        ),
        BubbleRole::Assistant => seq![header_line("VOCA"@)] + prefixed_lines(
            b.content,
            "  │ "@,
            Tone::Accent,
            Tone::Text,
        ),
        BubbleRole::Tool => prefixed_lines(b.content, "  ◆ "@, Tone::Tool, Tone::ToolDim),
    }
}

/// The lines after `prev`, separated from it by a blank line when `prev` is not empty.
pub open spec fn after_blank(prev: Seq<LineView>, next: Seq<LineView>) -> Seq<LineView> {
    if prev.len() > 0 {
        prev + seq![blank_line()] + next
    } else {
        prev + next
    }
}

/// The lines of a chat history: the bubbles in order, with a blank line between
/// consecutive bubbles that have lines.
pub open spec fn bubbles_layout(bs: Seq<BubbleView>) -> Seq<LineView>
    decreases bs.len(),
{
    if bs.len() == 0 {
        seq![]
    } else {
        after_blank(bubbles_layout(bs.drop_last()), bubble_lines(bs.last()))
    }
}

/// The answer being streamed: a heading, then either the animation with its message
/// (before the first piece arrives) or the text so far followed by an animated cursor.
pub open spec fn streaming_lines(v: AppView) -> Seq<LineView> {
    let sp = spinner_frames()[(v.spinner_frame % 10) as int];
    seq![header_line("VOCA"@)] + if v.current_stream.len() == 0 {
        seq![
            seq![
                ("  │ "@, Tone::Accent),
                (seq![sp, ' '], Tone::Accent),
                (if v.spinner_msg.len() == 0 {
                    "memikirkan..."@
                } else {
                    v.spinner_msg
                }, Tone::MutedItalic),
            ],
        ]
    } else {
        prefixed_lines(v.current_stream, "  │ "@, Tone::Accent, Tone::Text) + seq![
            seq![("  │ "@, Tone::Accent), (seq![sp], Tone::Accent)],
        ]
    }
}

/// Everything the chat area shows.
pub open spec fn chat_layout(v: AppView) -> Seq<LineView> {
    let base = bubbles_layout(v.messages);
    if v.is_streaming {
        after_blank(base, streaming_lines(v))
    } else {
        base
    }
}

fn push_prefixed(out: &mut Vec<ChatLine>, content: &str, prefix: &str, prefix_tone: Tone, tone: Tone)
    ensures
        lines_view(final(out)@) == lines_view(old(out)@) + prefixed_lines(content@, prefix@, prefix_tone, tone),
{
    let raws = split_lines(content);
    let ghost rs = raws@.map_values(|l: String| l@);
    let ghost start = lines_view(out@);
    let mut j: usize = 0;
    while j < raws.len()
        invariant
            j <= raws.len(),
            rs == raws@.map_values(|l: String| l@),
            rs == lines_of(content@),
            lines_view(out@) == start + rs.take(j as int).map_values(
                |raw: Seq<char>| prefixed_line(prefix@, prefix_tone, raw, tone),
            ),
        decreases raws.len() - j,
    {
        let l = line2(styled(prefix, prefix_tone), styled(raws[j].as_str(), tone));
        let ghost before = out@;
        out.push(l);
        proof {
            assert(rs[j as int] == raws@[j as int]@);
            assert(rs.take(j + 1) =~= rs.take(j as int).push(rs[j as int]));
            assert(lines_view(out@) =~= lines_view(before).push(l@));
            assert(lines_view(out@) =~= start + rs.take(j + 1).map_values(
                |raw: Seq<char>| prefixed_line(prefix@, prefix_tone, raw, tone),
            ));
        }
        j = j + 1;
    }
    assert(rs.take(raws.len() as int) =~= rs);
}

fn push_line(out: &mut Vec<ChatLine>, l: ChatLine)
    ensures
        lines_view(final(out)@) == lines_view(old(out)@).push(l@),
{
    out.push(l);
    assert(lines_view(out@) =~= lines_view(old(out)@).push(l@));
}

fn header(who: &str) -> (l: ChatLine)
    ensures
        l@ == header_line(who@),
{
    line2(styled("  ╭─ ", Tone::Accent), styled(who, Tone::AccentBold))
}

fn push_bubble_lines(out: &mut Vec<ChatLine>, b: &crate::model::ChatBubble)
    ensures
        lines_view(final(out)@) == lines_view(old(out)@) + bubble_lines(b@),
{
    match b.role {
        BubbleRole::System => {
            let tone = if strip_prefix(b.content.as_str(), "❌").is_some() {
                Tone::Error
            } else if strip_prefix(b.content.as_str(), "⚠").is_some() {
                Tone::Warning
            } else {
                Tone::MutedItalic
            };
            push_prefixed(out, b.content.as_str(), "  ", Tone::Plain, tone);
        },
        BubbleRole::User => {
            push_line(out, header("ANDA"));
            let ghost mid = lines_view(out@);
            push_prefixed(out, b.content.as_str(), "  │ ", Tone::Accent, Tone::Text);
            assert(lines_view(out@) =~= lines_view(old(out)@) + bubble_lines(b@));
        },
        BubbleRole::Assistant => {
            push_line(out, header("VOCA"));
            push_prefixed(out, b.content.as_str(), "  │ ", Tone::Accent, Tone::Text);
            assert(lines_view(out@) =~= lines_view(old(out)@) + bubble_lines(b@));
        },
        BubbleRole::Tool => {
            push_prefixed(out, b.content.as_str(), "  ◆ ", Tone::Tool, Tone::ToolDim);
        },
    }
}

fn blank() -> (l: ChatLine)
    ensures
        l@ == blank_line(),
{
    let mut v: Vec<StyledSpan> = Vec::new();
    v.push(styled("", Tone::Plain));
    let l = ChatLine { spans: v };
    assert(l@ =~= blank_line());
    l
}

/// The lines the chat area shows for the current state (see `chat_layout`).
pub fn chat_lines(app: &App) -> (r: Vec<ChatLine>)
    ensures
        lines_view(r@) == chat_layout(app@),
{
    let ghost bs = app@.messages;
    let mut out: Vec<ChatLine> = Vec::new();
    let mut i: usize = 0;
    assert(bs.take(0) =~= Seq::<BubbleView>::empty());
    assert(lines_view(out@) =~= Seq::<LineView>::empty());
    while i < app.messages.len()
        invariant
            i <= app.messages.len(),
            bs == app@.messages,
            lines_view(out@) == bubbles_layout(bs.take(i as int)),
        decreases app.messages.len() - i,
    {
        let ghost prev = lines_view(out@);
        if out.len() > 0 {
            push_line(&mut out, blank());
        }
        push_bubble_lines(&mut out, &app.messages[i]);
        proof {
            assert(bs[i as int] == app.messages@[i as int]@);
            assert(bs.take(i + 1).drop_last() =~= bs.take(i as int));
            assert(lines_view(out@) =~= after_blank(prev, bubble_lines(bs[i as int])));
        }
        i = i + 1;
    }
    assert(bs.take(app.messages.len() as int) =~= bs);
    if app.is_streaming {
        let ghost base = lines_view(out@);
        if out.len() > 0 {
            push_line(&mut out, blank());
        }
        let ghost with_sep = lines_view(out@);
        push_line(&mut out, header("VOCA"));
        let sp = spin(app.spinner_frame);
        if app.current_stream.unicode_len() == 0 {
            let mut frame = String::new();
            push_char(&mut frame, sp);
            push_char(&mut frame, ' ');
            let msg = if app.spinner_msg.unicode_len() == 0 {
                "memikirkan..."
            } else {
                app.spinner_msg.as_str()
            };
            let l = line3(styled("  │ ", Tone::Accent), styled(frame.as_str(), Tone::Accent), styled(msg, Tone::MutedItalic));
            push_line(&mut out, l);
            assert(frame@ =~= seq![sp, ' ']);
        } else {
            push_prefixed(&mut out, app.current_stream.as_str(), "  │ ", Tone::Accent, Tone::Text);
            let mut cursor = String::new();
            push_char(&mut cursor, sp);
            assert(cursor@ =~= seq![sp]);
            push_line(&mut out, line2(styled("  │ ", Tone::Accent), styled(cursor.as_str(), Tone::Accent)));
        }
        assert(lines_view(out@) =~= after_blank(base, streaming_lines(app@)));
    }
    out
}

// ---------------------------------------------------------------------------
// Wrapping
// ---------------------------------------------------------------------------

/// The number of characters on a line.
pub open spec fn line_chars(l: LineView) -> nat
    decreases l.len(),
{
    if l.len() == 0 {
        0
    } else {
        line_chars(l.drop_last()) + l.last().0.len()
    }
}

/// The rows a line takes in a `width`-wide area: one for an empty line, else its
/// characters divided by the width, rounded up.
pub open spec fn line_rows(l: LineView, width: nat) -> nat {
    if line_chars(l) == 0 {
        1
    } else {
        ((line_chars(l) + width - 1) / (width as int)) as nat
    }
}

pub open spec fn rows_sum(ls: Seq<LineView>, width: nat) -> nat
    decreases ls.len(),
{
    if ls.len() == 0 {
        0
    } else {
        rows_sum(ls.drop_last(), width) + line_rows(ls.last(), width)
    }
}

/// The rows the lines take in a `width`-wide area once wrapped; with no width, one row
/// per line.
pub open spec fn wrapped_rows(ls: Seq<LineView>, width: nat) -> nat {
    if width == 0 {
        ls.len()
    } else {
        rows_sum(ls, width)
    }
}

fn line_char_count(l: &ChatLine) -> (n: u128)
    ensures
        n == line_chars(l@),
        n <= 0xffff_ffff_ffff_ffff_0000_0000_0000_0000u128,
{
    let mut n: u128 = 0;
    let mut k: usize = 0;
    while k < l.spans.len()
        invariant
            k <= l.spans.len(),
            n == line_chars(l@.take(k as int)),
            n <= k * 0xffff_ffff_ffff_ffffu128,
            l.spans.len() <= usize::MAX,
        decreases l.spans.len() - k,
    {
        let c = l.spans[k].text.unicode_len();
        proof {
            assert(l@.take(k + 1).drop_last() =~= l@.take(k as int));
            assert(l@[k as int] == l.spans@[k as int]@);
            assert(k < 0x1_0000_0000_0000_0000) by {
                assert(k <= usize::MAX);
            }
            assert(c <= 0xffff_ffff_ffff_ffffu128);
            assert(n + c <= (k + 1) * 0xffff_ffff_ffff_ffffu128) by (nonlinear_arith)
                requires
                    n <= k * 0xffff_ffff_ffff_ffffu128,
                    c <= 0xffff_ffff_ffff_ffffu128,
            ;
            assert((k + 1) * 0xffff_ffff_ffff_ffffu128 <= 0x1_0000_0000_0000_0000 * 0xffff_ffff_ffff_ffffu128) by (nonlinear_arith)
                requires
                    k + 1 <= 0x1_0000_0000_0000_0000int,
            ;
        }
        n = n + c as u128;
        k = k + 1;
    }
    assert(l@.take(l.spans.len() as int) =~= l@);
    assert(n <= 0xffff_ffff_ffff_ffff_0000_0000_0000_0000u128) by (nonlinear_arith)
        requires
            n <= k * 0xffff_ffff_ffff_ffffu128,
            k <= 0xffff_ffff_ffff_ffffu128,
    ;
    n
}

/// The rows one line takes in a `width`-wide area.
fn line_rows_exec(l: &ChatLine, width: usize) -> (r: u128)
    requires
        width > 0,
    ensures
        r == line_rows(l@, width as nat),
{
    let chars = line_char_count(l);
    let w = width as u128;
    let rows: u128 = if chars == 0 {
        1
    } else {
        chars / w + if chars % w == 0 {
            0
        } else {
            1
        }
    };
    proof {
        if chars > 0 {
            assert(rows == (chars + w - 1) / (w as int)) by (nonlinear_arith)
                requires
                    w > 0,
                    rows == chars / w + if chars % w == 0 { 0int } else { 1int },
            ;
        }
    }
    rows
}

/// A prefix of the lines takes no more rows than all of them.
proof fn lemma_rows_sum_prefix(ls: Seq<LineView>, width: nat, k: int)
    requires
        0 <= k <= ls.len(),
    ensures
        rows_sum(ls.take(k), width) <= rows_sum(ls, width),
    decreases ls.len(),
{
    if k < ls.len() {
        lemma_rows_sum_prefix(ls.drop_last(), width, k);
        assert(ls.drop_last().take(k) =~= ls.take(k));
    } else {
        assert(ls.take(k) =~= ls);
    }
}

/// The rows the lines take once wrapped in a `width`-wide area (one per line when the
/// width is 0). The count must fit in a `usize`.
pub fn compute_wrapped_lines(lines: &Vec<ChatLine>, width: usize) -> (r: usize)
    requires
        wrapped_rows(lines_view(lines@), width as nat) <= usize::MAX,
    ensures
        r == wrapped_rows(lines_view(lines@), width as nat),
{
    let ghost ls = lines_view(lines@);
    if width == 0 {
        return lines.len();
    }
    let mut acc: usize = 0;
    let mut i: usize = 0;
    while i < lines.len()
        invariant
            i <= lines.len(),
            width > 0,
            ls == lines_view(lines@),
            rows_sum(ls, width as nat) <= usize::MAX,
            acc == rows_sum(ls.take(i as int), width as nat),
        decreases lines.len() - i,
    {
        let rows = line_rows_exec(&lines[i], width);
        proof {
            assert(ls[i as int] == lines@[i as int]@);
            assert(ls.take(i + 1).drop_last() =~= ls.take(i as int));
            lemma_rows_sum_prefix(ls, width as nat, i + 1);
        }
        acc = acc + rows as usize;
        i = i + 1;
    }
    assert(ls.take(lines.len() as int) =~= ls);
    acc
}

/// The rows the lines take once wrapped, modulo 2^16: the chat keeps the count as a
/// 16-bit number.
fn wrapped_rows_u16(lines: &Vec<ChatLine>, width: usize) -> (r: u16)
    ensures
        r == wrapped_rows(lines_view(lines@), width as nat) % 65536,
{
    let ghost ls = lines_view(lines@);
    if width == 0 {
        return (lines.len() % 65536) as u16;
    }
    let mut acc: u32 = 0;
    let mut i: usize = 0;
    while i < lines.len()
        invariant
            i <= lines.len(),
            width > 0,
            ls == lines_view(lines@),
            acc == rows_sum(ls.take(i as int), width as nat) % 65536,
        decreases lines.len() - i,
    {
        let rows = line_rows_exec(&lines[i], width);
        proof {
            assert(ls[i as int] == lines@[i as int]@);
            assert(ls.take(i + 1).drop_last() =~= ls.take(i as int));
            vstd::arithmetic::div_mod::lemma_add_mod_noop(
                rows_sum(ls.take(i as int), width as nat) as int,
                rows as int,
                65536,
            );
            vstd::arithmetic::div_mod::lemma_mod_twice(rows as int, 65536);
        }
        acc = ((acc as u128 + rows % 65536) % 65536) as u32;
        i = i + 1;
    }
    assert(ls.take(lines.len() as int) =~= ls);
    acc as u16
}

/// The row count the chat keeps for a layout in an area `area_width` columns wide (the
/// area has a one-column border on each side).
pub open spec fn counted_rows(ls: Seq<LineView>, area_width: u16) -> u16 {
    (wrapped_rows(ls, (if area_width >= 2 { area_width - 2 } else { 0 }) as nat) % 65536) as u16
}

/// Lays the chat out for an area of `area_width` by `area_height` cells: records how many
/// rows the lines take and, when following the bottom, scrolls to the last row.
pub fn layout_chat(app: &mut App, area_width: u16, area_height: u16) -> (r: Vec<ChatLine>)
    ensures
        lines_view(r@) == chat_layout(old(app)@),
        final(app)@ == (AppView {
            total_lines: counted_rows(chat_layout(old(app)@), area_width),
            scroll_offset: if old(app)@.is_at_bottom {
                max_offset(counted_rows(chat_layout(old(app)@), area_width), area_height)
            } else {
                old(app)@.scroll_offset
            },
            ..old(app)@
        }),
{
    let inner_w = area_width.saturating_sub(2) as usize;
    let lines = chat_lines(app);
    let total = wrapped_rows_u16(&lines, inner_w);
    app.total_lines = total;
    if app.is_at_bottom {
        app.scroll_offset = app.total_lines.saturating_sub(area_height);
    }
    lines
}

/// The scrollbar, when the chat is longer than the view: how far it can scroll and where
/// it is.
pub fn scrollbar(app: &App, visible_h: u16) -> (r: Option<(usize, usize)>)
    ensures
        r == (if app.total_lines > visible_h {
            Some(((app.total_lines - visible_h) as usize, app.scroll_offset as usize))
        } else {
            None
        }),
{
    let content = app.total_lines as usize;
    let viewport = visible_h as usize;
    if content > viewport {
        Some((content - viewport, app.scroll_offset as usize))
    } else {
        None
    }
}

/// Law: every line takes at least one row, so a layout of `n` lines takes at least `n`
/// rows in any area.
pub proof fn law_rows_at_least_lines(ls: Seq<LineView>, width: nat)
    ensures
        wrapped_rows(ls, width) >= ls.len(),
    decreases ls.len(),
{
    if width > 0 && ls.len() > 0 {
        law_rows_at_least_lines(ls.drop_last(), width);
        let l = ls.last();
        if line_chars(l) > 0 {
            assert((line_chars(l) + width - 1) / (width as int) >= 1) by (nonlinear_arith)
                requires
                    line_chars(l) >= 1,
                    width >= 1,
            ;
        }
    }
}

/// Law: a bubble shows all of its text. A user or assistant bubble is a heading naming
/// the speaker (`ANDA` or `VOCA`) followed by one line per line of its content, each
/// behind the `  │ ` bar; a system notice and a tool notice are one line per content
/// line, behind two spaces or the `  ◆ ` mark. Non-empty content has at least one line,
/// and the newest bubble's lines end the chat.
pub proof fn law_bubble_shows_content(bs: Seq<BubbleView>, b: BubbleView)
    ensures
        b.content.len() > 0 ==> lines_of(b.content).len() >= 1,
        (b.role == BubbleRole::User || b.role == BubbleRole::Assistant) ==> {
            &&& bubble_lines(b).len() == 1 + lines_of(b.content).len()
            &&& bubble_lines(b)[0] == seq![
                ("  ╭─ "@, Tone::Accent),
                (if b.role == BubbleRole::User { "ANDA"@ } else { "VOCA"@ }, Tone::AccentBold),
            ]
            &&& forall|i: int|
                0 <= i < lines_of(b.content).len() ==> #[trigger] bubble_lines(b)[i + 1] == seq![
                    ("  │ "@, Tone::Accent),
                    (lines_of(b.content)[i], Tone::Text),
                ]
        },
        b.role == BubbleRole::System ==> {
            &&& bubble_lines(b).len() == lines_of(b.content).len()
            &&& forall|i: int|
                0 <= i < lines_of(b.content).len() ==> #[trigger] bubble_lines(b)[i] == seq![
                    ("  "@, Tone::Plain),
                    (lines_of(b.content)[i], system_tone(b.content)),
                ]
        },
        b.role == BubbleRole::Tool ==> {
            &&& bubble_lines(b).len() == lines_of(b.content).len()
            &&& forall|i: int|
                0 <= i < lines_of(b.content).len() ==> #[trigger] bubble_lines(b)[i] == seq![
                    ("  ◆ "@, Tone::Tool),
                    (lines_of(b.content)[i], Tone::ToolDim),
                ]
        },
        ({
            let all = bubbles_layout(bs.push(b));
            let n = bubble_lines(b).len();
            &&& n <= all.len()
            &&& all.subrange(all.len() - n, all.len() as int) == bubble_lines(b)
        }),
{
    if b.content.len() > 0 {
        let s = b.content;
        match newline_index(s) {
            None => {},
            Some(k) => {
                lemma_newline_index_bound(s);
            },
        }
    }
    let ls = lines_of(b.content);
    if b.role == BubbleRole::User || b.role == BubbleRole::Assistant {
        assert forall|i: int| 0 <= i < ls.len() implies #[trigger] bubble_lines(b)[i + 1] == seq![
            ("  │ "@, Tone::Accent),
            (ls[i], Tone::Text),
        ] by {
            assert(bubble_lines(b)[i + 1] == prefixed_lines(b.content, "  │ "@, Tone::Accent, Tone::Text)[i]);
        }
    }
    assert(bs.push(b).drop_last() =~= bs);
    let prev = bubbles_layout(bs);
    let all = bubbles_layout(bs.push(b));
    let n = bubble_lines(b).len();
    if prev.len() > 0 {
        assert(all =~= prev + seq![blank_line()] + bubble_lines(b));
    } else {
        assert(all =~= prev + bubble_lines(b));
    }
    assert(all.subrange(all.len() - n, all.len() as int) =~= bubble_lines(b));
}

/// Law: the answer being streamed is shown as it arrives: under the `VOCA` heading, one
/// line per line received so far behind the `  │ ` bar, then a line with the animation;
/// before anything arrives, one line with the animation and its message. While streaming
/// these lines end the chat, after the history.
pub proof fn law_streamed_text_shown(v: AppView)
    ensures
        streaming_lines(v)[0] == seq![("  ╭─ "@, Tone::Accent), ("VOCA"@, Tone::AccentBold)],
        v.current_stream.len() == 0 ==> streaming_lines(v).len() == 2,
        v.current_stream.len() > 0 ==> {
            &&& streaming_lines(v).len() == 2 + lines_of(v.current_stream).len()
            &&& forall|i: int|
                0 <= i < lines_of(v.current_stream).len() ==> #[trigger] streaming_lines(v)[i + 1]
                    == seq![("  │ "@, Tone::Accent), (lines_of(v.current_stream)[i], Tone::Text)]
        },
        v.is_streaming ==> {
            let all = chat_layout(v);
            let n = streaming_lines(v).len();
            &&& n <= all.len()
            &&& all.subrange(all.len() - n, all.len() as int) == streaming_lines(v)
            &&& all.subrange(0, bubbles_layout(v.messages).len() as int) == bubbles_layout(v.messages)
        },
        !v.is_streaming ==> chat_layout(v) == bubbles_layout(v.messages),
{
    let ls = lines_of(v.current_stream);
    if v.current_stream.len() > 0 {
        assert forall|i: int| 0 <= i < ls.len() implies #[trigger] streaming_lines(v)[i + 1] == seq![
            ("  │ "@, Tone::Accent),
            (ls[i], Tone::Text),
        ] by {
            assert(streaming_lines(v)[i + 1] == prefixed_lines(v.current_stream, "  │ "@, Tone::Accent, Tone::Text)[i]);
        }
    }
    if v.is_streaming {
        let prev = bubbles_layout(v.messages);
        let all = chat_layout(v);
        let n = streaming_lines(v).len();
        if prev.len() > 0 {
            assert(all =~= prev + seq![blank_line()] + streaming_lines(v));
        } else {
            assert(all =~= prev + streaming_lines(v));
        }
        assert(all.subrange(all.len() - n, all.len() as int) =~= streaming_lines(v));
        assert(all.subrange(0, prev.len() as int) =~= prev);
    }
}

/// Law: the chat shows every bubble: a history of bubbles takes at least as many lines as
/// it has user and assistant bubbles (each has a heading).
pub proof fn law_headed_bubbles_shown(bs: Seq<BubbleView>)
    ensures
        bubbles_layout(bs).len() >= bs.filter(
            |b: BubbleView| b.role == BubbleRole::User || b.role == BubbleRole::Assistant,
        ).len(),
    decreases bs.len(),
{
    reveal_with_fuel(Seq::filter, 1);
    if bs.len() > 0 {
        law_headed_bubbles_shown(bs.drop_last());
    }
}

// ---------------------------------------------------------------------------
// Header, status bar and input line
// ---------------------------------------------------------------------------

/// `n` copies of `c`.
pub open spec fn repeated(c: char, n: nat) -> Seq<char> {
    Seq::new(n, |_i: int| c)
}

fn repeat_char(c: char, n: usize) -> (r: String)
    ensures
        r@ == repeated(c, n as nat),
{
    let mut r = String::new();
    let mut k: usize = 0;
    while k < n
        invariant
            k <= n,
            r@ == repeated(c, k as nat),
        decreases n - k,
    {
        push_char(&mut r, c);
        assert(r@ =~= repeated(c, (k + 1) as nat));
        k = k + 1;
    }
    r
}

/// The mode badge of the header.
pub open spec fn badge_text(listen: bool) -> Seq<char> {
    if listen {
        " ◉ SUARA "@
    } else {
        " ⌨  KETIK "@
    }
}

/// The width the header's left part takes.
pub open spec fn header_left_width() -> nat {
    32
}

/// The width the header's right part takes, as the header computes it (a 16-bit count).
pub open spec fn header_right_width(listen: bool, lang_upper: Seq<char>) -> nat {
    ((badge_text(listen).len() + lang_upper.len() + 2) % 65536) as nat
}

/// The header's title row: the name on the left, then the mode badge and the language on
/// the right, with spaces between so that the row fills `width` columns when it can.
pub open spec fn header_title(listen: bool, lang_upper: Seq<char>, width: u16) -> LineView {
    let used = header_left_width() + header_right_width(listen, lang_upper);
    let pad: nat = if width >= used { (width - used) as nat } else { 0 };
    seq![
        ("  ◈ "@, Tone::AccentBold),
        ("VOCA"@, Tone::AccentBold),
        ("  ·  AI Coding Assistant"@, Tone::Muted),
        (repeated(' ', pad), Tone::Plain),
        (badge_text(listen), if listen { Tone::BadgeVoice } else { Tone::BadgeTyping }),
        (" "@ + lang_upper + " "@, Tone::AccentBold),
    ]
}

/// The header's title row for the current state, `width` columns wide; none when the
/// width of its parts does not fit in 16 bits (where the row cannot be laid out).
pub fn header_title_line(app: &App, width: u16) -> (r: Option<ChatLine>)
    ensures
        match r {
            Some(l) => {
                &&& header_left_width() + header_right_width(app.voice.listen, uppercase(app.voice.lang@)) <= u16::MAX
                &&& l@ == header_title(app.voice.listen, uppercase(app.voice.lang@), width)
            },
            None => header_left_width() + header_right_width(app.voice.listen, uppercase(app.voice.lang@)) > u16::MAX,
        },
{
    let listen = app.voice.listen;
    let badge = if listen {
        " ◉ SUARA "
    } else {
        " ⌨  KETIK "
    };
    let upper = to_uppercase(app.voice.lang.as_str());
    let mut lang_str = concat(" ", upper.as_str());
    lang_str.append(" ");
    let left_len: u16 = 32;
    let badge_len = badge.unicode_len();
    let lang_len = lang_str.unicode_len();
    proof {
        reveal_strlit(" ◉ SUARA ");
        reveal_strlit(" ⌨  KETIK ");
        reveal_strlit(" ");
    }
    let right_total: u128 = (badge_len as u128) + (lang_len as u128);
    let right_len: u16 = (right_total % 65536) as u16;
    assert(badge@ == badge_text(listen));
    assert(lang_str@ == " "@ + uppercase(app.voice.lang@) + " "@);
    assert(badge_len == badge_text(listen).len());
    assert(lang_len == uppercase(app.voice.lang@).len() + 2);
    assert(right_total == badge_text(listen).len() + uppercase(app.voice.lang@).len() + 2);
    assert(right_len == header_right_width(listen, uppercase(app.voice.lang@)));
    if right_len > u16::MAX - left_len {
        return None;
    }
    let used = left_len + right_len;
    let pad = width.saturating_sub(used) as usize;
    let mut spans: Vec<StyledSpan> = Vec::new();
    spans.push(styled("  ◈ ", Tone::AccentBold));
    spans.push(styled("VOCA", Tone::AccentBold));
    spans.push(styled("  ·  AI Coding Assistant", Tone::Muted));
    let padding = repeat_char(' ', pad);
    spans.push(styled(padding.as_str(), Tone::Plain));
    spans.push(
        styled(
            badge,
            if listen {
                Tone::BadgeVoice
            } else {
                Tone::BadgeTyping
            },
        ),
    );
    spans.push(styled(lang_str.as_str(), Tone::AccentBold));
    let r = line_of(spans);
    assert(r@ =~= header_title(app.voice.listen, uppercase(app.voice.lang@), width));
    Some(r)
}

/// The rule under the header: `width` box-drawing dashes.
pub fn header_rule(width: u16) -> (r: ChatLine)
    ensures
        r@ == seq![(repeated('─', width as nat), Tone::Accent)],
{
    let dashes = repeat_char('─', width as usize);
    let mut spans: Vec<StyledSpan> = Vec::new();
    spans.push(styled(dashes.as_str(), Tone::Accent));
    let r = line_of(spans);
    assert(r@ =~= seq![(repeated('─', width as nat), Tone::Accent)]);
    r
}

/// The keys the status bar reminds of.
pub open spec fn status_hint(listen: bool) -> Seq<char> {
    if listen {
        " Enter bicara  ·  /model  ·  /lan  ·  /exit "@
    } else {
        " /model  ·  /lan  ·  /exit "@
    }
}

/// The status bar: provider and model, the mode, the key hints, then spaces to fill the row.
pub open spec fn status_bar(v: AppView, width: u16) -> LineView {
    let mode_tone = if v.voice.listen { Tone::AccentBold } else { Tone::Muted };
    seq![
        (" "@ + v.provider.name + " · "@ + v.provider.model + " "@, Tone::Muted),
        ("│"@, Tone::Border),
        (" "@ + (if v.voice.listen { "◉"@ } else { "⌨"@ }), mode_tone),
        (if v.voice.listen { " SUARA "@ } else { " KETIK "@ }, mode_tone),
        ("│"@, Tone::Border),
        (status_hint(v.voice.listen), Tone::Muted),
        (repeated(' ', width as nat), Tone::Plain),
    ]
}

/// The status bar for the current state, `width` columns wide.
pub fn status_line(app: &App, width: u16) -> (r: ChatLine)
    ensures
        r@ == status_bar(app@, width),
{
    let listen = app.voice.listen;
    let mut model_str = concat(" ", app.provider.name.as_str());
    model_str.append(" · ");
    model_str.append(app.provider.model.as_str());
    model_str.append(" ");
    let mode_tone = if listen {
        Tone::AccentBold
    } else {
        Tone::Muted
    };
    let icon = if listen {
        " ◉"
    } else {
        " ⌨"
    };
    proof {
        reveal_strlit(" ◉");
        reveal_strlit(" ⌨");
        reveal_strlit(" ");
        reveal_strlit("◉");
        reveal_strlit("⌨");
    }
    let mode_str = if listen {
        " SUARA "
    } else {
        " KETIK "
    };
    let hint = if listen {
        " Enter bicara  ·  /model  ·  /lan  ·  /exit "
    } else {
        " /model  ·  /lan  ·  /exit "
    };
    let fill = repeat_char(' ', width as usize);
    let mut spans: Vec<StyledSpan> = Vec::new();
    spans.push(styled(model_str.as_str(), Tone::Muted));
    spans.push(styled("│", Tone::Border));
    spans.push(styled(icon, mode_tone));
    spans.push(styled(mode_str, mode_tone));
    spans.push(styled("│", Tone::Border));
    spans.push(styled(hint, Tone::Muted));
    spans.push(styled(fill.as_str(), Tone::Plain));
    let r = line_of(spans);
    assert(icon@ =~= " "@ + (if listen { "◉"@ } else { "⌨"@ }));
    assert(model_str@ =~= " "@ + app@.provider.name + " · "@ + app@.provider.model + " "@);
    assert(r@ =~= status_bar(app@, width));
    r
}

/// What the input area shows: whether its border warns, its line, and whether the
/// text cursor is shown (after the four-column prompt).
pub struct InputView {
    pub warning_border: bool,
    pub line: ChatLine,
    pub show_cursor: bool,
}

/// The input area for the current state and the text of the input line: in normal mode
/// the microphone hint (hands-free, nothing typed) or the prompt with the text or a
/// placeholder; the animation while listening or waiting; the question with `[y/N]`; the
/// menu keys in a menu.
pub open spec fn input_area(v: AppView, input: Seq<char>) -> (bool, LineView, bool) {
    let sp = spinner_frames()[(v.spinner_frame % 10) as int];
    match v.input_mode {
        ModeView::Normal => {
            if v.voice.listen && !v.voice_text_mode && input.len() == 0 && v.has_voice_bridge {
                (
                    false,
                    seq![
                        ("  ◉ "@, Tone::AccentBold),
                        ("Enter = bicara"@, Tone::Accent),
                        ("    ·    "@, Tone::Muted),
                        ("t"@, Tone::TextBold),
                        (" = ketik teks"@, Tone::Muted),
                    ],
                    false,
                )
            } else if input.len() == 0 {
                (
                    false,
                    seq![
                        ("  › "@, Tone::AccentBold),
                        (if v.voice_text_mode {
                            "ketik pesan… (Esc = kembali mic)"@
                        } else {
                            "ketik pesan atau /help…"@
                        }, Tone::MutedItalic),
                    ],
                    true,
                )
            } else {
                (false, seq![("  › "@, Tone::AccentBold), (input, Tone::Text)], true)
            }
        },
        ModeView::Listening => (
            false,
            seq![
                ("  "@, Tone::Plain),
                (seq![sp, ' '], Tone::AccentBold),
                ("mendengarkan suara Anda…"@, Tone::AccentItalic),
            ],
            false,
        ),
        ModeView::Processing => (
            false,
            seq![
                ("  "@, Tone::Plain),
                (seq![sp, ' '], Tone::Muted),
                (if v.spinner_msg.len() == 0 {
                    "memikirkan…"@
                } else {
                    v.spinner_msg
                }, Tone::MutedItalic),
            ],
            false,
        ),
        ModeView::Confirming(prompt) => (
            true,
            seq![("  ⚠  "@, Tone::WarningBold), (prompt, Tone::Text), ("  [y/N] "@, Tone::WarningBold)],
            false,
        ),
        ModeView::Menu => (
            false,
            seq![("  ↑/↓ pilih  ·  Enter konfirmasi  ·  q batal"@, Tone::MutedItalic)],
            false,
        ),
    }
}

fn frame_text(sp: char) -> (r: String)
    ensures
        r@ == seq![sp, ' '],
{
    let mut r = String::new();
    push_char(&mut r, sp);
    push_char(&mut r, ' ');
    assert(r@ =~= seq![sp, ' ']);
    r
}

/// The input area for the current state (see `input_area`).
pub fn input_view(app: &App, input: &str) -> (r: InputView)
    ensures
        (r.warning_border, r.line@, r.show_cursor) == input_area(app@, input@),
{
    let sp = spin(app.spinner_frame);
    match &app.input_mode {
        InputMode::Normal => {
            let empty = input.unicode_len() == 0;
            if app.voice.listen && !app.voice_text_mode && empty && app.has_voice_bridge {
                let mut spans: Vec<StyledSpan> = Vec::new();
                spans.push(styled("  ◉ ", Tone::AccentBold));
                spans.push(styled("Enter = bicara", Tone::Accent));
                spans.push(styled("    ·    ", Tone::Muted));
                spans.push(styled("t", Tone::TextBold));
                spans.push(styled(" = ketik teks", Tone::Muted));
                let line = line_of(spans);
                assert(line@ =~= input_area(app@, input@).1);
                InputView { warning_border: false, line, show_cursor: false }
            } else if empty {
                let placeholder = if app.voice_text_mode {
                    "ketik pesan… (Esc = kembali mic)"
                } else {
                    "ketik pesan atau /help…"
                };
                let line = line2(styled("  › ", Tone::AccentBold), styled(placeholder, Tone::MutedItalic));
                InputView { warning_border: false, line, show_cursor: true }
            } else {
                let line = line2(styled("  › ", Tone::AccentBold), styled(input, Tone::Text));
                InputView { warning_border: false, line, show_cursor: true }
            }
        },
        InputMode::Listening => {
            let f = frame_text(sp);
            let line = line3(
                styled("  ", Tone::Plain),
                styled(f.as_str(), Tone::AccentBold),
                styled("mendengarkan suara Anda…", Tone::AccentItalic),
            );
            InputView { warning_border: false, line, show_cursor: false }
        },
        InputMode::Processing => {
            let f = frame_text(sp);
            let msg = if app.spinner_msg.unicode_len() == 0 {
                "memikirkan…"
            } else {
                app.spinner_msg.as_str()
            };
            let line = line3(styled("  ", Tone::Plain), styled(f.as_str(), Tone::Muted), styled(msg, Tone::MutedItalic));
            InputView { warning_border: false, line, show_cursor: false }
        },
        InputMode::Confirming(prompt) => {
            let line = line3(
                styled("  ⚠  ", Tone::WarningBold),
                styled(prompt.as_str(), Tone::Text),
                styled("  [y/N] ", Tone::WarningBold),
            );
            InputView { warning_border: true, line, show_cursor: false }
        },
        InputMode::Menu => {
            let mut spans: Vec<StyledSpan> = Vec::new();
            spans.push(styled("  ↑/↓ pilih  ·  Enter konfirmasi  ·  q batal", Tone::MutedItalic));
            let line = line_of(spans);
            assert(line@ =~= input_area(app@, input@).1);
            InputView { warning_border: false, line, show_cursor: false }
        },
    }
}

// ---------------------------------------------------------------------------
// The menu pop-up
// ---------------------------------------------------------------------------

/// A rectangle of terminal cells.
#[derive(Clone, Copy, Debug, PartialEq, Eq, Structural)]
pub struct Area {
    pub x: u16,
    pub y: u16,
    pub width: u16,
    pub height: u16,
}

/// What `ratatui::layout::Rect::new` builds: the given corner, with the width and height
/// cut so that the rectangle ends by `u16::MAX`.
pub open spec fn rect_new_spec(x: u16, y: u16, width: u16, height: u16) -> Area {
    Area {
        x: x,
        y: y,
        width: if width > u16::MAX - x { (u16::MAX - x) as u16 } else { width },
        height: if height > u16::MAX - y { (u16::MAX - y) as u16 } else { height },
    }
}

/// Calls `ratatui::layout::Rect::new`. Claimed, as its source shows: the corner is kept
/// and the width and height are cut to `u16::MAX - x` and `u16::MAX - y`.
#[verifier::external_body]
fn rect_new(x: u16, y: u16, width: u16, height: u16) -> (r: Area)
    ensures
        r == rect_new_spec(x, y, width, height),
{
    let r = ratatui::layout::Rect::new(x, y, width, height);
    Area { x: r.x, y: r.y, width: r.width, height: r.height }
}

/// What `ratatui::widgets::Block::inner` leaves of `area` for a block with only a top
/// border: the row under the border (kept inside the area), one row less.
pub open spec fn below_top_border(area: Area) -> Area {
    let y1: u16 = if area.y == u16::MAX { u16::MAX } else { (area.y + 1) as u16 };
    let bottom: u16 = if area.y + area.height > u16::MAX { u16::MAX } else { (area.y + area.height) as u16 };
    Area {
        x: area.x,
        y: if y1 <= bottom { y1 } else { bottom },
        width: area.width,
        height: if area.height >= 1 { (area.height - 1) as u16 } else { 0 },
    }
}

/// Calls `ratatui::widgets::Block::inner` for a block with a top border only. Claimed, as
/// its source shows: the row under the border becomes the first row (no further than the
/// area's bottom), the height shrinks by one (stopping at 0), the columns stay.
#[verifier::external_body]
fn inner_below_top_border(area: Area) -> (r: Area)
    ensures
        r == below_top_border(area),
{
    let block = ratatui::widgets::Block::default().borders(ratatui::widgets::Borders::TOP);
    let r = block.inner(ratatui::layout::Rect { x: area.x, y: area.y, width: area.width, height: area.height });
    Area { x: r.x, y: r.y, width: r.width, height: r.height }
}

/// Where the text cursor of the input line goes in the input `area`, when `input_view`
/// shows one: after the four-column prompt and `visual_cursor` columns of text (counted
/// in 16 bits), on the row under the border. None when the column passes `u16::MAX`
/// (where it cannot be placed).
pub fn input_cursor(area: Area, visual_cursor: usize) -> (r: Option<(u16, u16)>)
    ensures
        match r {
            Some((x, y)) => {
                &&& area.x + 4 + visual_cursor % 65536 <= u16::MAX
                &&& x == area.x + 4 + visual_cursor % 65536
                &&& y == below_top_border(area).y
            },
            None => area.x + 4 + visual_cursor % 65536 > u16::MAX,
        },
{
    let col = (visual_cursor % 65536) as u16;
    if area.x > u16::MAX - 4 || col > u16::MAX - 4 - area.x {
        return None;
    }
    let inner = inner_below_top_border(area);
    Some((area.x + 4 + col, inner.y))
}

/// A `width` by `height` rectangle centred in `area` (cut to `area`'s size).
pub open spec fn centered(width: u16, height: u16, area: Area) -> Area {
    rect_new_spec(
        (area.x + (if area.width >= width { (area.width - width) as int } else { 0 }) / 2) as u16,
        (area.y + (if area.height >= height { (area.height - height) as int } else { 0 }) / 2) as u16,
        if width <= area.width { width } else { area.width },
        if height <= area.height { height } else { area.height },
    )
}

/// A `width` by `height` rectangle centred in `area`.
pub fn centered_rect(width: u16, height: u16, area: Area) -> (r: Area)
    requires
        area.x + (if area.width >= width { (area.width - width) as int } else { 0 }) / 2 <= u16::MAX,
        area.y + (if area.height >= height { (area.height - height) as int } else { 0 }) / 2 <= u16::MAX,
    ensures
        r == centered(width, height, area),
{
    let x = area.x + area.width.saturating_sub(width) / 2;
    let y = area.y + area.height.saturating_sub(height) / 2;
    rect_new(
        x,
        y,
        if width <= area.width {
            width
        } else {
            area.width
        },
        if height <= area.height {
            height
        } else {
            area.height
        },
    )
}

/// The longest entry's length, or 10 for a menu without entries.
pub open spec fn widest(items: Seq<Seq<char>>) -> nat
    decreases items.len(),
{
    if items.len() == 0 {
        10
    } else if items.len() == 1 {
        items[0].len()
    } else {
        let w = widest(items.drop_last());
        if items.last().len() > w { items.last().len() } else { w }
    }
}

/// The pop-up's content width: the widest entry, the title, and at least 28 columns (entry
/// and title lengths are counted in 16 bits).
pub open spec fn popup_content_width(m: MenuView) -> nat {
    let a = widest(m.items) % 65536;
    let b = m.title.len() % 65536;
    let ab = if a >= b { a } else { b };
    if ab >= 28 { ab } else { 28 }
}

/// Where the menu pop-up goes in `area`: its content plus six columns and its entries
/// plus four rows, cut to `area`, centred.
pub open spec fn popup_area(m: MenuView, area: Area) -> Area {
    let w = popup_content_width(m) + 6;
    let h = (m.items.len() % 65536) + 4;
    centered(
        (if w <= area.width { w } else { area.width as nat }) as u16,
        (if h <= area.height { h } else { area.height as nat }) as u16,
        area,
    )
}

/// The pop-up's lines: each entry, the highlighted one marked; a blank line; the keys.
pub open spec fn popup_lines(m: MenuView) -> Seq<LineView> {
    Seq::new(
        m.items.len(),
        |i: int|
            if i == m.selected {
                seq![(" ❯ "@, Tone::MenuSelectedMarker), (m.items[i], Tone::MenuSelected)]
            } else {
                seq![("   "@, Tone::Plain), (m.items[i], Tone::MenuItem)]
            },
    ) + seq![blank_line(), seq![(" ↑/↓ pilih  ·  Enter ok  ·  q batal"@, Tone::MenuHint)]]
}

/// The pop-up's title.
pub open spec fn popup_title(m: MenuView) -> LineView {
    seq![(" "@, Tone::Plain), (m.title, Tone::MenuTitle), (" "@, Tone::Plain)]
}

/// The menu pop-up: where it goes, its title and its lines.
pub struct PopupView {
    pub area: Area,
    pub title: ChatLine,
    pub lines: Vec<ChatLine>,
}

/// The pop-up can be placed without its sizes passing `u16::MAX`.
pub open spec fn popup_in_range(m: MenuView, area: Area) -> bool {
    let w = popup_content_width(m) + 6;
    let h = (m.items.len() % 65536) + 4;
    let pw: int = if w <= area.width { w as int } else { area.width as int };
    let ph: int = if h <= area.height { h as int } else { area.height as int };
    &&& w <= u16::MAX
    &&& h <= u16::MAX
    &&& area.x + (area.width - pw) / 2 <= u16::MAX
    &&& area.y + (area.height - ph) / 2 <= u16::MAX
}

/// The longest entry's length in characters, or 10 for a menu without entries.
fn widest_entry(menu: &MenuState) -> (w: usize)
    ensures
        w == widest(menu@.items),
{
    let ghost m = menu@;
    let n = menu.items.len();
    let mut widest_len: usize = 10;
    let mut i: usize = 0;
    while i < n
        invariant
            n == menu.items.len(),
            m == menu@,
            i <= n,
            i == 0 ==> widest_len == 10,
            i > 0 ==> widest_len == widest(m.items.take(i as int)),
        decreases n - i,
    {
        let len = menu.items[i].unicode_len();
        proof {
            assert(m.items[i as int] == menu.items@[i as int]@);
            assert(m.items.take(i + 1).drop_last() =~= m.items.take(i as int));
            if i == 0 {
                assert(m.items.take(1)[0] == m.items[0]);
            }
        }
        if i == 0 || len > widest_len {
            widest_len = len;
        }
        i = i + 1;
    }
    assert(n > 0 ==> m.items.take(n as int) =~= m.items);
    widest_len
}

/// Whether the pop-up for `menu` can be placed in `area` (see `popup_in_range`); where
/// it cannot, drawing the menu overflows a 16-bit size.
pub fn popup_fits(menu: &MenuState, area: Area) -> (r: bool)
    ensures
        r == popup_in_range(menu@, area),
{
    let item_w: u16 = (widest_entry(menu) % 65536) as u16;
    let title_w: u16 = (menu.title.unicode_len() % 65536) as u16;
    let ab = if item_w >= title_w {
        item_w
    } else {
        title_w
    };
    let content_w: u16 = if ab >= 28 {
        ab
    } else {
        28
    };
    let n = menu.items.len();
    if content_w > u16::MAX - 6 || ((n % 65536) as u16) > u16::MAX - 4 {
        return false;
    }
    let w = content_w + 6;
    let h = ((n % 65536) as u16) + 4;
    let pw = if w <= area.width {
        w
    } else {
        area.width
    };
    let ph = if h <= area.height {
        h
    } else {
        area.height
    };
    (area.width - pw) / 2 <= u16::MAX - area.x && (area.height - ph) / 2 <= u16::MAX - area.y
}

/// The menu pop-up for `menu` in `area` (see `popup_area`, `popup_title`, `popup_lines`).
pub fn menu_popup(menu: &MenuState, area: Area) -> (r: PopupView)
    requires
        popup_in_range(menu@, area),
    ensures
        r.area == popup_area(menu@, area),
        r.title@ == popup_title(menu@),
        lines_view(r.lines@) == popup_lines(menu@),
{
    let ghost m = menu@;
    let n = menu.items.len();
    let widest_len = widest_entry(menu);
    let item_w: u16 = (widest_len % 65536) as u16;
    let title_w: u16 = (menu.title.unicode_len() % 65536) as u16;
    let ab = if item_w >= title_w {
        item_w
    } else {
        title_w
    };
    let content_w = if ab >= 28 {
        ab
    } else {
        28
    };
    let w = content_w + 6;
    let popup_w = if w <= area.width {
        w
    } else {
        area.width
    };
    let h = ((n % 65536) as u16) + 4;
    let popup_h = if h <= area.height {
        h
    } else {
        area.height
    };
    let placed = centered_rect(popup_w, popup_h, area);
    let title = line3(styled(" ", Tone::Plain), styled(menu.title.as_str(), Tone::MenuTitle), styled(" ", Tone::Plain));
    let mut lines: Vec<ChatLine> = Vec::new();
    let ghost rows = Seq::new(
        m.items.len(),
        |i: int|
            if i == m.selected {
                seq![(" ❯ "@, Tone::MenuSelectedMarker), (m.items[i], Tone::MenuSelected)]
            } else {
                seq![("   "@, Tone::Plain), (m.items[i], Tone::MenuItem)]
            },
    );
    let mut j: usize = 0;
    while j < n
        invariant
            n == menu.items.len(),
            m == menu@,
            j <= n,
            rows.len() == n,
            rows == Seq::new(
                m.items.len(),
                |i: int|
                    if i == m.selected {
                        seq![(" ❯ "@, Tone::MenuSelectedMarker), (m.items[i], Tone::MenuSelected)]
                    } else {
                        seq![("   "@, Tone::Plain), (m.items[i], Tone::MenuItem)]
                    },
            ),
            lines_view(lines@) == rows.take(j as int),
        decreases n - j,
    {
        let l = if j == menu.selected {
            line2(styled(" ❯ ", Tone::MenuSelectedMarker), styled(menu.items[j].as_str(), Tone::MenuSelected))
        } else {
            line2(styled("   ", Tone::Plain), styled(menu.items[j].as_str(), Tone::MenuItem))
        };
        push_line(&mut lines, l);
        proof {
            assert(m.items[j as int] == menu.items@[j as int]@);
            assert(rows.take(j + 1) =~= rows.take(j as int).push(rows[j as int]));
        }
        j = j + 1;
    }
    assert(rows.take(n as int) =~= rows);
    push_line(&mut lines, blank());
    let mut hint: Vec<StyledSpan> = Vec::new();
    hint.push(styled(" ↑/↓ pilih  ·  Enter ok  ·  q batal", Tone::MenuHint));
    let hint_line = line_of(hint);
    assert(hint_line@ =~= seq![(" ↑/↓ pilih  ·  Enter ok  ·  q batal"@, Tone::MenuHint)]);
    push_line(&mut lines, hint_line);
    assert(lines_view(lines@) =~= popup_lines(m));
    PopupView { area: placed, title, lines }
}

/// Law: a centred rectangle lies inside the area it is centred in, whenever the area
/// itself ends by `u16::MAX`.
pub proof fn law_centered_inside(width: u16, height: u16, area: Area)
    requires
        area.x + area.width <= u16::MAX,
        area.y + area.height <= u16::MAX,
    ensures
        area.x <= centered(width, height, area).x,
        centered(width, height, area).x + centered(width, height, area).width <= area.x + area.width,
        area.y <= centered(width, height, area).y,
        centered(width, height, area).y + centered(width, height, area).height <= area.y
            + area.height,
{
}

} // verus!
