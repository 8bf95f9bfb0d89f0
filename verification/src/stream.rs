//! Reading a streamed answer of the language model: which lines of the event stream carry
//! data, and how the pieces of the tool calls it announces are put together.
use vstd::prelude::*;
use crate::events::tool_calls_view;
use crate::model::{ToolCall, ToolCallView};
use crate::text::{strip_prefix, strip_prefix_spec, str_eq, trim, trim_str};

verus! {

/// What one line of the event stream says.
#[derive(Debug)]
pub enum SseLine {
    /// Not a data line (a comment, an event name, a blank line).
    Ignore,
    /// The end of the answer (`data: [DONE]`).
    Done,
    /// A data line, with its data.
    Data(String),
}

pub enum SseLineView {
    Ignore,
    Done,
    Data(Seq<char>),
}

impl View for SseLine {
    type V = SseLineView;

    open spec fn view(&self) -> SseLineView {
        match self {
            SseLine::Ignore => SseLineView::Ignore,
            SseLine::Done => SseLineView::Done,
            SseLine::Data(d) => SseLineView::Data(d@),
        }
    }
}

/// A line, trimmed, that starts with `data:` carries the rest, trimmed; `[DONE]` there
/// ends the answer; any other line is ignored.
pub open spec fn sse_line_of(line: Seq<char>) -> SseLineView {
    match strip_prefix_spec(trim(line), "data:"@) {
        Some(rest) => if trim(rest) == "[DONE]"@ {
            SseLineView::Done
        } else {
            SseLineView::Data(trim(rest))
        },
        None => SseLineView::Ignore,
    }
}

/// What a line of the event stream says (see `sse_line_of`).
pub fn classify_sse_line(line: &str) -> (r: SseLine)
    ensures
        r@ == sse_line_of(line@),
{
    let t = trim_str(line);
    match strip_prefix(t.as_str(), "data:") {
        Some(rest) => {
            let d = trim_str(rest.as_str());
            if str_eq(d.as_str(), "[DONE]") {
                SseLine::Done
            } else {
                SseLine::Data(d)
            }
        },
        None => SseLine::Ignore,
    }
}

/// A tool call with nothing known of it yet.
pub open spec fn empty_call() -> ToolCallView {
    ToolCallView { id: Seq::empty(), name: Seq::empty(), arguments: Seq::empty() }
}

/// The calls, with empty ones added until there is one at `index`.
pub open spec fn calls_up_to(calls: Seq<ToolCallView>, index: nat) -> Seq<ToolCallView> {
    if index < calls.len() {
        calls
    } else {
        calls + Seq::new((index + 1 - calls.len()) as nat, |_i: int| empty_call())
    }
}

/// A piece of text, or nothing.
pub open spec fn piece(p: Option<Seq<char>>) -> Seq<char> {
    match p {
        Some(s) => s,
        None => Seq::empty(),
    }
}

/// The calls after a piece of call `index` arrived: the call is created when it is new,
/// and each part that came is appended to what the call had.
pub open spec fn delta_merged(
    calls: Seq<ToolCallView>,
    index: nat,
    id: Option<Seq<char>>,
    name: Option<Seq<char>>,
    arguments: Option<Seq<char>>,
) -> Seq<ToolCallView> {
    let cs = calls_up_to(calls, index);
    let c = cs[index as int];
    cs.update(
        index as int,
        ToolCallView {
            id: c.id + piece(id),
            name: c.name + piece(name),
            arguments: c.arguments + piece(arguments),
        },
    )
}

pub open spec fn opt_view(s: Option<&str>) -> Option<Seq<char>> {
    match s {
        Some(t) => Some(t@),
        None => None,
    }
}

fn append_piece(s: &mut String, p: Option<&str>)
    ensures
        final(s)@ == old(s)@ + piece(opt_view(p)),
{
    match p {
        Some(t) => s.append(t),
        None => {
            assert(old(s)@ + Seq::<char>::empty() =~= old(s)@);
        },
    }
}

/// Adds a piece of the tool call number `index` to `calls` (see `delta_merged`).
pub fn merge_tool_delta(
    calls: &mut Vec<ToolCall>,
    index: usize,
    id: Option<&str>,
    name: Option<&str>,
    arguments: Option<&str>,
)
    requires
        index < usize::MAX,
    ensures
        tool_calls_view(final(calls)@) == delta_merged(
            tool_calls_view(old(calls)@),
            index as nat,
            opt_view(id),
            opt_view(name),
            opt_view(arguments),
        ),
{
    let ghost old_cs = tool_calls_view(calls@);
    let ghost target = calls_up_to(old_cs, index as nat);
    while calls.len() <= index
        invariant
            index < usize::MAX,
            old_cs.len() <= calls.len(),
            old_cs.len() <= index ==> calls.len() <= index + 1,
            old_cs.len() > index ==> calls@ == old(calls)@,
            forall|k: int| 0 <= k < calls.len() ==> #[trigger] tool_calls_view(calls@)[k] == if k < old_cs.len() {
                old_cs[k]
            } else {
                empty_call()
            },
        decreases index + 1 - calls.len(),
    {
        let c = ToolCall { id: String::new(), name: String::new(), arguments: String::new() };
        assert(c@ == empty_call());
        let ghost before = tool_calls_view(calls@);
        calls.push(c);
        assert(tool_calls_view(calls@) =~= before.push(c@));
    }
    assert(tool_calls_view(calls@) =~= target);
    let mut c = ToolCall { id: String::new(), name: String::new(), arguments: String::new() };
    std::mem::swap(&mut c, &mut calls[index]);
    append_piece(&mut c.id, id);
    append_piece(&mut c.name, name);
    append_piece(&mut c.arguments, arguments);
    calls.set(index, c);
    assert(tool_calls_view(calls@) =~= delta_merged(
        old_cs,
        index as nat,
        opt_view(id),
        opt_view(name),
        opt_view(arguments),
    ));
}

} // verus!
