//! Bounding the conversation that is sent to the language model.
use vstd::prelude::*;
use crate::model::{messages_view, Message, MessageView};
use crate::text::str_eq;

verus! {

/// The first index at or after `from` that holds a user message, or the length of `ms`
/// when there is none.
pub open spec fn next_user(ms: Seq<MessageView>, from: int) -> int
    decreases ms.len() - from,
{
    if from >= ms.len() {
        ms.len() as int
    } else if ms[from].role == "user"@ {
        from
    } else {
        next_user(ms, from + 1)
    }
}

/// Where the kept part of the history starts: nothing is dropped while at most `max`
/// messages follow the system prompt; otherwise the oldest messages are dropped until at
/// most `max` remain and the kept part starts with a user message.
pub open spec fn kept_from(ms: Seq<MessageView>, max: nat) -> int {
    if ms.len() <= max + 1 {
        1
    } else {
        next_user(ms, ms.len() - max)
    }
}

/// The history after trimming: the system prompt at index 0 and the kept tail.
pub open spec fn trimmed_history(ms: Seq<MessageView>, max: nat) -> Seq<MessageView> {
    if ms.len() == 0 {
        ms
    } else {
        ms.take(1) + ms.skip(kept_from(ms, max))
    }
}

pub proof fn lemma_next_user_range(ms: Seq<MessageView>, from: int)
    requires
        0 <= from,
    ensures
        from <= next_user(ms, from) || (from > ms.len() && next_user(ms, from) == ms.len()),
        next_user(ms, from) <= ms.len() || from > ms.len(),
        next_user(ms, from) < ms.len() ==> ms[next_user(ms, from)].role == "user"@,
        forall|j: int| from <= j < next_user(ms, from) ==> #[trigger] ms[j].role != "user"@,
    decreases ms.len() - from,
{
    if from < ms.len() && ms[from].role != "user"@ {
        lemma_next_user_range(ms, from + 1);
    }
}

proof fn lemma_next_user_is(ms: Seq<MessageView>, from: int, k: int)
    requires
        0 <= from <= k <= ms.len(),
        forall|j: int| from <= j < k ==> #[trigger] ms[j].role != "user"@,
        k == ms.len() || ms[k].role == "user"@,
    ensures
        next_user(ms, from) == k,
    decreases k - from,
{
    if from < k {
        lemma_next_user_is(ms, from + 1, k);
    }
}

/// Drops the oldest messages after the system prompt (`messages[0]`, which is always kept)
/// until at most `max` follow it, and then drops messages until the one after the system
/// prompt is a user message.
pub fn trim_history(messages: &mut Vec<Message>, max: usize)
    ensures
        messages_view(final(messages)@) == trimmed_history(messages_view(old(messages)@), max as nat),
        old(messages)@.len() > 0 ==> final(messages)@ == old(messages)@.take(1) + old(
            messages,
        )@.skip(kept_from(messages_view(old(messages)@), max as nat)),
{
    let ghost orig = messages@;
    let ghost ms = messages_view(orig);
    let ghost n = orig.len() as int;
    let ghost from = n - max;
    let ghost mut k: int = 1;
    let ghost mut ran = false;
    if messages.len() == 0 {
        return ;
    }
    assert(orig.take(1) + orig.skip(1) =~= orig);
    while messages.len().saturating_sub(1) > max
        invariant
            n == orig.len() >= 1,
            ms == messages_view(orig),
            from == n - max,
            1 <= k <= n,
            messages@ == orig.take(1) + orig.skip(k),
            ran ==> k == n || ms[k].role == "user"@,
            !ran ==> k == 1,
            ran ==> from >= 2,
            forall|j: int| from <= j < k && 1 <= j ==> #[trigger] ms[j].role != "user"@,
        decreases messages@.len(),
    {
        proof {
            assert(messages@.len() == 1 + n - k);
            assert(k < from);
        }
        let ghost before = messages@;
        messages.remove(1);
        proof {
            assert(messages@ =~= orig.take(1) + orig.skip(k + 1));
            k = k + 1;
            ran = true;
        }
        let ghost k1 = k;
        while messages.len() > 1 && !str_eq(messages[1].role.as_str(), "user")
            invariant
                n == orig.len() >= 1,
                ms == messages_view(orig),
                from == n - max,
                2 <= k <= n,
                k1 <= k,
                1 <= from <= n,
                messages@ == orig.take(1) + orig.skip(k),
                forall|j: int| from <= j < k && 1 <= j ==> #[trigger] ms[j].role != "user"@,
            decreases messages@.len(),
        {
            proof {
                assert(messages@[1] == orig[k]);
                assert(ms[k].role == orig[k].role@);
            }
            messages.remove(1);
            proof {
                assert(messages@ =~= orig.take(1) + orig.skip(k + 1));
                k = k + 1;
            }
        }
        proof {
            if k < n {
                assert(messages@[1] == orig[k]);
                assert(ms[k].role == orig[k].role@);
            }
        }
    }
    proof {
        assert(messages@.len() == 1 + n - k);
        if ran {
            assert(ms.len() == n);
            lemma_next_user_is(ms, from, k);
            assert(kept_from(ms, max as nat) == k);
        } else {
            assert(kept_from(ms, max as nat) == 1);
        }
        assert(messages_view(messages@) =~= ms.take(1) + ms.skip(k));
    }
}

/// Law: trimming keeps the system prompt first, leaves at most `max` messages after it,
/// keeps a contiguous run of the newest messages, and, when it dropped anything and kept
/// something after the prompt, that run starts with a user message.
pub proof fn law_trim_history_shape(ms: Seq<MessageView>, max: nat)
    requires
        ms.len() > 0,
    ensures
        trimmed_history(ms, max).len() >= 1,
        trimmed_history(ms, max)[0] == ms[0],
        trimmed_history(ms, max).len() <= max + 1,
        ms.len() <= max + 1 ==> trimmed_history(ms, max) == ms,
        ms.len() > max + 1 && trimmed_history(ms, max).len() > 1 ==> trimmed_history(ms, max)[1].role
            == "user"@,
        exists|k: int|
            1 <= k <= ms.len() && trimmed_history(ms, max) == ms.take(1) + ms.skip(k),
{
    let k = kept_from(ms, max);
    if ms.len() > max + 1 {
        lemma_next_user_range(ms, ms.len() - max);
    } else {
        assert(ms.take(1) + ms.skip(1) =~= ms);
    }
    let t = trimmed_history(ms, max);
    assert(t == ms.take(1) + ms.skip(k));
    assert(t[0] == ms[0]);
    if ms.len() > max + 1 && t.len() > 1 {
        assert(t[1] == ms[k]);
    }
}

/// Law: trimming an already trimmed history changes nothing.
pub proof fn law_trim_history_idempotent(ms: Seq<MessageView>, max: nat)
    ensures
        trimmed_history(trimmed_history(ms, max), max) == trimmed_history(ms, max),
{
    if ms.len() > 0 {
        law_trim_history_shape(ms, max);
        let t = trimmed_history(ms, max);
        assert(t.len() <= max + 1);
        assert(t.take(1) + t.skip(1) =~= t);
    }
}

} // verus!
