//! Short spoken or typed phrases that switch the model or the language without a slash
//! command.
use vstd::prelude::*;
use crate::text::{
    char_is_alphanumeric, char_is_whitespace, count_words, push_char, str_eq, to_lowercase,
    trim, trim_str, is_alphanumeric, lowercase, unicode_whitespace, word_count, all_ascii,
    ascii_lower, is_ascii_char,
};

verus! {

/// The characters a phrase keeps before it is looked up: letters, digits and whitespace.
pub open spec fn kept_in_phrase(c: char) -> bool {
    is_alphanumeric(c) || unicode_whitespace(c)
}

pub open spec fn phrase_filter() -> spec_fn(char) -> bool {
    |c: char| kept_in_phrase(c)
}

/// The normalised phrase: lower-cased, punctuation and symbols removed, trimmed.
pub open spec fn phrase_key(teks: Seq<char>) -> Seq<char> {
    trim(lowercase(teks).filter(phrase_filter()))
}

/// The phrases that are recognised, and the command each stands for: the kind
/// (`model` or `lan`) and its value.
pub open spec fn phrase_table(t: Seq<char>) -> Option<(Seq<char>, Seq<char>)> {
    if t == "qwen"@ || t == "kuen"@ || t == "kwen"@ {
        Some(("model"@, "qwen"@))
    } else if t == "openai"@ || t == "open ai"@ || t == "gpt"@ || t == "chatgpt"@ {
        Some(("model"@, "openai"@))
    } else if t == "openrouter"@ || t == "open router"@ || t == "router"@ {
        Some(("model"@, "openrouter"@))
    } else if t == "deepseek"@ || t == "deep seek"@ || t == "dipsik"@ {
        Some(("model"@, "deepseek"@))
    } else if t == "english"@ || t == "bahasa inggris"@ || t == "inggris"@ {
        Some(("lan"@, "en"@))
    } else if t == "indonesia"@ || t == "bahasa indonesia"@ {
        Some(("lan"@, "id"@))
    } else {
        None
    }
}

/// The quick command a phrase stands for: none for an empty phrase or one of more than
/// three words, else what the table gives for the normalised phrase.
pub open spec fn quick_command(teks: Seq<char>) -> Option<(Seq<char>, Seq<char>)> {
    let t = phrase_key(teks);
    if t.len() == 0 || word_count(t) > 3 {
        None
    } else {
        phrase_table(t)
    }
}

pub open spec fn pair_view(p: Option<(&str, &str)>) -> Option<(Seq<char>, Seq<char>)> {
    match p {
        Some((a, b)) => Some((a@, b@)),
        None => None,
    }
}

fn keep_phrase_chars(s: &str) -> (r: String)
    ensures
        r@ == s@.filter(phrase_filter()),
{
    let mut r = String::new();
    for c in it: s.chars()
        invariant
            it.seq() == s@,
            r@ == s@.take(it.index() as int).filter(phrase_filter()),
    {
        proof {
            assert(s@.take(it.index() + 1) =~= s@.take(it.index() as int).push(c));
            s@.take(it.index() as int).lemma_filter_push(c, phrase_filter());
        }
        if char_is_alphanumeric(c) || char_is_whitespace(c) {
            push_char(&mut r, c);
        }
    }
    assert(s@.take(s@.len() as int) =~= s@);
    r
}

fn lookup_phrase(t: &str) -> (r: Option<(&'static str, &'static str)>)
    ensures
        pair_view(r) == phrase_table(t@),
{
    if str_eq(t, "qwen") || str_eq(t, "kuen") || str_eq(t, "kwen") {
        Some(("model", "qwen"))
    } else if str_eq(t, "openai") || str_eq(t, "open ai") || str_eq(t, "gpt") || str_eq(
        t,
        "chatgpt",
    ) {
        Some(("model", "openai"))
    } else if str_eq(t, "openrouter") || str_eq(t, "open router") || str_eq(t, "router") {
        Some(("model", "openrouter"))
    } else if str_eq(t, "deepseek") || str_eq(t, "deep seek") || str_eq(t, "dipsik") {
        Some(("model", "deepseek"))
    } else if str_eq(t, "english") || str_eq(t, "bahasa inggris") || str_eq(t, "inggris") {
        Some(("lan", "en"))
    } else if str_eq(t, "indonesia") || str_eq(t, "bahasa indonesia") {
        Some(("lan", "id"))
    } else {
        None
    }
}

/// Recognises a short phrase that names a model or a language ("gpt", "bahasa inggris"),
/// ignoring case, punctuation and surrounding whitespace. Returns the command kind
/// (`model` or `lan`) and its value.
pub fn detect_quick_command(teks: &str) -> (r: Option<(&'static str, &'static str)>)
    ensures
        pair_view(r) == quick_command(teks@),
{
    let lower = to_lowercase(teks);
    let kept = keep_phrase_chars(lower.as_str());
    let t = trim_str(kept.as_str());
    if t.unicode_len() == 0 || count_words(t.as_str()) > 3 {
        return None;
    }
    lookup_phrase(t.as_str())
}

/// ASCII text with its letters made small and everything but letters, digits and
/// whitespace left out.
pub open spec fn ascii_canon(s: Seq<char>) -> Seq<char> {
    s.map_values(|c: char| ascii_lower(c)).filter(phrase_filter())
}

proof fn lemma_ascii_phrase_key(s: Seq<char>)
    requires
        all_ascii(s),
    ensures
        phrase_key(s) == trim(ascii_canon(s)),
{
}

/// Law: for ASCII text, letter case does not matter: changing the case of any of its
/// letters leaves the command it stands for unchanged.
pub proof fn law_quick_command_ignores_case(a: Seq<char>, b: Seq<char>)
    requires
        all_ascii(a),
        a.len() == b.len(),
        forall|i: int| 0 <= i < a.len() ==> ascii_lower(#[trigger] a[i]) == ascii_lower(b[i]),
    ensures
        quick_command(a) == quick_command(b),
{
    assert forall|i: int| 0 <= i < b.len() implies is_ascii_char(#[trigger] b[i]) by {
        assert(ascii_lower(a[i]) == ascii_lower(b[i]));
        assert(is_ascii_char(a[i]));
        if !('A' <= b[i] && b[i] <= 'Z') && 'A' <= a[i] && a[i] <= 'Z' {
            assert(((a[i] as u32) + 32) as char == b[i]);
            assert((b[i] as u32) < 128);
        }
    }
    assert(a.map_values(|c: char| ascii_lower(c)) =~= b.map_values(|c: char| ascii_lower(c)));
    lemma_ascii_phrase_key(a);
    lemma_ascii_phrase_key(b);
}

/// Law: for ASCII text, punctuation does not matter: putting in (or, read the other way,
/// taking out) an ASCII character that is neither a letter, a digit nor whitespace leaves
/// the command it stands for unchanged.
pub proof fn law_quick_command_ignores_punctuation(a: Seq<char>, i: int, p: char)
    requires
        all_ascii(a),
        0 <= i <= a.len(),
        is_ascii_char(p),
        !is_alphanumeric(p),
        !unicode_whitespace(p),
    ensures
        quick_command(a.take(i) + seq![p] + a.skip(i)) == quick_command(a),
{
    let x = a.take(i);
    let y = a.skip(i);
    let b = x + seq![p] + y;
    let f = |c: char| ascii_lower(c);
    assert(all_ascii(b)) by {
        assert forall|k: int| 0 <= k < b.len() implies is_ascii_char(#[trigger] b[k]) by {
            if k < i {
                assert(b[k] == a[k]);
            } else if k > i {
                assert(b[k] == a[k - 1]);
            }
        }
    }
    assert(ascii_lower(p) == p);
    assert(a =~= x + y);
    assert(b.map_values(f) =~= x.map_values(f) + seq![p] + y.map_values(f));
    assert(a.map_values(f) =~= x.map_values(f) + y.map_values(f));
    Seq::filter_distributes_over_add(x.map_values(f) + seq![p], y.map_values(f), phrase_filter());
    Seq::filter_distributes_over_add(x.map_values(f), seq![p], phrase_filter());
    Seq::filter_distributes_over_add(x.map_values(f), y.map_values(f), phrase_filter());
    reveal_with_fuel(Seq::filter, 2);
    assert(seq![p].filter(phrase_filter()) =~= Seq::<char>::empty()) by {
        assert(seq![p].drop_last() =~= Seq::<char>::empty());
    }
    assert(ascii_canon(b) =~= ascii_canon(a));
    lemma_ascii_phrase_key(a);
    lemma_ascii_phrase_key(b);
}

/// Law: every phrase of the table is recognised with its command, whatever text it
/// was written in (case, punctuation and surrounding spaces set aside): `qwen`, `kuen`,
/// `kwen` choose Qwen; `openai`, `open ai`, `gpt`, `chatgpt` choose OpenAI; `openrouter`,
/// `open router`, `router` choose OpenRouter; `deepseek`, `deep seek`, `dipsik` choose
/// DeepSeek; `english`, `bahasa inggris`, `inggris` choose English; `indonesia`,
/// `bahasa indonesia` choose Indonesian.
#[verifier::rlimit(100)]
pub proof fn law_quick_phrases_recognised(teks: Seq<char>)
    ensures
        (phrase_key(teks) == "qwen"@ || phrase_key(teks) == "kuen"@ || phrase_key(teks) == "kwen"@)
            ==> quick_command(teks) == Some(("model"@, "qwen"@)),
        (phrase_key(teks) == "openai"@ || phrase_key(teks) == "open ai"@ || phrase_key(teks) == "gpt"@
            || phrase_key(teks) == "chatgpt"@) ==> quick_command(teks) == Some(("model"@, "openai"@)),
        (phrase_key(teks) == "openrouter"@ || phrase_key(teks) == "open router"@ || phrase_key(teks)
            == "router"@) ==> quick_command(teks) == Some(("model"@, "openrouter"@)),
        (phrase_key(teks) == "deepseek"@ || phrase_key(teks) == "deep seek"@ || phrase_key(teks)
            == "dipsik"@) ==> quick_command(teks) == Some(("model"@, "deepseek"@)),
        (phrase_key(teks) == "english"@ || phrase_key(teks) == "bahasa inggris"@ || phrase_key(teks)
            == "inggris"@) ==> quick_command(teks) == Some(("lan"@, "en"@)),
        (phrase_key(teks) == "indonesia"@ || phrase_key(teks) == "bahasa indonesia"@) ==> quick_command(
            teks,
        ) == Some(("lan"@, "id"@)),
{
    let t = phrase_key(teks);
    reveal_strlit("qwen");
    reveal_strlit("kuen");
    reveal_strlit("kwen");
    reveal_strlit("openai");
    reveal_strlit("open ai");
    reveal_strlit("gpt");
    reveal_strlit("chatgpt");
    reveal_strlit("openrouter");
    reveal_strlit("open router");
    reveal_strlit("router");
    reveal_strlit("deepseek");
    reveal_strlit("deep seek");
    reveal_strlit("dipsik");
    reveal_strlit("english");
    reveal_strlit("bahasa inggris");
    reveal_strlit("inggris");
    reveal_strlit("indonesia");
    reveal_strlit("bahasa indonesia");
    reveal_with_fuel(crate::text::words_before, 17);
}

/// Law: a recognised phrase is non-empty and has at most three words, and its command is
/// either a model switch or a language switch.
pub proof fn law_quick_command_shape(teks: Seq<char>)
    ensures
        quick_command(teks) matches Some((kind, _)) ==> {
            &&& phrase_key(teks).len() > 0
            &&& word_count(phrase_key(teks)) <= 3
            &&& (kind == "model"@ || kind == "lan"@)
        },
{
}

} // verus!
