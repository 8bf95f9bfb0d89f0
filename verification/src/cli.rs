//! Start-up decisions: the command line, the provider to begin with, and how the session
//! reports whether speech is available.
use vstd::prelude::*;
use crate::agent::find_code;
use crate::app::{push_bubble, App, AppView};
use crate::model::{providers_view, BubbleRole, Provider, VoiceView};
use crate::text::{str_eq, to_uppercase, uppercase};

verus! {

/// What the command line asks for.
#[derive(Clone, Debug)]
pub struct CliOptions {
    /// `--version` or `-v` came first: print the version and stop.
    pub show_version: bool,
    /// Take spoken input.
    pub listen: bool,
    /// Speak the answers.
    pub speak: bool,
    /// The language, `id` unless `--lang` says otherwise.
    pub lang: String,
    /// A first message given with `-t` or `--text`.
    pub initial_text: Option<String>,
}

pub struct CliView {
    pub show_version: bool,
    pub listen: bool,
    pub speak: bool,
    pub lang: Seq<char>,
    pub initial_text: Option<Seq<char>>,
}

impl View for CliOptions {
    type V = CliView;

    open spec fn view(&self) -> CliView {
        CliView {
            show_version: self.show_version,
            listen: self.listen,
            speak: self.speak,
            lang: self.lang@,
            initial_text: crate::model::opt_string_view(self.initial_text),
        }
    }
}

/// The options after reading the arguments from position `i` on, starting from `o`:
/// `--no-voice`/`--text-only` turn speech off, `--voice` on, `--listen` and
/// `--speak`/`--say` turn one side on; `--lang` and `-t`/`--text` take the next argument
/// when there is one; anything else is skipped.
pub open spec fn parsed_from(args: Seq<Seq<char>>, i: int, o: CliView) -> CliView
    decreases args.len() - i,
{
    if i < 0 || i >= args.len() {
        o
    } else {
        let a = args[i];
        if a == "--no-voice"@ || a == "--text-only"@ {
            parsed_from(args, i + 1, CliView { listen: false, speak: false, ..o })
        } else if a == "--voice"@ {
            parsed_from(args, i + 1, CliView { listen: true, speak: true, ..o })
        } else if a == "--listen"@ {
            parsed_from(args, i + 1, CliView { listen: true, ..o })
        } else if a == "--speak"@ || a == "--say"@ {
            parsed_from(args, i + 1, CliView { speak: true, ..o })
        } else if a == "--lang"@ && i + 1 < args.len() {
            parsed_from(args, i + 2, CliView { lang: args[i + 1], ..o })
        } else if (a == "-t"@ || a == "--text"@) && i + 1 < args.len() {
            parsed_from(args, i + 2, CliView { initial_text: Some(args[i + 1]), ..o })
        } else {
            parsed_from(args, i + 1, o)
        }
    }
}

/// The options of a command line (`args[0]` is the program): speech on and Indonesian by
/// default, then the flags in order.
pub open spec fn parsed_args(args: Seq<Seq<char>>) -> CliView {
    let start = CliView {
        show_version: args.len() > 1 && (args[1] == "--version"@ || args[1] == "-v"@),
        listen: true,
        speak: true,
        lang: "id"@,
        initial_text: None,
    };
    parsed_from(args, 1, start)
}

/// Reads the command line (see `parsed_args`).
pub fn parse_args(args: &Vec<String>) -> (r: CliOptions)
    ensures
        r@ == parsed_args(args@.map_values(|s: String| s@)),
{
    let ghost av = args@.map_values(|s: String| s@);
    let show_version = args.len() > 1 && (str_eq(args[1].as_str(), "--version") || str_eq(
        args[1].as_str(),
        "-v",
    ));
    proof {
        if args.len() > 1 {
            assert(av[1] == args@[1]@);
        }
    }
    let mut o = CliOptions {
        show_version,
        listen: true,
        speak: true,
        lang: "id".to_owned(),
        initial_text: None,
    };
    let mut i: usize = 1;
    while i < args.len()
        invariant
            1 <= i,
            av == args@.map_values(|s: String| s@),
            parsed_from(av, i as int, o@) == parsed_args(av),
        decreases args.len() - i,
    {
        let a = args[i].as_str();
        assert(av[i as int] == args@[i as int]@);
        if str_eq(a, "--no-voice") || str_eq(a, "--text-only") {
            o.listen = false;
            o.speak = false;
        } else if str_eq(a, "--voice") {
            o.listen = true;
            o.speak = true;
        } else if str_eq(a, "--listen") {
            o.listen = true;
        } else if str_eq(a, "--speak") || str_eq(a, "--say") {
            o.speak = true;
        } else if str_eq(a, "--lang") && i + 1 < args.len() {
            assert(av[i + 1] == args@[i + 1]@);
            o.lang = args[i + 1].clone();
            i = i + 1;
        } else if (str_eq(a, "-t") || str_eq(a, "--text")) && i + 1 < args.len() {
            assert(av[i + 1] == args@[i + 1]@);
            o.initial_text = Some(args[i + 1].clone());
            i = i + 1;
        }
        i = i + 1;
    }
    o
}

/// The provider to start with: the one with code `code`, else the first.
pub open spec fn initial_provider(ps: Seq<crate::model::ProviderView>, code: Seq<char>) -> int {
    match find_code(ps, code, 0) {
        Some(i) => i,
        None => 0,
    }
}

/// The index of the provider to start with (see `initial_provider`).
pub fn initial_provider_index(providers: &Vec<Provider>, code: &str) -> (r: usize)
    requires
        providers.len() > 0,
    ensures
        r == initial_provider(providers_view(providers@), code@),
        r < providers.len(),
{
    proof {
        crate::agent::lemma_find_code(providers_view(providers@), code@, 0);
    }
    match crate::agent::provider_by_code(providers, code) {
        Some(i) => i,
        None => 0,
    }
}

pub open spec fn sidecar_missing_text() -> Seq<char> {
    "⌨  Sidecar suara tidak tersedia — lanjut mode teks.\n·  Jalankan dulu: python3 -m voca.voice_server"@
}

pub open spec fn sidecar_ready_text() -> Seq<char> {
    "◉ Sidecar suara siap. Tekan Enter kosong untuk mulai bicara."@
}

/// After start-up: when speech was asked for but the sidecar is not running, say so and
/// turn speech off; when it runs, say it is ready.
pub open spec fn voice_status_announced(v: AppView) -> AppView {
    if !v.has_voice_bridge && (v.voice.listen || v.voice.speak) {
        let v1 = push_bubble(v, BubbleRole::System, sidecar_missing_text());
        AppView { voice: VoiceView { listen: false, speak: false, ..v1.voice }, ..v1 }
    } else if v.has_voice_bridge {
        push_bubble(v, BubbleRole::System, sidecar_ready_text())
    } else {
        v
    }
}

/// Reports whether speech is available (see `voice_status_announced`).
pub fn announce_voice_status(app: &mut App)
    ensures
        final(app)@ == voice_status_announced(old(app)@),
{
    if !app.has_voice_bridge && (app.voice.listen || app.voice.speak) {
        app.push_system(
            "⌨  Sidecar suara tidak tersedia — lanjut mode teks.\n·  Jalankan dulu: python3 -m voca.voice_server",
        );
        app.voice.listen = false;
        app.voice.speak = false;
    } else if app.has_voice_bridge {
        app.push_system("◉ Sidecar suara siap. Tekan Enter kosong untuk mulai bicara.");
    }
}

/// The environment variable that holds a provider's key: `DASHSCOPE_API_KEY` for `qwen`,
/// otherwise the code in capitals followed by `_API_KEY`.
pub open spec fn key_var_name(code: Seq<char>) -> Seq<char> {
    if code == "qwen"@ {
        "DASHSCOPE_API_KEY"@
    } else {
        uppercase(code) + "_API_KEY"@
    }
}

/// The environment variable that holds the key of the provider `code` (see
/// `key_var_name`).
pub fn key_var(code: &str) -> (r: String)
    ensures
        r@ == key_var_name(code@),
{
    if str_eq(code, "qwen") {
        return "DASHSCOPE_API_KEY".to_owned();
    }
    let mut r = to_uppercase(code);
    r.append("_API_KEY");
    r
}

/// Law: speech is never left on without a sidecar: after the announcement, listening or
/// speaking is on only when the sidecar runs.
pub proof fn law_no_voice_without_sidecar(v: AppView)
    ensures
        (voice_status_announced(v).voice.listen || voice_status_announced(v).voice.speak)
            ==> voice_status_announced(v).has_voice_bridge,
{
}

} // verus!
