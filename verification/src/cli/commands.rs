//! The command line of the runtime binary: which command the arguments
//! name, and the arguments of the `infer` command.

use vstd::prelude::*;
use crate::text::same_text;

verus! {

/// What the runtime binary is asked to do.
#[derive(Debug, Clone, PartialEq, Eq)]
pub enum CliCommand {
    /// Run the IPC server.
    Serve,
    /// Full health check.
    Health,
    /// Liveness probe.
    Liveness,
    /// Readiness probe.
    Readiness,
    /// General help, or help on one command.
    Help(Option<String>),
    /// Print the version.
    Version,
    /// Show the status, as JSON when asked.
    Status { json: bool },
    /// Run an inference.
    Infer,
    /// A command that is not implemented yet (exit code 2).
    NotImplemented(String),
    /// A subcommand that does not exist; help on the command is shown.
    UnknownSubcommand { command: String, subcommand: String },
    /// A command that does not exist.
    Unknown(String),
}

/// The text of argument `i`, if there is one.
pub open spec fn arg(args: Seq<String>, i: int) -> Option<Seq<char>> {
    if 0 <= i < args.len() {
        Some(args[i]@)
    } else {
        None
    }
}

/// The text of argument `i`, or `default` when there is none.
pub open spec fn arg_or(args: Seq<String>, i: int, default: Seq<char>) -> Seq<char> {
    match arg(args, i) {
        Some(a) => a,
        None => default,
    }
}

/// The command the arguments (the program name first) name; no command
/// means `serve`.
pub open spec fn spec_parse_command(args: Seq<String>) -> CliCommand {
    let c = arg_or(args, 1, "serve"@);
    if c == "serve"@ || c == ""@ {
        CliCommand::Serve
    } else if c == "health"@ {
        CliCommand::Health
    } else if c == "live"@ || c == "liveness"@ {
        CliCommand::Liveness
    } else if c == "ready"@ || c == "readiness"@ {
        CliCommand::Readiness
    } else if c == "help"@ || c == "--help"@ || c == "-h"@ {
        CliCommand::Help(if args.len() > 2 { Some(args[2]) } else { None })
    } else if c == "version"@ || c == "--version"@ || c == "-V"@ {
        CliCommand::Version
    } else if c == "status"@ {
        CliCommand::Status { json: arg(args, 2) == Some("--json"@) }
    } else if c == "infer"@ {
        CliCommand::Infer
    } else if c == "verify"@ {
        CliCommand::NotImplemented(args[1])
    } else if c == "models"@ {
        let sub = arg_or(args, 2, "list"@);
        if sub == "list"@ {
            CliCommand::NotImplemented(args[1])
        } else {
            CliCommand::UnknownSubcommand { command: args[1], subcommand: args[2] }
        }
    } else if c == "config"@ {
        let sub = arg_or(args, 2, "show"@);
        if sub == "show"@ || sub == "validate"@ || sub == "defaults"@ {
            CliCommand::NotImplemented(args[1])
        } else {
            CliCommand::UnknownSubcommand { command: args[1], subcommand: args[2] }
        }
    } else {
        CliCommand::Unknown(args[1])
    }
}

fn arg_is(args: &Vec<String>, i: usize, text: &str) -> (r: bool)
    ensures
        r == (arg(args@, i as int) == Some(text@)),
{
    if i < args.len() {
        same_text(args[i].as_str(), text)
    } else {
        false
    }
}

fn clone_string(s: &String) -> (r: String)
    ensures
        r@ == s@,
{
    s.clone()
}

/// `status` shows the status as JSON exactly when the argument after it is
/// `--json`, and as text otherwise (also when nothing follows).
pub proof fn lemma_status_json_flag(args: Seq<String>)
    requires
        args.len() >= 2,
        args[1]@ == "status"@,
    ensures
        spec_parse_command(args) matches CliCommand::Status { json } && (json <==> (args.len() > 2
            && args[2]@ == "--json"@)),
{
    reveal_strlit("status");
    reveal_strlit("serve");
    reveal_strlit("");
    reveal_strlit("health");
    reveal_strlit("live");
    reveal_strlit("liveness");
    reveal_strlit("ready");
    reveal_strlit("readiness");
    reveal_strlit("help");
    reveal_strlit("--help");
    reveal_strlit("-h");
    reveal_strlit("version");
    reveal_strlit("--version");
    reveal_strlit("-V");
    let st = "status"@;
    assert(st.len() == 6);
    assert(st[0] == 's' && st[1] == 't');
    assert(st != "serve"@) by { assert("serve"@.len() == 5); }
    assert(st != ""@) by { assert(""@.len() == 0); }
    assert(st != "health"@) by { assert("health"@[0] == 'h'); }
    assert(st != "live"@) by { assert("live"@.len() == 4); }
    assert(st != "liveness"@) by { assert("liveness"@.len() == 8); }
    assert(st != "ready"@) by { assert("ready"@.len() == 5); }
    assert(st != "readiness"@) by { assert("readiness"@.len() == 9); }
    assert(st != "help"@) by { assert("help"@.len() == 4); }
    assert(st != "--help"@) by { assert("--help"@[0] == '-'); }
    assert(st != "-h"@) by { assert("-h"@.len() == 2); }
    assert(st != "version"@) by { assert("version"@.len() == 7); }
    assert(st != "--version"@) by { assert("--version"@.len() == 9); }
    assert(st != "-V"@) by { assert("-V"@.len() == 2); }
}

/// The command the arguments name (see [`spec_parse_command`]); equal
/// commands mean equal texts.
pub fn parse_command(args: &Vec<String>) -> (r: CliCommand)
    ensures
        command_view(r) == command_view(spec_parse_command(args@)),
        args@.len() >= 2 && args@[1]@ == "status"@ ==> (r matches CliCommand::Status { json } && (json
            <==> (args@.len() > 2 && args@[2]@ == "--json"@))),
{
    proof {
        if args@.len() >= 2 && args@[1]@ == "status"@ {
            lemma_status_json_flag(args@);
        }
    }
    let none = args.len() < 2;
    if none || arg_is(args, 1, "serve") || arg_is(args, 1, "") {
        return CliCommand::Serve;
    }
    let c = &args[1];
    if arg_is(args, 1, "health") {
        CliCommand::Health
    } else if arg_is(args, 1, "live") || arg_is(args, 1, "liveness") {
        CliCommand::Liveness
    } else if arg_is(args, 1, "ready") || arg_is(args, 1, "readiness") {
        CliCommand::Readiness
    } else if arg_is(args, 1, "help") || arg_is(args, 1, "--help") || arg_is(args, 1, "-h") {
        if args.len() > 2 {
            CliCommand::Help(Some(clone_string(&args[2])))
        } else {
            CliCommand::Help(None)
        }
    } else if arg_is(args, 1, "version") || arg_is(args, 1, "--version") || arg_is(args, 1, "-V") {
        CliCommand::Version
    } else if arg_is(args, 1, "status") {
        CliCommand::Status { json: arg_is(args, 2, "--json") }
    } else if arg_is(args, 1, "infer") {
        CliCommand::Infer
    } else if arg_is(args, 1, "verify") {
        CliCommand::NotImplemented(clone_string(c))
    } else if arg_is(args, 1, "models") {
        if args.len() < 3 || arg_is(args, 2, "list") {
            CliCommand::NotImplemented(clone_string(c))
        } else {
            CliCommand::UnknownSubcommand {
                command: clone_string(c),
                subcommand: clone_string(&args[2]),
            }
        }
    } else if arg_is(args, 1, "config") {
        if args.len() < 3 || arg_is(args, 2, "show") || arg_is(args, 2, "validate") || arg_is(
            args,
            2,
            "defaults",
        ) {
            CliCommand::NotImplemented(clone_string(c))
        } else {
            CliCommand::UnknownSubcommand {
                command: clone_string(c),
                subcommand: clone_string(&args[2]),
            }
        }
    } else {
        CliCommand::Unknown(clone_string(c))
    }
}

/// A command with its texts taken by their characters.
pub ghost enum CommandView {
    Serve,
    Health,
    Liveness,
    Readiness,
    Help(Option<Seq<char>>),
    Version,
    Status(bool),
    Infer,
    NotImplemented(Seq<char>),
    UnknownSubcommand(Seq<char>, Seq<char>),
    Unknown(Seq<char>),
}

/// A command with its texts taken by their characters.
pub open spec fn command_view(c: CliCommand) -> CommandView {
    match c {
        CliCommand::Serve => CommandView::Serve,
        CliCommand::Health => CommandView::Health,
        CliCommand::Liveness => CommandView::Liveness,
        CliCommand::Readiness => CommandView::Readiness,
        CliCommand::Help(h) => CommandView::Help(
            match h {
                Some(s) => Some(s@),
                None => None,
            },
        ),
        CliCommand::Version => CommandView::Version,
        CliCommand::Status { json } => CommandView::Status(json),
        CliCommand::Infer => CommandView::Infer,
        CliCommand::NotImplemented(s) => CommandView::NotImplemented(s@),
        CliCommand::UnknownSubcommand { command, subcommand } => CommandView::UnknownSubcommand(
            command@,
            subcommand@,
        ),
        CliCommand::Unknown(s) => CommandView::Unknown(s@),
    }
}

/// The value of an ASCII digit.
pub open spec fn digit_value(c: char) -> int {
    c as int - '0' as int
}

/// Whether every character is an ASCII digit.
pub open spec fn all_digits(s: Seq<char>) -> bool {
    forall|i: int| 0 <= i < s.len() ==> '0' <= #[trigger] s[i] <= '9'
}

/// The number the digits stand for.
pub open spec fn digits_value(s: Seq<char>) -> int
    decreases s.len(),
{
    if s.len() == 0 {
        0
    } else {
        digits_value(s.drop_last()) * 10 + digit_value(s.last())
    }
}

/// What `str::parse::<usize>` gives: an optional `+`, then one or more
/// ASCII digits whose value fits in `usize`.
pub open spec fn spec_parse_usize(s: Seq<char>) -> Option<usize> {
    let digits = if s.len() > 0 && s[0] == '+' { s.skip(1) } else { s };
    if digits.len() > 0 && all_digits(digits) && digits_value(digits) <= usize::MAX {
        Some(digits_value(digits) as usize)
    } else {
        None
    }
}

/// The value of an all-digit text is never below 0.
proof fn lemma_digits_value_nonneg(s: Seq<char>)
    requires
        all_digits(s),
    ensures
        digits_value(s) >= 0,
    decreases s.len(),
{
    if s.len() > 0 {
        assert(all_digits(s.drop_last()));
        lemma_digits_value_nonneg(s.drop_last());
    }
}

/// A prefix of an all-digit text is worth no more than the whole text.
proof fn lemma_prefix_value_le(s: Seq<char>, k: int)
    requires
        all_digits(s),
        0 <= k <= s.len(),
    ensures
        digits_value(s.take(k)) <= digits_value(s),
    decreases s.len(),
{
    if k < s.len() {
        assert(all_digits(s.drop_last()));
        lemma_prefix_value_le(s.drop_last(), k);
        assert(s.drop_last().take(k) =~= s.take(k));
        lemma_digits_value_nonneg(s.drop_last());
    } else {
        assert(s.take(k) =~= s);
    }
}

/// Parse a decimal `usize` as `str::parse` does.
pub fn parse_usize(s: &str) -> (r: Option<usize>)
    ensures
        r == spec_parse_usize(s@),
{
    let n = s.unicode_len();
    let mut start: usize = 0;
    if n > 0 && s.get_char(0) == '+' {
        start = 1;
    }
    let ghost digits = if s@.len() > 0 && s@[0] == '+' { s@.skip(1) } else { s@ };
    if start == n {
        return None;
    }
    let mut value: usize = 0;
    let mut i: usize = start;
    proof {
        assert(digits =~= s@.skip(start as int));
        assert(digits.take(0) =~= Seq::<char>::empty());
    }
    while i < n
        invariant
            n == s@.len(),
            start <= i <= n,
            start < n,
            digits == s@.skip(start as int),
            digits == (if s@.len() > 0 && s@[0] == '+' { s@.skip(1) } else { s@ }),
            all_digits(digits.take(i - start)),
            value == digits_value(digits.take(i - start)),
        decreases n - i,
    {
        let c = s.get_char(i);
        proof {
            assert(digits.take(i - start + 1).drop_last() =~= digits.take(i - start));
            assert(digits[i - start] == c);
        }
        if c < '0' || c > '9' {
            proof {
                assert(!all_digits(digits));
            }
            return None;
        }
        let d = (c as u32 - '0' as u32) as usize;
        if value > (usize::MAX - d) / 10 {
            proof {
                let k = i - start + 1;
                assert(digits_value(digits.take(k)) == value * 10 + d);
                assert(value * 10 + d > usize::MAX) by (nonlinear_arith)
                    requires
                        value > (usize::MAX - d) / 10,
                        d <= 9,
                ;
                if all_digits(digits) {
                    lemma_prefix_value_le(digits, k);
                }
            }
            return None;
        }
        value = value * 10 + d;
        i = i + 1;
    }
    proof {
        assert(digits.take(n - start) =~= digits);
    }
    Some(value)
}

/// Maximum number of tokens an inference asks for when none is given (or
/// the number given does not parse).
pub const DEFAULT_MAX_TOKENS: usize = 256;

/// The arguments of the `infer` command.
#[derive(Debug, Clone, PartialEq, Eq)]
pub struct InferArgs {
    pub model_id: String,
    pub prompt: String,
    pub max_tokens: usize,
    pub stream: bool,
}

/// Why the arguments of the `infer` command were refused.
#[derive(Debug, Clone, PartialEq, Eq)]
pub enum InferArgsError {
    /// A flag came last, without its value.
    MissingValue(String),
    /// An argument that is not a flag of the command.
    UnknownArgument(String),
    /// No model or no prompt was given.
    MissingModelOrPrompt,
}

impl InferArgsError {
    /// The text the command prints for the error.
    pub fn message(&self) -> (r: String)
        ensures
            self matches InferArgsError::MissingValue(f) ==> r@ == "Missing value for "@ + f@,
            self matches InferArgsError::UnknownArgument(a) ==> r@ == "Unknown argument: "@ + a@,
            self is MissingModelOrPrompt ==> r@
                == "Usage: veritas-spark infer --model <MODEL> --prompt <PROMPT> [--max-tokens N] [--stream]"@,
    {
        match self {
            InferArgsError::MissingValue(f) => crate::text::concat2("Missing value for ", f.as_str()),
            InferArgsError::UnknownArgument(a) => crate::text::concat2("Unknown argument: ", a.as_str()),
            InferArgsError::MissingModelOrPrompt => "Usage: veritas-spark infer --model <MODEL> --prompt <PROMPT> [--max-tokens N] [--stream]".to_owned(),
        }
    }
}

/// The settings gathered while reading the arguments of `infer`.
pub ghost struct InferScan {
    pub model: Seq<char>,
    pub prompt: Seq<char>,
    pub max_tokens: usize,
    pub stream: bool,
}

/// The outcome of reading the arguments of `infer` from position `i` on.
pub ghost enum InferScanResult {
    Done(InferScan),
    MissingValue(Seq<char>),
    UnknownArgument(Seq<char>),
}

/// Reads the arguments from position `i` on: `--model`, `--prompt` and
/// `--max-tokens` take the next argument as their value, `--stream` stands
/// alone, anything else is refused.
pub open spec fn scan_infer_args(args: Seq<String>, i: int, st: InferScan) -> InferScanResult
    decreases args.len() - i,
{
    if i >= args.len() || i < 0 {
        InferScanResult::Done(st)
    } else {
        let a = args[i]@;
        if a == "--model"@ {
            if i + 1 < args.len() {
                scan_infer_args(args, i + 2, InferScan { model: args[i + 1]@, ..st })
            } else {
                InferScanResult::MissingValue(a)
            }
        } else if a == "--prompt"@ {
            if i + 1 < args.len() {
                scan_infer_args(args, i + 2, InferScan { prompt: args[i + 1]@, ..st })
            } else {
                InferScanResult::MissingValue(a)
            }
        } else if a == "--max-tokens"@ {
            if i + 1 < args.len() {
                let n = match spec_parse_usize(args[i + 1]@) {
                    Some(n) => n,
                    None => DEFAULT_MAX_TOKENS,
                };
                scan_infer_args(args, i + 2, InferScan { max_tokens: n, ..st })
            } else {
                InferScanResult::MissingValue(a)
            }
        } else if a == "--stream"@ {
            scan_infer_args(args, i + 1, InferScan { stream: true, ..st })
        } else {
            InferScanResult::UnknownArgument(a)
        }
    }
}

/// The arguments of `infer` (the program name and the command first), as
/// the command reads them: no model and no prompt, 256 tokens and no
/// streaming until the flags say otherwise; a model and a prompt are
/// required.
pub open spec fn spec_infer_args(args: Seq<String>) -> InferScanResult {
    scan_infer_args(
        args,
        2,
        InferScan { model: Seq::empty(), prompt: Seq::empty(), max_tokens: DEFAULT_MAX_TOKENS, stream: false },
    )
}

/// Read the arguments of the `infer` command (see [`spec_infer_args`]).
pub fn parse_infer_args(args: &Vec<String>) -> (r: Result<InferArgs, InferArgsError>)
    ensures
        match spec_infer_args(args@) {
            InferScanResult::Done(st) => if st.model.len() == 0 || st.prompt.len() == 0 {
                r == Err::<InferArgs, InferArgsError>(InferArgsError::MissingModelOrPrompt)
            } else {
                r matches Ok(a) && a.model_id@ == st.model && a.prompt@ == st.prompt && a.max_tokens
                    == st.max_tokens && a.stream == st.stream
            },
            InferScanResult::MissingValue(f) => r matches Err(InferArgsError::MissingValue(g)) && g@ == f,
            InferScanResult::UnknownArgument(x) => r matches Err(InferArgsError::UnknownArgument(y)) && y@ == x,
        },
{
    let mut model_id = String::new();
    let mut prompt = String::new();
    let mut max_tokens: usize = DEFAULT_MAX_TOKENS;
    let mut stream = false;
    let n = args.len();
    let mut i: usize = 2;
    while i < n
        invariant
            n == args@.len(),
            2 <= i,
            spec_infer_args(args@) == scan_infer_args(
                args@,
                i as int,
                InferScan { model: model_id@, prompt: prompt@, max_tokens, stream },
            ),
        decreases n - i,
    {
        let a = &args[i];
        if same_text(a.as_str(), "--model") {
            if i + 1 < n {
                model_id = clone_string(&args[i + 1]);
                i = i + 2;
            } else {
                return Err(InferArgsError::MissingValue(clone_string(a)));
            }
        } else if same_text(a.as_str(), "--prompt") {
            if i + 1 < n {
                prompt = clone_string(&args[i + 1]);
                i = i + 2;
            } else {
                return Err(InferArgsError::MissingValue(clone_string(a)));
            }
        } else if same_text(a.as_str(), "--max-tokens") {
            if i + 1 < n {
                max_tokens = match parse_usize(args[i + 1].as_str()) {
                    Some(v) => v,
                    None => DEFAULT_MAX_TOKENS,
                };
                i = i + 2;
            } else {
                return Err(InferArgsError::MissingValue(clone_string(a)));
            }
        } else if same_text(a.as_str(), "--stream") {
            stream = true;
            i = i + 1;
        } else {
            return Err(InferArgsError::UnknownArgument(clone_string(a)));
        }
    }
    if model_id.as_str().unicode_len() == 0 || prompt.as_str().unicode_len() == 0 {
        return Err(InferArgsError::MissingModelOrPrompt);
    }
    Ok(InferArgs { model_id, prompt, max_tokens, stream })
}

} // verus!
