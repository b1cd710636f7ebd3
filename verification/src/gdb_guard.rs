//! GDB payload filter.
//!
//! Default-deny. Unwrap `-interpreter-exec console "…"` so a denylist on the
//! outer MI verb cannot be bypassed. Abbreviations (`py`, `so`, `sh`) and
//! dangerous MI (`-exec-run`, `-file-exec-and-symbols`) are refused.
use vstd::prelude::*;
use crate::text::{
    chars_eq_str, find, find_chars, find_from, lemma_find_in_range, occurs_at, first_token, first_word, is_ws, lemma_first_word_trim, lemma_take_word_at,
    lemma_take_word_prefix, lemma_trim_idempotent, lemma_lower_char, lemma_lower_idempotent,
    lemma_lower_subrange, lemma_trim_start_lower, lemma_trim_lower, lemma_take_word_lower,
    lemma_first_word_lower, lemma_strip_dashes_lower, lemma_strip_digits_lower,
    lemma_unescape_lower,
    lower_chars, lower_seq, skip_chars, starts_with, starts_with_chars, str_chars, strip_dashes,
    strip_dashes_chars, strip_digits, strip_digits_chars, sub_chars, take_word, take_word_chars,
    trim, trim_chars, trim_end, trim_start, trim_start_chars, unescape, unescape_chars,
};

verus! {

// ---------------------------------------------------------------------------
// The lists.
// ---------------------------------------------------------------------------

/// MI verbs (without the leading `-`) that are let through.
pub open spec fn mi_allow_list() -> Seq<&'static str> {
    seq![
        "exec-continue",
        "exec-step",
        "exec-next",
        "exec-finish",
        "exec-interrupt",
        "exec-step-instruction",
        "exec-next-instruction",
        "break-insert",
        "break-delete",
        "break-list",
        "break-disable",
        "break-enable",
        "thread-info",
        "thread-select",
        "stack-list-frames",
        "stack-info-frame",
        "stack-list-variables",
        "stack-list-locals",
        "data-list-register-values",
        "data-list-register-names",
        "data-evaluate-expression",
        "data-read-memory-bytes",
        "data-disassemble",
        "file-list-exec-source-file",
        "file-list-exec-source-files",
        "symbol-list-lines",
        "gdb-version",
        "gdb-set",
        "gdb-show",
    ]
}

/// MI verbs that are refused, also with any `-suffix`. `interpreter-exec`
/// must have been unwrapped already; one left over is refused.
pub open spec fn mi_deny_list() -> Seq<&'static str> {
    seq![
        "exec-run",
        "exec-until",
        "file-exec-and-symbols",
        "file-symbol-file",
        "target-select",
        "target-attach",
        "target-detach",
        "target-download",
        "interpreter-exec",
    ]
}

/// Console commands that are let through.
pub open spec fn console_allow_list() -> Seq<&'static str> {
    seq![
        "info", "i", "thread", "tp", "break", "b", "tbreak", "delete", "d", "disable",
        "enable", "condition", "clear", "continue", "c", "fg", "step", "s", "stepi", "si",
        "next", "n", "nexti", "ni", "finish", "fin", "until", "bt", "backtrace", "where",
        "frame", "f", "up", "down", "print", "p", "x", "disassemble", "disas", "list", "l",
        "help", "h", "set", "unset", "show", "whatis", "ptype", "display", "undisplay",
    ]
}

/// Console commands that are refused; the refusal names the command.
pub open spec fn console_deny_list() -> Seq<&'static str> {
    seq![
        "shell", "sh", "pipe", "source", "so", "python", "py", "make", "cd", "target", "run",
        "r", "attach", "file", "add-symbol-file", "dump", "restore", "monitor", "compile",
        "eval", "quit", "q", "kill", "detach",
    ]
}

fn mi_allow() -> (t: Vec<&'static str>)
    ensures
        t@ == mi_allow_list(),
{
    vec![
        "exec-continue",
        "exec-step",
        "exec-next",
        "exec-finish",
        "exec-interrupt",
        "exec-step-instruction",
        "exec-next-instruction",
        "break-insert",
        "break-delete",
        "break-list",
        "break-disable",
        "break-enable",
        "thread-info",
        "thread-select",
        "stack-list-frames",
        "stack-info-frame",
        "stack-list-variables",
        "stack-list-locals",
        "data-list-register-values",
        "data-list-register-names",
        "data-evaluate-expression",
        "data-read-memory-bytes",
        "data-disassemble",
        "file-list-exec-source-file",
        "file-list-exec-source-files",
        "symbol-list-lines",
        "gdb-version",
        "gdb-set",
        "gdb-show",
    ]
}

fn mi_deny() -> (t: Vec<&'static str>)
    ensures
        t@ == mi_deny_list(),
{
    vec![
        "exec-run",
        "exec-until",
        "file-exec-and-symbols",
        "file-symbol-file",
        "target-select",
        "target-attach",
        "target-detach",
        "target-download",
        "interpreter-exec",
    ]
}

fn console_allow() -> (t: Vec<&'static str>)
    ensures
        t@ == console_allow_list(),
{
    vec![
        "info", "i", "thread", "tp", "break", "b", "tbreak", "delete", "d", "disable",
        "enable", "condition", "clear", "continue", "c", "fg", "step", "s", "stepi", "si",
        "next", "n", "nexti", "ni", "finish", "fin", "until", "bt", "backtrace", "where",
        "frame", "f", "up", "down", "print", "p", "x", "disassemble", "disas", "list", "l",
        "help", "h", "set", "unset", "show", "whatis", "ptype", "display", "undisplay",
    ]
}

fn console_deny() -> (t: Vec<&'static str>)
    ensures
        t@ == console_deny_list(),
{
    vec![
        "shell", "sh", "pipe", "source", "so", "python", "py", "make", "cd", "target", "run",
        "r", "attach", "file", "add-symbol-file", "dump", "restore", "monitor", "compile",
        "eval", "quit", "q", "kill", "detach",
    ]
}

// ---------------------------------------------------------------------------
// The rules.
// ---------------------------------------------------------------------------

/// `w` is one of the words of `t`.
pub open spec fn listed(t: Seq<&'static str>, w: Seq<char>) -> bool {
    exists|i: int| 0 <= i < t.len() && #[trigger] t[i]@ == w
}

/// The MI deny entry `a` refuses `verb`: the verb is `a` or starts with `a-`.
pub open spec fn mi_deny_hit(a: Seq<char>, verb: Seq<char>) -> bool {
    verb == a || starts_with(verb, a.push('-'))
}

/// The first entry of `t`, from index `i` on, that refuses `verb`.
pub open spec fn first_mi_deny_from(t: Seq<&'static str>, verb: Seq<char>, i: int) -> Option<
    Seq<char>,
>
    decreases t.len() - i,
{
    if i < 0 || i >= t.len() {
        None
    } else if mi_deny_hit(t[i]@, verb) {
        Some(t[i]@)
    } else {
        first_mi_deny_from(t, verb, i + 1)
    }
}

/// The text that a quoted console payload stands for: trimmed, and when it
/// is wrapped in `"…"` or `'…'`, the inside with `\"` and `\'` unescaped.
pub open spec fn unquoted(s: Seq<char>) -> Seq<char> {
    let t = trim(s);
    if t.len() >= 2 && ((t[0] == '"' && t.last() == '"') || (t[0] == '\'' && t.last() == '\'')) {
        unescape(unescape(t.subrange(1, t.len() - 1), '"'), '\'')
    } else {
        t
    }
}

/// The first word of a line names the MI console wrapper: after an optional
/// MI token of ASCII digits and leading `-`, it is `interpreter-exec`
/// without regard to ASCII case.
pub open spec fn is_wrapper_word(word: Seq<char>) -> bool {
    lower_seq(strip_dashes(strip_digits(word))) == "interpreter-exec"@
}

/// The console command that a line carries in an `interpreter-exec console`
/// (or `--console`) request: the key is looked up without regard to ASCII
/// case, anywhere in the line, and the next word must start with `console`
/// or `--console`.
pub open spec fn console_payload(line: Seq<char>) -> Option<Seq<char>> {
    match find(lower_seq(line), "interpreter-exec"@) {
        None => None,
        Some(idx) => {
            let rest = trim_start(line.skip(idx + "interpreter-exec"@.len()));
            let rest_l = lower_seq(rest);
            if starts_with(rest_l, "console"@) {
                Some(unquoted(trim_start(rest.skip("console"@.len() as int))))
            } else if starts_with(rest_l, "--console"@) {
                Some(unquoted(trim_start(rest.skip("--console"@.len() as int))))
            } else {
                None
            }
        },
    }
}

/// The verb of a command: its first word, without leading `-`, in ASCII lower case.
pub open spec fn command_verb(line: Seq<char>) -> Seq<char> {
    lower_seq(strip_dashes(first_word(line)))
}

/// Verdict on a console command: `None` lets it through, `Some(reason)` refuses it.
pub open spec fn console_verdict(line: Seq<char>) -> Option<Seq<char>> {
    let token = command_verb(line);
    let lower = lower_seq(trim(line));
    if token.len() == 0 {
        Some("empty"@)
    } else if listed(console_deny_list(), token) {
        Some(token)
    } else if starts_with(lower, "set logging"@) {
        Some("set logging"@)
    } else if starts_with(lower, "set startup-with-shell"@) {
        Some("set startup-with-shell"@)
    } else if listed(console_allow_list(), token) {
        None
    } else {
        Some("console-default-deny"@)
    }
}

/// Verdict on an MI command.
pub open spec fn mi_verdict(line: Seq<char>) -> Option<Seq<char>> {
    let verb = command_verb(line);
    if listed(mi_allow_list(), verb) {
        None
    } else {
        match first_mi_deny_from(mi_deny_list(), verb, 0) {
            Some(a) => Some(a),
            None => Some("mi-default-deny"@),
        }
    }
}

/// Verdict on a line as the command it is itself: an MI command when it
/// starts with `-`, a console command otherwise.
pub open spec fn own_verdict(line: Seq<char>) -> Option<Seq<char>> {
    if line.len() > 0 && line[0] == '-' {
        mi_verdict(line)
    } else {
        console_verdict(line)
    }
}

/// Verdict on a payload line: `None` lets it through, `Some(reason)` refuses it.
/// A line that starts with the wrapper is judged by the console command it
/// wraps. A line that carries a wrapped console command further on is
/// refused when either its own command or the wrapped one is refused (its
/// own reason first). Any other line is judged as the command it is.
pub open spec fn gdb_verdict(raw: Seq<char>) -> Option<Seq<char>> {
    let line = trim(raw);
    if line.len() == 0 {
        Some("empty"@)
    } else {
        match console_payload(line) {
            Some(inner) => if !is_wrapper_word(first_word(line)) && own_verdict(line) is Some {
                own_verdict(line)
            } else {
                console_verdict(inner)
            },
            None => own_verdict(line),
        }
    }
}

// ---------------------------------------------------------------------------
// Executable filter.
// ---------------------------------------------------------------------------

/// Why a payload was refused. Returned as the denylist token.
pub fn gdb_command_denied(line: &str) -> (r: Option<&'static str>)
    ensures
        match r {
            None => gdb_verdict(line@) is None,
            Some(reason) => gdb_verdict(line@) == Some(reason@),
        },
{
    let v = str_chars(line);
    match classify(&v) {
        Decision::Allow => None,
        Decision::Deny(reason) => Some(reason),
    }
}

/// Whether a payload may be passed on to GDB.
pub fn gdb_payload_allowed(line: &str) -> (r: bool)
    ensures
        r == (gdb_verdict(line@) is None),
{
    gdb_command_denied(line).is_none()
}

/// The verdict on one payload.
#[derive(Debug, PartialEq, Eq)]
pub enum Decision {
    Allow,
    Deny(&'static str),
}

/// A decision as an optional reason.
pub open spec fn decision_view(d: Decision) -> Option<Seq<char>> {
    match d {
        Decision::Allow => None,
        Decision::Deny(reason) => Some(reason@),
    }
}

/// Classify a payload line.
pub fn classify(raw: &Vec<char>) -> (d: Decision)
    ensures
        decision_view(d) == gdb_verdict(raw@),
{
    let line = trim_chars(raw);
    if line.len() == 0 {
        return Decision::Deny("empty");
    }
    // Token / console may be wrapped for the MI channel.
    if let Some(inner) = extract_interpreter_exec_console(&line) {
        if !starts_with_wrapper(&line) {
            // The line's own command is judged too.
            let own = classify_own(&line);
            if let Decision::Deny(_) = own {
                return own;
            }
        }
        return classify_console(&inner);
    }
    classify_own(&line)
}

/// Classify a line as the command it is itself.
pub fn classify_own(line: &Vec<char>) -> (d: Decision)
    ensures
        decision_view(d) == own_verdict(line@),
{
    if line.len() > 0 && line[0] == '-' {
        classify_mi(line)
    } else {
        classify_console(line)
    }
}

/// Whether the first word of the line is the wrapper `interpreter-exec`
/// (after an optional MI token and dashes, without regard to ASCII case).
pub fn starts_with_wrapper(line: &Vec<char>) -> (r: bool)
    ensures
        r == is_wrapper_word(first_word(line@)),
{
    let word = first_token(line);
    let no_token = strip_digits_chars(&word);
    let no_dashes = strip_dashes_chars(&no_token);
    let verb = lower_chars(&no_dashes);
    chars_eq_str(&verb, "interpreter-exec")
}

/// The console command inside an `interpreter-exec console "…"` request.
pub fn extract_interpreter_exec_console(line: &Vec<char>) -> (r: Option<Vec<char>>)
    ensures
        match r {
            None => console_payload(line@) is None,
            Some(inner) => console_payload(line@) == Some(inner@),
        },
{
    let line_len = line.len();
    let lower = lower_chars(line);
    let key = str_chars("interpreter-exec");
    let idx = match find_chars(&lower, &key) {
        Some(i) => i,
        None => return None,
    };
    assert(idx + key@.len() <= line_len) by {
        lemma_find_in_range(lower@, key@, 0);
    }
    let after_key = skip_chars(line, idx + key.len());
    let rest = trim_start_chars(&after_key);
    let rest_l = lower_chars(&rest);
    let console = str_chars("console");
    let dashed = str_chars("--console");
    if starts_with_chars(&rest_l, &console) {
        let tail = skip_chars(&rest, console.len());
        let after = trim_start_chars(&tail);
        Some(unquote(&after))
    } else if starts_with_chars(&rest_l, &dashed) {
        let tail = skip_chars(&rest, dashed.len());
        let after = trim_start_chars(&tail);
        Some(unquote(&after))
    } else {
        None
    }
}

/// Trim, then strip one pair of matching quotes and unescape the inside.
pub fn unquote(s: &Vec<char>) -> (r: Vec<char>)
    ensures
        r@ == unquoted(s@),
{
    let t = trim_chars(s);
    let n = t.len();
    if n >= 2 {
        if (t[0] == '"' && t[n - 1] == '"') || (t[0] == '\'' && t[n - 1] == '\'') {
            let inner = sub_chars(&t, 1, n - 1);
            let a = unescape_chars(&inner, '"');
            return unescape_chars(&a, '\'');
        }
    }
    t
}

/// Classify an MI command (a line that starts with `-`).
pub fn classify_mi(line: &Vec<char>) -> (d: Decision)
    ensures
        decision_view(d) == mi_verdict(line@),
{
    let token = first_token(line);
    let stripped = strip_dashes_chars(&token);
    let verb = lower_chars(&stripped);
    let allow = mi_allow();
    if lookup(&allow, &verb).is_some() {
        return Decision::Allow;
    }
    let deny = mi_deny();
    match first_mi_deny(&deny, &verb) {
        Some(reason) => Decision::Deny(reason),
        None => Decision::Deny("mi-default-deny"),
    }
}

/// Classify a console command.
pub fn classify_console(line: &Vec<char>) -> (d: Decision)
    ensures
        decision_view(d) == console_verdict(line@),
{
    let first = first_token(line);
    let stripped = strip_dashes_chars(&first);
    let token = lower_chars(&stripped);
    if token.len() == 0 {
        return Decision::Deny("empty");
    }
    if lookup(&console_deny(), &token).is_some() {
        return Decision::Deny(deny_reason(&token));
    }
    // Multi-word denies: `set logging`, `set startup-with-shell`.
    let trimmed = trim_chars(line);
    let lower = lower_chars(&trimmed);
    if starts_with_chars(&lower, &str_chars("set logging")) {
        return Decision::Deny("set logging");
    }
    if starts_with_chars(&lower, &str_chars("set startup-with-shell")) {
        return Decision::Deny("set startup-with-shell");
    }
    if lookup(&console_allow(), &token).is_some() {
        return Decision::Allow;
    }
    Decision::Deny("console-default-deny")
}

/// The console deny entry equal to `token`, or `console-default-deny`.
pub fn deny_reason(token: &Vec<char>) -> (r: &'static str)
    ensures
        listed(console_deny_list(), token@) ==> r@ == token@,
        !listed(console_deny_list(), token@) ==> r@ == "console-default-deny"@,
{
    let deny = console_deny();
    match lookup(&deny, token) {
        Some(i) => deny[i],
        None => "console-default-deny",
    }
}

/// The first index of `t` whose word equals `w`.
fn lookup(t: &Vec<&'static str>, w: &Vec<char>) -> (r: Option<usize>)
    ensures
        r matches Some(i) ==> i < t@.len() && t@[i as int]@ == w@,
        r is None ==> !listed(t@, w@),
{
    let mut i: usize = 0;
    while i < t.len()
        invariant
            i <= t@.len(),
            forall|j: int| 0 <= j < i ==> t@[j]@ != w@,
        decreases t@.len() - i,
    {
        if chars_eq_str(w, t[i]) {
            return Some(i);
        }
        i = i + 1;
    }
    None
}

/// The first MI deny entry that refuses `verb`.
fn first_mi_deny(t: &Vec<&'static str>, verb: &Vec<char>) -> (r: Option<&'static str>)
    ensures
        match r {
            None => first_mi_deny_from(t@, verb@, 0) is None,
            Some(a) => first_mi_deny_from(t@, verb@, 0) == Some(a@),
        },
{
    let mut i: usize = 0;
    while i < t.len()
        invariant
            i <= t@.len(),
            first_mi_deny_from(t@, verb@, 0) == first_mi_deny_from(t@, verb@, i as int),
        decreases t@.len() - i,
    {
        let a = t[i];
        let mut dashed = str_chars(a);
        dashed.push('-');
        if chars_eq_str(verb, a) || starts_with_chars(verb, &dashed) {
            return Some(a);
        }
        i = i + 1;
    }
    None
}


// ---------------------------------------------------------------------------
// Laws.
// ---------------------------------------------------------------------------

/// A console command wrapped for the MI channel:
/// `-interpreter-exec console "<cmd>"`.
pub open spec fn wrap_console(cmd: Seq<char>) -> Seq<char> {
    "-interpreter-exec console \""@ + cmd + "\""@
}

proof fn lemma_unescape_plain(s: Seq<char>, q: char)
    requires
        forall|i: int| 0 <= i < s.len() ==> s[i] != '\\',
    ensures
        unescape(s, q) == s,
    decreases s.len(),
{
    if s.len() > 0 {
        lemma_unescape_plain(s.drop_first(), q);
        assert(seq![s[0]] + s.drop_first() =~= s);
    }
}

/// A console command passes the console rules: its verb is on the console
/// allow list and off the deny list, and neither multi-word rule matches.
pub open spec fn console_allowed(line: Seq<char>) -> bool {
    &&& listed(console_allow_list(), command_verb(line))
    &&& !listed(console_deny_list(), command_verb(line))
    &&& !starts_with(lower_seq(trim(line)), "set logging"@)
    &&& !starts_with(lower_seq(trim(line)), "set startup-with-shell"@)
}

/// The line, as the command it is itself, passes the MI or console rules.
pub open spec fn own_allowed(line: Seq<char>) -> bool {
    if line.len() > 0 && line[0] == '-' {
        listed(mi_allow_list(), command_verb(line))
    } else {
        console_allowed(line)
    }
}

/// Default deny: a payload is let through only when it starts with the
/// wrapper and the wrapped console command passes the console rules, or it
/// passes the rules as the command it is itself and any console command it
/// carries further on passes them too.
pub proof fn lemma_default_deny(raw: Seq<char>)
    requires
        gdb_verdict(raw) is None,
    ensures
        ({
            let line = trim(raw);
            ||| (is_wrapper_word(first_word(line)) && (console_payload(line) matches Some(inner)
                && console_allowed(inner)))
            ||| (own_allowed(line) && (console_payload(line) matches Some(inner)
                ==> console_allowed(inner)))
        }),
{
}

/// Unwrapping: a console command sent inside `-interpreter-exec console "…"`
/// gets exactly the verdict of that console command, so wrapping cannot
/// bypass the console lists. (Commands with a backslash are left out: inside
/// the quotes `\"` and `\'` are unescaped first.)
pub proof fn lemma_wrapped_console_judged_as_console(cmd: Seq<char>)
    requires
        forall|i: int| 0 <= i < cmd.len() ==> cmd[i] != '\\',
    ensures
        gdb_verdict(wrap_console(cmd)) == console_verdict(cmd),
{
    let p = "-interpreter-exec console \""@;
    let key = "interpreter-exec"@;
    let q = "\""@;
    reveal_strlit("-interpreter-exec console \"");
    reveal_strlit("interpreter-exec");
    reveal_strlit("\"");
    reveal_strlit("console");
    let w = wrap_console(cmd);
    assert(p.len() == 27);
    assert(key.len() == 16);
    assert(w.len() == cmd.len() + 28);
    assert(w[0] == '-');
    assert(w.last() == '"');
    // the line is already trimmed
    assert(trim_start(w) == w);
    assert(trim_end(w) == w);
    assert(trim(w) == w);
    // the first word is `-interpreter-exec`
    assert forall|j: int| 0 <= j < 17 implies !is_ws(#[trigger] w[j]) by {
        assert(w[j] == p[j]);
    }
    assert(w[17] == ' ');
    lemma_take_word_at(w, 17);
    let word = w.take(17);
    assert(first_word(w) == word);
    assert(strip_digits(word) == word);
    assert(word.drop_first()[0] == 'i');
    assert(strip_dashes(word.drop_first()) == word.drop_first());
    assert(strip_dashes(word) == word.drop_first());
    assert(lower_seq(word.drop_first()) =~= key) by {
        assert forall|k: int| 0 <= k < 16 implies lower_seq(word.drop_first())[k] == key[k] by {
            assert(w[1 + k] == p[1 + k]);
        }
    }
    assert(is_wrapper_word(first_word(w)));
    // and the key is found right after the dash
    let lw = lower_seq(w);
    assert(!occurs_at(lw, key, 0)) by {
        assert(lw.subrange(0, 16)[0] == '-');
    }
    assert(occurs_at(lw, key, 1)) by {
        assert forall|k: int| 0 <= k < 16 implies lw.subrange(1, 17)[k] == key[k] by {
            assert(w[1 + k] == p[1 + k]);
        }
        assert(lw.subrange(1, 17) =~= key);
    }
    assert(find_from(lw, key, 1) == Some(1int));
    assert(find(lw, key) == Some(1int));
    // then ` console ` and the quoted command
    let after_key = w.skip(17);
    assert(after_key[0] == ' ');
    assert(after_key.drop_first() =~= w.skip(18));
    assert(trim_start(w.skip(18)) == w.skip(18)) by {
        assert(w.skip(18)[0] == 'c');
    }
    let rest = w.skip(18);
    assert(trim_start(after_key) == rest);
    assert(starts_with(lower_seq(rest), "console"@)) by {
        assert forall|k: int| 0 <= k < 7 implies lower_seq(rest).subrange(0, 7)[k]
            == "console"@[k] by {
            assert(rest[k] == p[18 + k]);
        }
        assert(lower_seq(rest).subrange(0, 7) =~= "console"@);
    }
    let after_console = rest.skip(7);
    assert(after_console[0] == ' ');
    let quoted = w.skip(26);
    assert(after_console.drop_first() =~= quoted);
    assert(quoted[0] == '"');
    assert(trim_start(quoted) == quoted);
    assert(trim_start(after_console) == quoted);
    assert(quoted.last() == '"');
    assert(trim_end(quoted) == quoted);
    assert(quoted.subrange(1, quoted.len() - 1) =~= cmd);
    lemma_unescape_plain(cmd, '"');
    lemma_unescape_plain(cmd, '\'');
    assert(unquoted(quoted) == cmd);
    assert(console_payload(w) == Some(cmd));
}

/// Wrapping changes nothing: a console command (padded, empty or not)
/// without a backslash, that once trimmed does not start with `-` and does
/// not name `interpreter-exec` (in any ASCII case), gets the same verdict
/// bare and wrapped in `-interpreter-exec console "…"`.
pub proof fn lemma_wrapping_changes_nothing(cmd: Seq<char>)
    requires
        forall|i: int| 0 <= i < cmd.len() ==> cmd[i] != '\\',
        trim(cmd).len() == 0 || trim(cmd)[0] != '-',
        find(lower_seq(trim(cmd)), "interpreter-exec"@) is None,
    ensures
        gdb_verdict(wrap_console(cmd)) == gdb_verdict(cmd),
{
    lemma_wrapped_console_judged_as_console(cmd);
    lemma_console_verdict_trim(cmd);
    lemma_trim_idempotent(cmd);
    let line = trim(cmd);
    if line.len() == 0 {
        assert(first_word(line) =~= Seq::<char>::empty());
        assert(command_verb(line).len() == 0);
    }
}

/// Surrounding whitespace never changes the verdict on a payload.
pub proof fn lemma_verdict_ignores_padding(raw: Seq<char>)
    ensures
        gdb_verdict(trim(raw)) == gdb_verdict(raw),
{
    lemma_trim_idempotent(raw);
}

/// Surrounding whitespace never changes the verdict on a console command.
pub proof fn lemma_console_verdict_trim(line: Seq<char>)
    ensures
        console_verdict(trim(line)) == console_verdict(line),
{
    lemma_first_word_trim(line);
    lemma_trim_idempotent(line);
}

/// A line that does not start with `-` and whose first verb is a console
/// deny word is refused with that word, whatever follows on the line.
pub proof fn lemma_console_deny_verb_refused(raw: Seq<char>)
    requires
        trim(raw).len() > 0,
        trim(raw)[0] != '-',
        listed(console_deny_list(), command_verb(trim(raw))),
    ensures
        gdb_verdict(raw) == Some(command_verb(trim(raw))),
{
    let line = trim(raw);
    lemma_trim_idempotent(raw);
    lemma_console_lists();
    let word = take_word(line);
    assert(first_word(line) == word);
    let v = command_verb(line);
    let j = choose|j: int| 0 <= j < console_deny_list().len() && #[trigger] console_deny_list()[j]@
        == v;
    assert(v.len() > 0 && 'a' <= v[0] && v[0] <= 'z');
    assert(word.len() > 0);
    if '0' <= word[0] && word[0] <= '9' {
        assert(strip_dashes(word) == word);
        assert(v[0] == word[0]);
    }
    assert(strip_digits(word) == word);
    assert(lower_seq(strip_dashes(strip_digits(word))) == v);
    assert(!is_wrapper_word(word));
    assert(own_verdict(line) == Some(v));
}

/// A console command is let through exactly when its verb is on the console
/// allow list and neither multi-word rule (`set logging`,
/// `set startup-with-shell`) matches; a verb on the deny list is refused
/// with that verb, and an empty one as `empty`.
pub proof fn lemma_console_allowed_iff(line: Seq<char>)
    ensures
        console_verdict(line) is None <==> (listed(console_allow_list(), command_verb(line))
            && !starts_with(lower_seq(trim(line)), "set logging"@) && !starts_with(
            lower_seq(trim(line)),
            "set startup-with-shell"@,
        )),
        listed(console_deny_list(), command_verb(line)) ==> console_verdict(line) == Some(
            command_verb(line),
        ),
        command_verb(line).len() == 0 ==> console_verdict(line) == Some("empty"@),
{
    let v = command_verb(line);
    lemma_console_lists();
    if listed(console_deny_list(), v) {
        let j = choose|j: int| 0 <= j < console_deny_list().len() && #[trigger] console_deny_list()[j]@
            == v;
        assert(v.len() > 0);
    }
    if listed(console_allow_list(), v) {
        let i = choose|i: int| 0 <= i < console_allow_list().len() && #[trigger] console_allow_list()[i]@
            == v;
        assert(v.len() > 0);
        if listed(console_deny_list(), v) {
            let j = choose|j: int| 0 <= j < console_deny_list().len() && #[trigger] console_deny_list()[j]@
                == v;
            assert(!listed(console_allow_list(), console_deny_list()[j]@));
        }
    }
}

/// Facts about the console lists: every deny word is non-empty and starts
/// with an ASCII lower-case letter, none is the wrapper word, no allowed
/// word is empty, and no word is on both lists.
proof fn lemma_console_lists()
    ensures
        forall|i: int|
            0 <= i < console_deny_list().len() ==> #[trigger] console_deny_list()[i]@.len() > 0
                && 'a' <= console_deny_list()[i]@[0] && console_deny_list()[i]@[0] <= 'z',
        !listed(console_deny_list(), "interpreter-exec"@),
        forall|i: int|
            0 <= i < console_allow_list().len() ==> #[trigger] console_allow_list()[i]@.len() > 0,
        forall|j: int|
            0 <= j < console_deny_list().len() ==> !listed(
                console_allow_list(),
                #[trigger] console_deny_list()[j]@,
            ),
{
    reveal_strlit("shell");
    reveal_strlit("sh");
    reveal_strlit("pipe");
    reveal_strlit("source");
    reveal_strlit("so");
    reveal_strlit("python");
    reveal_strlit("py");
    reveal_strlit("make");
    reveal_strlit("cd");
    reveal_strlit("target");
    reveal_strlit("run");
    reveal_strlit("r");
    reveal_strlit("attach");
    reveal_strlit("file");
    reveal_strlit("add-symbol-file");
    reveal_strlit("dump");
    reveal_strlit("restore");
    reveal_strlit("monitor");
    reveal_strlit("compile");
    reveal_strlit("eval");
    reveal_strlit("quit");
    reveal_strlit("q");
    reveal_strlit("kill");
    reveal_strlit("detach");
    reveal_strlit("info");
    reveal_strlit("i");
    reveal_strlit("thread");
    reveal_strlit("tp");
    reveal_strlit("break");
    reveal_strlit("b");
    reveal_strlit("tbreak");
    reveal_strlit("delete");
    reveal_strlit("d");
    reveal_strlit("disable");
    reveal_strlit("enable");
    reveal_strlit("condition");
    reveal_strlit("clear");
    reveal_strlit("continue");
    reveal_strlit("c");
    reveal_strlit("fg");
    reveal_strlit("step");
    reveal_strlit("s");
    reveal_strlit("stepi");
    reveal_strlit("si");
    reveal_strlit("next");
    reveal_strlit("n");
    reveal_strlit("nexti");
    reveal_strlit("ni");
    reveal_strlit("finish");
    reveal_strlit("fin");
    reveal_strlit("until");
    reveal_strlit("bt");
    reveal_strlit("backtrace");
    reveal_strlit("where");
    reveal_strlit("frame");
    reveal_strlit("f");
    reveal_strlit("up");
    reveal_strlit("down");
    reveal_strlit("print");
    reveal_strlit("p");
    reveal_strlit("x");
    reveal_strlit("disassemble");
    reveal_strlit("disas");
    reveal_strlit("list");
    reveal_strlit("l");
    reveal_strlit("help");
    reveal_strlit("h");
    reveal_strlit("set");
    reveal_strlit("unset");
    reveal_strlit("show");
    reveal_strlit("whatis");
    reveal_strlit("ptype");
    reveal_strlit("display");
    reveal_strlit("undisplay");
    reveal_strlit("interpreter-exec");
    assert forall|i: int| 0 <= i < console_deny_list().len() implies #[trigger] console_deny_list()[i]@
        != "interpreter-exec"@ by {
        assert(console_deny_list()[i]@.len() != 16 || console_deny_list()[i]@[0] != 'i');
    }
    assert forall|i: int, j: int|
        0 <= i < console_allow_list().len() && 0 <= j < console_deny_list().len() implies #[trigger] console_allow_list()[i]@
        != #[trigger] console_deny_list()[j]@ by {
        let w = console_allow_list()[i]@;
        let d = console_deny_list()[j]@;
        if w == d {
            assert(w.len() == d.len() && w[0] == d[0] && w[w.len() - 1] == d[d.len() - 1]);
        }
    }
}

proof fn lemma_unquoted_lower(s: Seq<char>)
    ensures
        unquoted(lower_seq(s)) == lower_seq(unquoted(s)),
{
    let t = trim(s);
    lemma_trim_lower(s);
    if t.len() > 0 {
        lemma_lower_char(t[0]);
        lemma_lower_char(t.last());
    }
    if t.len() >= 2 {
        lemma_lower_subrange(t, 1, t.len() - 1);
        let inner = t.subrange(1, t.len() - 1);
        lemma_unescape_lower(inner, '"');
        lemma_unescape_lower(unescape(inner, '"'), '\'');
    }
}

proof fn lemma_command_verb_lower(line: Seq<char>)
    ensures
        command_verb(lower_seq(line)) == command_verb(line),
{
    lemma_first_word_lower(line);
    lemma_strip_dashes_lower(first_word(line));
    lemma_lower_idempotent(strip_dashes(first_word(line)));
}

proof fn lemma_console_verdict_lower(line: Seq<char>)
    ensures
        console_verdict(lower_seq(line)) == console_verdict(line),
{
    lemma_command_verb_lower(line);
    lemma_trim_lower(line);
    lemma_lower_idempotent(trim(line));
}

proof fn lemma_console_payload_lower(line: Seq<char>)
    ensures
        console_payload(lower_seq(line)) == match console_payload(line) {
            Some(inner) => Some(lower_seq(inner)),
            None => None,
        },
{
    let key = "interpreter-exec"@;
    lemma_lower_idempotent(line);
    match find(lower_seq(line), key) {
        None => {},
        Some(idx) => {
            lemma_find_in_range(lower_seq(line), key, 0);
            let start = idx + key.len();
            lemma_lower_subrange(line, start, line.len() as int);
            let rest = trim_start(line.skip(start));
            lemma_trim_start_lower(line.skip(start));
            lemma_lower_idempotent(rest);
            if starts_with(lower_seq(rest), "console"@) {
                lemma_lower_subrange(rest, "console"@.len() as int, rest.len() as int);
                lemma_trim_start_lower(rest.skip("console"@.len() as int));
                lemma_unquoted_lower(trim_start(rest.skip("console"@.len() as int)));
            } else if starts_with(lower_seq(rest), "--console"@) {
                lemma_lower_subrange(rest, "--console"@.len() as int, rest.len() as int);
                lemma_trim_start_lower(rest.skip("--console"@.len() as int));
                lemma_unquoted_lower(trim_start(rest.skip("--console"@.len() as int)));
            }
        },
    }
}

proof fn lemma_wrapper_word_lower(line: Seq<char>)
    ensures
        is_wrapper_word(first_word(lower_seq(line))) == is_wrapper_word(first_word(line)),
{
    let word = first_word(line);
    lemma_first_word_lower(line);
    lemma_strip_digits_lower(word);
    lemma_strip_dashes_lower(strip_digits(word));
    lemma_lower_idempotent(strip_dashes(strip_digits(word)));
}

/// The verdict ignores ASCII case: two payloads that are equal once
/// lower-cased (such as a line and its upper-case form) get the same verdict.
pub proof fn lemma_verdict_ignores_case(a: Seq<char>, b: Seq<char>)
    requires
        lower_seq(a) == lower_seq(b),
    ensures
        gdb_verdict(a) == gdb_verdict(b),
{
    lemma_verdict_lower(a);
    lemma_verdict_lower(b);
}

proof fn lemma_verdict_lower(raw: Seq<char>)
    ensures
        gdb_verdict(lower_seq(raw)) == gdb_verdict(raw),
{
    let line = trim(raw);
    lemma_trim_lower(raw);
    lemma_console_payload_lower(line);
    lemma_wrapper_word_lower(line);
    lemma_console_verdict_lower(line);
    lemma_command_verb_lower(line);
    if line.len() > 0 {
        lemma_lower_char(line[0]);
        assert(own_verdict(lower_seq(line)) == own_verdict(line));
        match console_payload(line) {
            Some(inner) => lemma_console_verdict_lower(inner),
            None => {},
        }
    }
}

// ---------------------------------------------------------------------------
// Laws on the lists: what each listed command, sent alone, gets.
// ---------------------------------------------------------------------------

proof fn lemma_find_absent(s: Seq<char>, key: Seq<char>, i: int)
    requires
        forall|k: int| i <= k && k + key.len() <= s.len() ==> !#[trigger] occurs_at(s, key, k),
    ensures
        find_from(s, key, i) is None,
    decreases s.len() + 1 - i,
{
    if !(i < 0 || i + key.len() > s.len()) {
        lemma_find_absent(s, key, i + 1);
    }
}

/// A word of ASCII lower-case letters and `-` that starts with a letter or
/// a single `-` before one: it is its own trim, lower case and first word.
proof fn lemma_plain_word(w: Seq<char>)
    requires
        w.len() > 0,
        forall|k: int| 0 <= k < w.len() ==> ('a' <= #[trigger] w[k] && w[k] <= 'z') || w[k] == '-',
    ensures
        trim(w) == w,
        lower_seq(w) == w,
        first_word(w) == w,
{
    assert(!is_ws(w[0]));
    assert(!is_ws(w.last()));
    assert(trim_start(w) == w);
    assert(trim_end(w) == w);
    assert forall|k: int| 0 <= k < w.len() implies !is_ws(#[trigger] w[k]) by {}
    lemma_take_word_at(w, w.len() as int);
    assert(w.take(w.len() as int) =~= w);
    assert(lower_seq(w) =~= w);
}

/// A console word of the allow list, made of ASCII lower-case letters,
/// sent alone, is let through.
proof fn lemma_console_word_allowed(w: Seq<char>)
    requires
        0 < w.len(),
        forall|k: int| 0 <= k < w.len() ==> 'a' <= #[trigger] w[k] && w[k] <= 'z',
        listed(console_allow_list(), w),
    ensures
        gdb_verdict(w) is None,
{
    let key = "interpreter-exec"@;
    lemma_plain_word(w);
    reveal_strlit("interpreter-exec");
    reveal_strlit("set logging");
    reveal_strlit("set startup-with-shell");
    assert forall|k: int| 0 <= k && k + key.len() <= w.len() implies !#[trigger] occurs_at(
        w,
        key,
        k,
    ) by {
        if occurs_at(w, key, k) {
            assert(w.subrange(k, k + 16)[11] == w[k + 11]);
        }
    }
    lemma_find_absent(w, key, 0);
    if starts_with(w, "set logging"@) {
        assert(w.subrange(0, 11)[3] == w[3]);
    }
    if starts_with(w, "set startup-with-shell"@) {
        assert(w.subrange(0, 22)[3] == w[3]);
    }
    assert(strip_dashes(w) == w);
    assert(command_verb(w) == w);
    lemma_console_allowed_iff(w);
}

/// An MI command `-verb` whose verb is on the MI allow list, sent alone, is
/// let through.
proof fn lemma_mi_word_allowed(w: Seq<char>)
    requires
        w.len() >= 2,
        w[0] == '-',
        'a' <= w[1] && w[1] <= 'z',
        forall|k: int| 0 <= k < w.len() ==> ('a' <= #[trigger] w[k] && w[k] <= 'z') || w[k] == '-',
        find(w, "interpreter-exec"@) is None,
        listed(mi_allow_list(), w.drop_first()),
    ensures
        gdb_verdict(w) is None,
{
    lemma_plain_word(w);
    assert(strip_dashes(w.drop_first()) == w.drop_first());
    assert(strip_dashes(w) == w.drop_first());
    lemma_plain_word(w.drop_first());
    assert(command_verb(w) == w.drop_first());
}

/// An MI command `-verb` whose verb is off the MI allow list and is first
/// refused by the MI deny entry `verb` itself, sent alone, is refused with
/// that verb.
proof fn lemma_mi_word_denied(w: Seq<char>)
    requires
        w.len() >= 2,
        w[0] == '-',
        'a' <= w[1] && w[1] <= 'z',
        forall|k: int| 0 <= k < w.len() ==> ('a' <= #[trigger] w[k] && w[k] <= 'z') || w[k] == '-',
        console_payload(w) is None,
        !listed(mi_allow_list(), w.drop_first()),
        first_mi_deny_from(mi_deny_list(), w.drop_first(), 0) == Some(w.drop_first()),
    ensures
        gdb_verdict(w) == Some(w.drop_first()),
{
    lemma_plain_word(w);
    assert(strip_dashes(w.drop_first()) == w.drop_first());
    assert(strip_dashes(w) == w.drop_first());
    lemma_plain_word(w.drop_first());
    assert(command_verb(w) == w.drop_first());
}

/// A console word of the deny list, sent alone, is refused with that word.
proof fn lemma_console_word_denied(w: Seq<char>)
    requires
        0 < w.len(),
        'a' <= w[0] && w[0] <= 'z',
        forall|k: int| 0 <= k < w.len() ==> ('a' <= #[trigger] w[k] && w[k] <= 'z') || w[k] == '-',
        listed(console_deny_list(), w),
    ensures
        gdb_verdict(w) == Some(w),
{
    lemma_plain_word(w);
    assert(strip_dashes(w) == w);
    assert(command_verb(w) == w);
    lemma_console_deny_verb_refused(w);
}



proof fn lemma_console_allow_words_pass_info()
    ensures
        gdb_verdict("info"@) is None,
{
    reveal_strlit("info");
    assert(console_allow_list()[0]@ == "info"@);
    lemma_console_word_allowed("info"@);
}

proof fn lemma_console_allow_words_pass_i()
    ensures
        gdb_verdict("i"@) is None,
{
    reveal_strlit("i");
    assert(console_allow_list()[1]@ == "i"@);
    lemma_console_word_allowed("i"@);
}

proof fn lemma_console_allow_words_pass_thread()
    ensures
        gdb_verdict("thread"@) is None,
{
    reveal_strlit("thread");
    assert(console_allow_list()[2]@ == "thread"@);
    lemma_console_word_allowed("thread"@);
}

proof fn lemma_console_allow_words_pass_tp()
    ensures
        gdb_verdict("tp"@) is None,
{
    reveal_strlit("tp");
    assert(console_allow_list()[3]@ == "tp"@);
    lemma_console_word_allowed("tp"@);
}

proof fn lemma_console_allow_words_pass_break()
    ensures
        gdb_verdict("break"@) is None,
{
    reveal_strlit("break");
    assert(console_allow_list()[4]@ == "break"@);
    lemma_console_word_allowed("break"@);
}

proof fn lemma_console_allow_words_pass_b()
    ensures
        gdb_verdict("b"@) is None,
{
    reveal_strlit("b");
    assert(console_allow_list()[5]@ == "b"@);
    lemma_console_word_allowed("b"@);
}

proof fn lemma_console_allow_words_pass_tbreak()
    ensures
        gdb_verdict("tbreak"@) is None,
{
    reveal_strlit("tbreak");
    assert(console_allow_list()[6]@ == "tbreak"@);
    lemma_console_word_allowed("tbreak"@);
}

proof fn lemma_console_allow_words_pass_delete()
    ensures
        gdb_verdict("delete"@) is None,
{
    reveal_strlit("delete");
    assert(console_allow_list()[7]@ == "delete"@);
    lemma_console_word_allowed("delete"@);
}

proof fn lemma_console_allow_words_pass_d()
    ensures
        gdb_verdict("d"@) is None,
{
    reveal_strlit("d");
    assert(console_allow_list()[8]@ == "d"@);
    lemma_console_word_allowed("d"@);
}

proof fn lemma_console_allow_words_pass_disable()
    ensures
        gdb_verdict("disable"@) is None,
{
    reveal_strlit("disable");
    assert(console_allow_list()[9]@ == "disable"@);
    lemma_console_word_allowed("disable"@);
}

proof fn lemma_console_allow_words_pass_enable()
    ensures
        gdb_verdict("enable"@) is None,
{
    reveal_strlit("enable");
    assert(console_allow_list()[10]@ == "enable"@);
    lemma_console_word_allowed("enable"@);
}

proof fn lemma_console_allow_words_pass_condition()
    ensures
        gdb_verdict("condition"@) is None,
{
    reveal_strlit("condition");
    assert(console_allow_list()[11]@ == "condition"@);
    lemma_console_word_allowed("condition"@);
}

proof fn lemma_console_allow_words_pass_clear()
    ensures
        gdb_verdict("clear"@) is None,
{
    reveal_strlit("clear");
    assert(console_allow_list()[12]@ == "clear"@);
    lemma_console_word_allowed("clear"@);
}

proof fn lemma_console_allow_words_pass_continue()
    ensures
        gdb_verdict("continue"@) is None,
{
    reveal_strlit("continue");
    assert(console_allow_list()[13]@ == "continue"@);
    lemma_console_word_allowed("continue"@);
}

proof fn lemma_console_allow_words_pass_c()
    ensures
        gdb_verdict("c"@) is None,
{
    reveal_strlit("c");
    assert(console_allow_list()[14]@ == "c"@);
    lemma_console_word_allowed("c"@);
}

proof fn lemma_console_allow_words_pass_fg()
    ensures
        gdb_verdict("fg"@) is None,
{
    reveal_strlit("fg");
    assert(console_allow_list()[15]@ == "fg"@);
    lemma_console_word_allowed("fg"@);
}

proof fn lemma_console_allow_words_pass_step()
    ensures
        gdb_verdict("step"@) is None,
{
    reveal_strlit("step");
    assert(console_allow_list()[16]@ == "step"@);
    lemma_console_word_allowed("step"@);
}

proof fn lemma_console_allow_words_pass_s()
    ensures
        gdb_verdict("s"@) is None,
{
    reveal_strlit("s");
    assert(console_allow_list()[17]@ == "s"@);
    lemma_console_word_allowed("s"@);
}

proof fn lemma_console_allow_words_pass_stepi()
    ensures
        gdb_verdict("stepi"@) is None,
{
    reveal_strlit("stepi");
    assert(console_allow_list()[18]@ == "stepi"@);
    lemma_console_word_allowed("stepi"@);
}

proof fn lemma_console_allow_words_pass_si()
    ensures
        gdb_verdict("si"@) is None,
{
    reveal_strlit("si");
    assert(console_allow_list()[19]@ == "si"@);
    lemma_console_word_allowed("si"@);
}

proof fn lemma_console_allow_words_pass_next()
    ensures
        gdb_verdict("next"@) is None,
{
    reveal_strlit("next");
    assert(console_allow_list()[20]@ == "next"@);
    lemma_console_word_allowed("next"@);
}

proof fn lemma_console_allow_words_pass_n()
    ensures
        gdb_verdict("n"@) is None,
{
    reveal_strlit("n");
    assert(console_allow_list()[21]@ == "n"@);
    lemma_console_word_allowed("n"@);
}

proof fn lemma_console_allow_words_pass_nexti()
    ensures
        gdb_verdict("nexti"@) is None,
{
    reveal_strlit("nexti");
    assert(console_allow_list()[22]@ == "nexti"@);
    lemma_console_word_allowed("nexti"@);
}

proof fn lemma_console_allow_words_pass_ni()
    ensures
        gdb_verdict("ni"@) is None,
{
    reveal_strlit("ni");
    assert(console_allow_list()[23]@ == "ni"@);
    lemma_console_word_allowed("ni"@);
}

proof fn lemma_console_allow_words_pass_finish()
    ensures
        gdb_verdict("finish"@) is None,
{
    reveal_strlit("finish");
    assert(console_allow_list()[24]@ == "finish"@);
    lemma_console_word_allowed("finish"@);
}

proof fn lemma_console_allow_words_pass_fin()
    ensures
        gdb_verdict("fin"@) is None,
{
    reveal_strlit("fin");
    assert(console_allow_list()[25]@ == "fin"@);
    lemma_console_word_allowed("fin"@);
}

proof fn lemma_console_allow_words_pass_until()
    ensures
        gdb_verdict("until"@) is None,
{
    reveal_strlit("until");
    assert(console_allow_list()[26]@ == "until"@);
    lemma_console_word_allowed("until"@);
}

proof fn lemma_console_allow_words_pass_bt()
    ensures
        gdb_verdict("bt"@) is None,
{
    reveal_strlit("bt");
    assert(console_allow_list()[27]@ == "bt"@);
    lemma_console_word_allowed("bt"@);
}

proof fn lemma_console_allow_words_pass_backtrace()
    ensures
        gdb_verdict("backtrace"@) is None,
{
    reveal_strlit("backtrace");
    assert(console_allow_list()[28]@ == "backtrace"@);
    lemma_console_word_allowed("backtrace"@);
}

proof fn lemma_console_allow_words_pass_where()
    ensures
        gdb_verdict("where"@) is None,
{
    reveal_strlit("where");
    assert(console_allow_list()[29]@ == "where"@);
    lemma_console_word_allowed("where"@);
}

proof fn lemma_console_allow_words_pass_frame()
    ensures
        gdb_verdict("frame"@) is None,
{
    reveal_strlit("frame");
    assert(console_allow_list()[30]@ == "frame"@);
    lemma_console_word_allowed("frame"@);
}

proof fn lemma_console_allow_words_pass_f()
    ensures
        gdb_verdict("f"@) is None,
{
    reveal_strlit("f");
    assert(console_allow_list()[31]@ == "f"@);
    lemma_console_word_allowed("f"@);
}

proof fn lemma_console_allow_words_pass_up()
    ensures
        gdb_verdict("up"@) is None,
{
    reveal_strlit("up");
    assert(console_allow_list()[32]@ == "up"@);
    lemma_console_word_allowed("up"@);
}

proof fn lemma_console_allow_words_pass_down()
    ensures
        gdb_verdict("down"@) is None,
{
    reveal_strlit("down");
    assert(console_allow_list()[33]@ == "down"@);
    lemma_console_word_allowed("down"@);
}

proof fn lemma_console_allow_words_pass_print()
    ensures
        gdb_verdict("print"@) is None,
{
    reveal_strlit("print");
    assert(console_allow_list()[34]@ == "print"@);
    lemma_console_word_allowed("print"@);
}

proof fn lemma_console_allow_words_pass_p()
    ensures
        gdb_verdict("p"@) is None,
{
    reveal_strlit("p");
    assert(console_allow_list()[35]@ == "p"@);
    lemma_console_word_allowed("p"@);
}

proof fn lemma_console_allow_words_pass_x()
    ensures
        gdb_verdict("x"@) is None,
{
    reveal_strlit("x");
    assert(console_allow_list()[36]@ == "x"@);
    lemma_console_word_allowed("x"@);
}

proof fn lemma_console_allow_words_pass_disassemble()
    ensures
        gdb_verdict("disassemble"@) is None,
{
    reveal_strlit("disassemble");
    assert(console_allow_list()[37]@ == "disassemble"@);
    lemma_console_word_allowed("disassemble"@);
}

proof fn lemma_console_allow_words_pass_disas()
    ensures
        gdb_verdict("disas"@) is None,
{
    reveal_strlit("disas");
    assert(console_allow_list()[38]@ == "disas"@);
    lemma_console_word_allowed("disas"@);
}

proof fn lemma_console_allow_words_pass_list()
    ensures
        gdb_verdict("list"@) is None,
{
    reveal_strlit("list");
    assert(console_allow_list()[39]@ == "list"@);
    lemma_console_word_allowed("list"@);
}

proof fn lemma_console_allow_words_pass_l()
    ensures
        gdb_verdict("l"@) is None,
{
    reveal_strlit("l");
    assert(console_allow_list()[40]@ == "l"@);
    lemma_console_word_allowed("l"@);
}

proof fn lemma_console_allow_words_pass_help()
    ensures
        gdb_verdict("help"@) is None,
{
    reveal_strlit("help");
    assert(console_allow_list()[41]@ == "help"@);
    lemma_console_word_allowed("help"@);
}

proof fn lemma_console_allow_words_pass_h()
    ensures
        gdb_verdict("h"@) is None,
{
    reveal_strlit("h");
    assert(console_allow_list()[42]@ == "h"@);
    lemma_console_word_allowed("h"@);
}

proof fn lemma_console_allow_words_pass_set()
    ensures
        gdb_verdict("set"@) is None,
{
    reveal_strlit("set");
    assert(console_allow_list()[43]@ == "set"@);
    lemma_console_word_allowed("set"@);
}

proof fn lemma_console_allow_words_pass_unset()
    ensures
        gdb_verdict("unset"@) is None,
{
    reveal_strlit("unset");
    assert(console_allow_list()[44]@ == "unset"@);
    lemma_console_word_allowed("unset"@);
}

proof fn lemma_console_allow_words_pass_show()
    ensures
        gdb_verdict("show"@) is None,
{
    reveal_strlit("show");
    assert(console_allow_list()[45]@ == "show"@);
    lemma_console_word_allowed("show"@);
}

proof fn lemma_console_allow_words_pass_whatis()
    ensures
        gdb_verdict("whatis"@) is None,
{
    reveal_strlit("whatis");
    assert(console_allow_list()[46]@ == "whatis"@);
    lemma_console_word_allowed("whatis"@);
}

proof fn lemma_console_allow_words_pass_ptype()
    ensures
        gdb_verdict("ptype"@) is None,
{
    reveal_strlit("ptype");
    assert(console_allow_list()[47]@ == "ptype"@);
    lemma_console_word_allowed("ptype"@);
}

proof fn lemma_console_allow_words_pass_display()
    ensures
        gdb_verdict("display"@) is None,
{
    reveal_strlit("display");
    assert(console_allow_list()[48]@ == "display"@);
    lemma_console_word_allowed("display"@);
}

proof fn lemma_console_allow_words_pass_undisplay()
    ensures
        gdb_verdict("undisplay"@) is None,
{
    reveal_strlit("undisplay");
    assert(console_allow_list()[49]@ == "undisplay"@);
    lemma_console_word_allowed("undisplay"@);
}

/// Every command of the console allow list, sent alone, is let through:
/// `info`, `i`, `thread`, `tp`, `break`, `b`, `tbreak`, `delete`, `d`,
/// `disable`, `enable`, `condition`, `clear`, `continue`, `c`, `fg`, `step`,
/// `s`, `stepi`, `si`, `next`, `n`, `nexti`, `ni`, `finish`, `fin`, `until`,
/// `bt`, `backtrace`, `where`, `frame`, `f`, `up`, `down`, `print`, `p`, `x`,
/// `disassemble`, `disas`, `list`, `l`, `help`, `h`, `set`, `unset`, `show`,
/// `whatis`, `ptype`, `display`, `undisplay`.
pub proof fn lemma_console_allow_words_pass()
    ensures
        gdb_verdict("info"@) is None,
        gdb_verdict("i"@) is None,
        gdb_verdict("thread"@) is None,
        gdb_verdict("tp"@) is None,
        gdb_verdict("break"@) is None,
        gdb_verdict("b"@) is None,
        gdb_verdict("tbreak"@) is None,
        gdb_verdict("delete"@) is None,
        gdb_verdict("d"@) is None,
        gdb_verdict("disable"@) is None,
        gdb_verdict("enable"@) is None,
        gdb_verdict("condition"@) is None,
        gdb_verdict("clear"@) is None,
        gdb_verdict("continue"@) is None,
        gdb_verdict("c"@) is None,
        gdb_verdict("fg"@) is None,
        gdb_verdict("step"@) is None,
        gdb_verdict("s"@) is None,
        gdb_verdict("stepi"@) is None,
        gdb_verdict("si"@) is None,
        gdb_verdict("next"@) is None,
        gdb_verdict("n"@) is None,
        gdb_verdict("nexti"@) is None,
        gdb_verdict("ni"@) is None,
        gdb_verdict("finish"@) is None,
        gdb_verdict("fin"@) is None,
        gdb_verdict("until"@) is None,
        gdb_verdict("bt"@) is None,
        gdb_verdict("backtrace"@) is None,
        gdb_verdict("where"@) is None,
        gdb_verdict("frame"@) is None,
        gdb_verdict("f"@) is None,
        gdb_verdict("up"@) is None,
        gdb_verdict("down"@) is None,
        gdb_verdict("print"@) is None,
        gdb_verdict("p"@) is None,
        gdb_verdict("x"@) is None,
        gdb_verdict("disassemble"@) is None,
        gdb_verdict("disas"@) is None,
        gdb_verdict("list"@) is None,
        gdb_verdict("l"@) is None,
        gdb_verdict("help"@) is None,
        gdb_verdict("h"@) is None,
        gdb_verdict("set"@) is None,
        gdb_verdict("unset"@) is None,
        gdb_verdict("show"@) is None,
        gdb_verdict("whatis"@) is None,
        gdb_verdict("ptype"@) is None,
        gdb_verdict("display"@) is None,
        gdb_verdict("undisplay"@) is None,
{
    lemma_console_allow_words_pass_info();
    lemma_console_allow_words_pass_i();
    lemma_console_allow_words_pass_thread();
    lemma_console_allow_words_pass_tp();
    lemma_console_allow_words_pass_break();
    lemma_console_allow_words_pass_b();
    lemma_console_allow_words_pass_tbreak();
    lemma_console_allow_words_pass_delete();
    lemma_console_allow_words_pass_d();
    lemma_console_allow_words_pass_disable();
    lemma_console_allow_words_pass_enable();
    lemma_console_allow_words_pass_condition();
    lemma_console_allow_words_pass_clear();
    lemma_console_allow_words_pass_continue();
    lemma_console_allow_words_pass_c();
    lemma_console_allow_words_pass_fg();
    lemma_console_allow_words_pass_step();
    lemma_console_allow_words_pass_s();
    lemma_console_allow_words_pass_stepi();
    lemma_console_allow_words_pass_si();
    lemma_console_allow_words_pass_next();
    lemma_console_allow_words_pass_n();
    lemma_console_allow_words_pass_nexti();
    lemma_console_allow_words_pass_ni();
    lemma_console_allow_words_pass_finish();
    lemma_console_allow_words_pass_fin();
    lemma_console_allow_words_pass_until();
    lemma_console_allow_words_pass_bt();
    lemma_console_allow_words_pass_backtrace();
    lemma_console_allow_words_pass_where();
    lemma_console_allow_words_pass_frame();
    lemma_console_allow_words_pass_f();
    lemma_console_allow_words_pass_up();
    lemma_console_allow_words_pass_down();
    lemma_console_allow_words_pass_print();
    lemma_console_allow_words_pass_p();
    lemma_console_allow_words_pass_x();
    lemma_console_allow_words_pass_disassemble();
    lemma_console_allow_words_pass_disas();
    lemma_console_allow_words_pass_list();
    lemma_console_allow_words_pass_l();
    lemma_console_allow_words_pass_help();
    lemma_console_allow_words_pass_h();
    lemma_console_allow_words_pass_set();
    lemma_console_allow_words_pass_unset();
    lemma_console_allow_words_pass_show();
    lemma_console_allow_words_pass_whatis();
    lemma_console_allow_words_pass_ptype();
    lemma_console_allow_words_pass_display();
    lemma_console_allow_words_pass_undisplay();
}

proof fn lemma_mi_allow_words_pass_exec_continue()
    ensures
        gdb_verdict("-exec-continue"@) is None,
{
    reveal_strlit("exec-continue");
    reveal_strlit("-exec-continue");
    assert(mi_allow_list()[0]@ =~= "-exec-continue"@.drop_first());
    reveal_strlit("interpreter-exec");
    assert(find("-exec-continue"@, "interpreter-exec"@) is None);
    lemma_mi_word_allowed("-exec-continue"@);
}

proof fn lemma_mi_allow_words_pass_exec_step()
    ensures
        gdb_verdict("-exec-step"@) is None,
{
    reveal_strlit("exec-step");
    reveal_strlit("-exec-step");
    assert(mi_allow_list()[1]@ =~= "-exec-step"@.drop_first());
    reveal_strlit("interpreter-exec");
    assert(find("-exec-step"@, "interpreter-exec"@) is None);
    lemma_mi_word_allowed("-exec-step"@);
}

proof fn lemma_mi_allow_words_pass_exec_next()
    ensures
        gdb_verdict("-exec-next"@) is None,
{
    reveal_strlit("exec-next");
    reveal_strlit("-exec-next");
    assert(mi_allow_list()[2]@ =~= "-exec-next"@.drop_first());
    reveal_strlit("interpreter-exec");
    assert(find("-exec-next"@, "interpreter-exec"@) is None);
    lemma_mi_word_allowed("-exec-next"@);
}

proof fn lemma_mi_allow_words_pass_exec_finish()
    ensures
        gdb_verdict("-exec-finish"@) is None,
{
    reveal_strlit("exec-finish");
    reveal_strlit("-exec-finish");
    assert(mi_allow_list()[3]@ =~= "-exec-finish"@.drop_first());
    reveal_strlit("interpreter-exec");
    assert(find("-exec-finish"@, "interpreter-exec"@) is None);
    lemma_mi_word_allowed("-exec-finish"@);
}

proof fn lemma_mi_allow_words_pass_exec_interrupt()
    ensures
        gdb_verdict("-exec-interrupt"@) is None,
{
    reveal_strlit("exec-interrupt");
    reveal_strlit("-exec-interrupt");
    assert(mi_allow_list()[4]@ =~= "-exec-interrupt"@.drop_first());
    reveal_strlit("interpreter-exec");
    assert(find("-exec-interrupt"@, "interpreter-exec"@) is None);
    lemma_mi_word_allowed("-exec-interrupt"@);
}

proof fn lemma_mi_allow_words_pass_exec_step_instruction()
    ensures
        gdb_verdict("-exec-step-instruction"@) is None,
{
    reveal_strlit("exec-step-instruction");
    reveal_strlit("-exec-step-instruction");
    assert(mi_allow_list()[5]@ =~= "-exec-step-instruction"@.drop_first());
    reveal_strlit("interpreter-exec");
    assert(find_from("-exec-step-instruction"@, "interpreter-exec"@, 7) is None);
    assert("-exec-step-instruction"@.subrange(6, 22)[0] == "-exec-step-instruction"@[6]);
    assert(find_from("-exec-step-instruction"@, "interpreter-exec"@, 6) is None);
    assert("-exec-step-instruction"@.subrange(5, 21)[0] == "-exec-step-instruction"@[5]);
    assert(find_from("-exec-step-instruction"@, "interpreter-exec"@, 5) is None);
    assert("-exec-step-instruction"@.subrange(4, 20)[0] == "-exec-step-instruction"@[4]);
    assert(find_from("-exec-step-instruction"@, "interpreter-exec"@, 4) is None);
    assert("-exec-step-instruction"@.subrange(3, 19)[0] == "-exec-step-instruction"@[3]);
    assert(find_from("-exec-step-instruction"@, "interpreter-exec"@, 3) is None);
    assert("-exec-step-instruction"@.subrange(2, 18)[0] == "-exec-step-instruction"@[2]);
    assert(find_from("-exec-step-instruction"@, "interpreter-exec"@, 2) is None);
    assert("-exec-step-instruction"@.subrange(1, 17)[0] == "-exec-step-instruction"@[1]);
    assert(find_from("-exec-step-instruction"@, "interpreter-exec"@, 1) is None);
    assert("-exec-step-instruction"@.subrange(0, 16)[0] == "-exec-step-instruction"@[0]);
    assert(find_from("-exec-step-instruction"@, "interpreter-exec"@, 0) is None);
    lemma_mi_word_allowed("-exec-step-instruction"@);
}

proof fn lemma_mi_allow_words_pass_exec_next_instruction()
    ensures
        gdb_verdict("-exec-next-instruction"@) is None,
{
    reveal_strlit("exec-next-instruction");
    reveal_strlit("-exec-next-instruction");
    assert(mi_allow_list()[6]@ =~= "-exec-next-instruction"@.drop_first());
    reveal_strlit("interpreter-exec");
    assert(find_from("-exec-next-instruction"@, "interpreter-exec"@, 7) is None);
    assert("-exec-next-instruction"@.subrange(6, 22)[0] == "-exec-next-instruction"@[6]);
    assert(find_from("-exec-next-instruction"@, "interpreter-exec"@, 6) is None);
    assert("-exec-next-instruction"@.subrange(5, 21)[0] == "-exec-next-instruction"@[5]);
    assert(find_from("-exec-next-instruction"@, "interpreter-exec"@, 5) is None);
    assert("-exec-next-instruction"@.subrange(4, 20)[0] == "-exec-next-instruction"@[4]);
    assert(find_from("-exec-next-instruction"@, "interpreter-exec"@, 4) is None);
    assert("-exec-next-instruction"@.subrange(3, 19)[0] == "-exec-next-instruction"@[3]);
    assert(find_from("-exec-next-instruction"@, "interpreter-exec"@, 3) is None);
    assert("-exec-next-instruction"@.subrange(2, 18)[0] == "-exec-next-instruction"@[2]);
    assert(find_from("-exec-next-instruction"@, "interpreter-exec"@, 2) is None);
    assert("-exec-next-instruction"@.subrange(1, 17)[0] == "-exec-next-instruction"@[1]);
    assert(find_from("-exec-next-instruction"@, "interpreter-exec"@, 1) is None);
    assert("-exec-next-instruction"@.subrange(0, 16)[0] == "-exec-next-instruction"@[0]);
    assert(find_from("-exec-next-instruction"@, "interpreter-exec"@, 0) is None);
    lemma_mi_word_allowed("-exec-next-instruction"@);
}

proof fn lemma_mi_allow_words_pass_break_insert()
    ensures
        gdb_verdict("-break-insert"@) is None,
{
    reveal_strlit("break-insert");
    reveal_strlit("-break-insert");
    assert(mi_allow_list()[7]@ =~= "-break-insert"@.drop_first());
    reveal_strlit("interpreter-exec");
    assert(find("-break-insert"@, "interpreter-exec"@) is None);
    lemma_mi_word_allowed("-break-insert"@);
}

proof fn lemma_mi_allow_words_pass_break_delete()
    ensures
        gdb_verdict("-break-delete"@) is None,
{
    reveal_strlit("break-delete");
    reveal_strlit("-break-delete");
    assert(mi_allow_list()[8]@ =~= "-break-delete"@.drop_first());
    reveal_strlit("interpreter-exec");
    assert(find("-break-delete"@, "interpreter-exec"@) is None);
    lemma_mi_word_allowed("-break-delete"@);
}

proof fn lemma_mi_allow_words_pass_break_list()
    ensures
        gdb_verdict("-break-list"@) is None,
{
    reveal_strlit("break-list");
    reveal_strlit("-break-list");
    assert(mi_allow_list()[9]@ =~= "-break-list"@.drop_first());
    reveal_strlit("interpreter-exec");
    assert(find("-break-list"@, "interpreter-exec"@) is None);
    lemma_mi_word_allowed("-break-list"@);
}

proof fn lemma_mi_allow_words_pass_break_disable()
    ensures
        gdb_verdict("-break-disable"@) is None,
{
    reveal_strlit("break-disable");
    reveal_strlit("-break-disable");
    assert(mi_allow_list()[10]@ =~= "-break-disable"@.drop_first());
    reveal_strlit("interpreter-exec");
    assert(find("-break-disable"@, "interpreter-exec"@) is None);
    lemma_mi_word_allowed("-break-disable"@);
}

proof fn lemma_mi_allow_words_pass_break_enable()
    ensures
        gdb_verdict("-break-enable"@) is None,
{
    reveal_strlit("break-enable");
    reveal_strlit("-break-enable");
    assert(mi_allow_list()[11]@ =~= "-break-enable"@.drop_first());
    reveal_strlit("interpreter-exec");
    assert(find("-break-enable"@, "interpreter-exec"@) is None);
    lemma_mi_word_allowed("-break-enable"@);
}

proof fn lemma_mi_allow_words_pass_thread_info()
    ensures
        gdb_verdict("-thread-info"@) is None,
{
    reveal_strlit("thread-info");
    reveal_strlit("-thread-info");
    assert(mi_allow_list()[12]@ =~= "-thread-info"@.drop_first());
    reveal_strlit("interpreter-exec");
    assert(find("-thread-info"@, "interpreter-exec"@) is None);
    lemma_mi_word_allowed("-thread-info"@);
}

proof fn lemma_mi_allow_words_pass_thread_select()
    ensures
        gdb_verdict("-thread-select"@) is None,
{
    reveal_strlit("thread-select");
    reveal_strlit("-thread-select");
    assert(mi_allow_list()[13]@ =~= "-thread-select"@.drop_first());
    reveal_strlit("interpreter-exec");
    assert(find("-thread-select"@, "interpreter-exec"@) is None);
    lemma_mi_word_allowed("-thread-select"@);
}

proof fn lemma_mi_allow_words_pass_stack_list_frames()
    ensures
        gdb_verdict("-stack-list-frames"@) is None,
{
    reveal_strlit("stack-list-frames");
    reveal_strlit("-stack-list-frames");
    assert(mi_allow_list()[14]@ =~= "-stack-list-frames"@.drop_first());
    reveal_strlit("interpreter-exec");
    assert(find_from("-stack-list-frames"@, "interpreter-exec"@, 3) is None);
    assert("-stack-list-frames"@.subrange(2, 18)[0] == "-stack-list-frames"@[2]);
    assert(find_from("-stack-list-frames"@, "interpreter-exec"@, 2) is None);
    assert("-stack-list-frames"@.subrange(1, 17)[0] == "-stack-list-frames"@[1]);
    assert(find_from("-stack-list-frames"@, "interpreter-exec"@, 1) is None);
    assert("-stack-list-frames"@.subrange(0, 16)[0] == "-stack-list-frames"@[0]);
    assert(find_from("-stack-list-frames"@, "interpreter-exec"@, 0) is None);
    lemma_mi_word_allowed("-stack-list-frames"@);
}

proof fn lemma_mi_allow_words_pass_stack_info_frame()
    ensures
        gdb_verdict("-stack-info-frame"@) is None,
{
    reveal_strlit("stack-info-frame");
    reveal_strlit("-stack-info-frame");
    assert(mi_allow_list()[15]@ =~= "-stack-info-frame"@.drop_first());
    reveal_strlit("interpreter-exec");
    assert(find_from("-stack-info-frame"@, "interpreter-exec"@, 2) is None);
    assert("-stack-info-frame"@.subrange(1, 17)[0] == "-stack-info-frame"@[1]);
    assert(find_from("-stack-info-frame"@, "interpreter-exec"@, 1) is None);
    assert("-stack-info-frame"@.subrange(0, 16)[0] == "-stack-info-frame"@[0]);
    assert(find_from("-stack-info-frame"@, "interpreter-exec"@, 0) is None);
    lemma_mi_word_allowed("-stack-info-frame"@);
}

proof fn lemma_mi_allow_words_pass_stack_list_variables()
    ensures
        gdb_verdict("-stack-list-variables"@) is None,
{
    reveal_strlit("stack-list-variables");
    reveal_strlit("-stack-list-variables");
    assert(mi_allow_list()[16]@ =~= "-stack-list-variables"@.drop_first());
    reveal_strlit("interpreter-exec");
    assert(find_from("-stack-list-variables"@, "interpreter-exec"@, 6) is None);
    assert("-stack-list-variables"@.subrange(5, 21)[0] == "-stack-list-variables"@[5]);
    assert(find_from("-stack-list-variables"@, "interpreter-exec"@, 5) is None);
    assert("-stack-list-variables"@.subrange(4, 20)[0] == "-stack-list-variables"@[4]);
    assert(find_from("-stack-list-variables"@, "interpreter-exec"@, 4) is None);
    assert("-stack-list-variables"@.subrange(3, 19)[0] == "-stack-list-variables"@[3]);
    assert(find_from("-stack-list-variables"@, "interpreter-exec"@, 3) is None);
    assert("-stack-list-variables"@.subrange(2, 18)[0] == "-stack-list-variables"@[2]);
    assert(find_from("-stack-list-variables"@, "interpreter-exec"@, 2) is None);
    assert("-stack-list-variables"@.subrange(1, 17)[0] == "-stack-list-variables"@[1]);
    assert(find_from("-stack-list-variables"@, "interpreter-exec"@, 1) is None);
    assert("-stack-list-variables"@.subrange(0, 16)[0] == "-stack-list-variables"@[0]);
    assert(find_from("-stack-list-variables"@, "interpreter-exec"@, 0) is None);
    lemma_mi_word_allowed("-stack-list-variables"@);
}

proof fn lemma_mi_allow_words_pass_stack_list_locals()
    ensures
        gdb_verdict("-stack-list-locals"@) is None,
{
    reveal_strlit("stack-list-locals");
    reveal_strlit("-stack-list-locals");
    assert(mi_allow_list()[17]@ =~= "-stack-list-locals"@.drop_first());
    reveal_strlit("interpreter-exec");
    assert(find_from("-stack-list-locals"@, "interpreter-exec"@, 3) is None);
    assert("-stack-list-locals"@.subrange(2, 18)[0] == "-stack-list-locals"@[2]);
    assert(find_from("-stack-list-locals"@, "interpreter-exec"@, 2) is None);
    assert("-stack-list-locals"@.subrange(1, 17)[0] == "-stack-list-locals"@[1]);
    assert(find_from("-stack-list-locals"@, "interpreter-exec"@, 1) is None);
    assert("-stack-list-locals"@.subrange(0, 16)[0] == "-stack-list-locals"@[0]);
    assert(find_from("-stack-list-locals"@, "interpreter-exec"@, 0) is None);
    lemma_mi_word_allowed("-stack-list-locals"@);
}

proof fn lemma_mi_allow_words_pass_data_list_register_values()
    ensures
        gdb_verdict("-data-list-register-values"@) is None,
{
    reveal_strlit("data-list-register-values");
    reveal_strlit("-data-list-register-values");
    assert(mi_allow_list()[18]@ =~= "-data-list-register-values"@.drop_first());
    reveal_strlit("interpreter-exec");
    assert(find_from("-data-list-register-values"@, "interpreter-exec"@, 11) is None);
    assert("-data-list-register-values"@.subrange(10, 26)[0] == "-data-list-register-values"@[10]);
    assert(find_from("-data-list-register-values"@, "interpreter-exec"@, 10) is None);
    assert("-data-list-register-values"@.subrange(9, 25)[0] == "-data-list-register-values"@[9]);
    assert(find_from("-data-list-register-values"@, "interpreter-exec"@, 9) is None);
    assert("-data-list-register-values"@.subrange(8, 24)[0] == "-data-list-register-values"@[8]);
    assert(find_from("-data-list-register-values"@, "interpreter-exec"@, 8) is None);
    assert("-data-list-register-values"@.subrange(7, 23)[1] == "-data-list-register-values"@[8]);
    assert(find_from("-data-list-register-values"@, "interpreter-exec"@, 7) is None);
    assert("-data-list-register-values"@.subrange(6, 22)[0] == "-data-list-register-values"@[6]);
    assert(find_from("-data-list-register-values"@, "interpreter-exec"@, 6) is None);
    assert("-data-list-register-values"@.subrange(5, 21)[0] == "-data-list-register-values"@[5]);
    assert(find_from("-data-list-register-values"@, "interpreter-exec"@, 5) is None);
    assert("-data-list-register-values"@.subrange(4, 20)[0] == "-data-list-register-values"@[4]);
    assert(find_from("-data-list-register-values"@, "interpreter-exec"@, 4) is None);
    assert("-data-list-register-values"@.subrange(3, 19)[0] == "-data-list-register-values"@[3]);
    assert(find_from("-data-list-register-values"@, "interpreter-exec"@, 3) is None);
    assert("-data-list-register-values"@.subrange(2, 18)[0] == "-data-list-register-values"@[2]);
    assert(find_from("-data-list-register-values"@, "interpreter-exec"@, 2) is None);
    assert("-data-list-register-values"@.subrange(1, 17)[0] == "-data-list-register-values"@[1]);
    assert(find_from("-data-list-register-values"@, "interpreter-exec"@, 1) is None);
    assert("-data-list-register-values"@.subrange(0, 16)[0] == "-data-list-register-values"@[0]);
    assert(find_from("-data-list-register-values"@, "interpreter-exec"@, 0) is None);
    lemma_mi_word_allowed("-data-list-register-values"@);
}

proof fn lemma_mi_allow_words_pass_data_list_register_names()
    ensures
        gdb_verdict("-data-list-register-names"@) is None,
{
    reveal_strlit("data-list-register-names");
    reveal_strlit("-data-list-register-names");
    assert(mi_allow_list()[19]@ =~= "-data-list-register-names"@.drop_first());
    reveal_strlit("interpreter-exec");
    assert(find_from("-data-list-register-names"@, "interpreter-exec"@, 10) is None);
    assert("-data-list-register-names"@.subrange(9, 25)[0] == "-data-list-register-names"@[9]);
    assert(find_from("-data-list-register-names"@, "interpreter-exec"@, 9) is None);
    assert("-data-list-register-names"@.subrange(8, 24)[0] == "-data-list-register-names"@[8]);
    assert(find_from("-data-list-register-names"@, "interpreter-exec"@, 8) is None);
    assert("-data-list-register-names"@.subrange(7, 23)[1] == "-data-list-register-names"@[8]);
    assert(find_from("-data-list-register-names"@, "interpreter-exec"@, 7) is None);
    assert("-data-list-register-names"@.subrange(6, 22)[0] == "-data-list-register-names"@[6]);
    assert(find_from("-data-list-register-names"@, "interpreter-exec"@, 6) is None);
    assert("-data-list-register-names"@.subrange(5, 21)[0] == "-data-list-register-names"@[5]);
    assert(find_from("-data-list-register-names"@, "interpreter-exec"@, 5) is None);
    assert("-data-list-register-names"@.subrange(4, 20)[0] == "-data-list-register-names"@[4]);
    assert(find_from("-data-list-register-names"@, "interpreter-exec"@, 4) is None);
    assert("-data-list-register-names"@.subrange(3, 19)[0] == "-data-list-register-names"@[3]);
    assert(find_from("-data-list-register-names"@, "interpreter-exec"@, 3) is None);
    assert("-data-list-register-names"@.subrange(2, 18)[0] == "-data-list-register-names"@[2]);
    assert(find_from("-data-list-register-names"@, "interpreter-exec"@, 2) is None);
    assert("-data-list-register-names"@.subrange(1, 17)[0] == "-data-list-register-names"@[1]);
    assert(find_from("-data-list-register-names"@, "interpreter-exec"@, 1) is None);
    assert("-data-list-register-names"@.subrange(0, 16)[0] == "-data-list-register-names"@[0]);
    assert(find_from("-data-list-register-names"@, "interpreter-exec"@, 0) is None);
    lemma_mi_word_allowed("-data-list-register-names"@);
}

proof fn lemma_mi_allow_words_pass_data_evaluate_expression()
    ensures
        gdb_verdict("-data-evaluate-expression"@) is None,
{
    reveal_strlit("data-evaluate-expression");
    reveal_strlit("-data-evaluate-expression");
    assert(mi_allow_list()[20]@ =~= "-data-evaluate-expression"@.drop_first());
    reveal_strlit("interpreter-exec");
    assert(find_from("-data-evaluate-expression"@, "interpreter-exec"@, 10) is None);
    assert("-data-evaluate-expression"@.subrange(9, 25)[0] == "-data-evaluate-expression"@[9]);
    assert(find_from("-data-evaluate-expression"@, "interpreter-exec"@, 9) is None);
    assert("-data-evaluate-expression"@.subrange(8, 24)[0] == "-data-evaluate-expression"@[8]);
    assert(find_from("-data-evaluate-expression"@, "interpreter-exec"@, 8) is None);
    assert("-data-evaluate-expression"@.subrange(7, 23)[0] == "-data-evaluate-expression"@[7]);
    assert(find_from("-data-evaluate-expression"@, "interpreter-exec"@, 7) is None);
    assert("-data-evaluate-expression"@.subrange(6, 22)[0] == "-data-evaluate-expression"@[6]);
    assert(find_from("-data-evaluate-expression"@, "interpreter-exec"@, 6) is None);
    assert("-data-evaluate-expression"@.subrange(5, 21)[0] == "-data-evaluate-expression"@[5]);
    assert(find_from("-data-evaluate-expression"@, "interpreter-exec"@, 5) is None);
    assert("-data-evaluate-expression"@.subrange(4, 20)[0] == "-data-evaluate-expression"@[4]);
    assert(find_from("-data-evaluate-expression"@, "interpreter-exec"@, 4) is None);
    assert("-data-evaluate-expression"@.subrange(3, 19)[0] == "-data-evaluate-expression"@[3]);
    assert(find_from("-data-evaluate-expression"@, "interpreter-exec"@, 3) is None);
    assert("-data-evaluate-expression"@.subrange(2, 18)[0] == "-data-evaluate-expression"@[2]);
    assert(find_from("-data-evaluate-expression"@, "interpreter-exec"@, 2) is None);
    assert("-data-evaluate-expression"@.subrange(1, 17)[0] == "-data-evaluate-expression"@[1]);
    assert(find_from("-data-evaluate-expression"@, "interpreter-exec"@, 1) is None);
    assert("-data-evaluate-expression"@.subrange(0, 16)[0] == "-data-evaluate-expression"@[0]);
    assert(find_from("-data-evaluate-expression"@, "interpreter-exec"@, 0) is None);
    lemma_mi_word_allowed("-data-evaluate-expression"@);
}

proof fn lemma_mi_allow_words_pass_data_read_memory_bytes()
    ensures
        gdb_verdict("-data-read-memory-bytes"@) is None,
{
    reveal_strlit("data-read-memory-bytes");
    reveal_strlit("-data-read-memory-bytes");
    assert(mi_allow_list()[21]@ =~= "-data-read-memory-bytes"@.drop_first());
    reveal_strlit("interpreter-exec");
    assert(find_from("-data-read-memory-bytes"@, "interpreter-exec"@, 8) is None);
    assert("-data-read-memory-bytes"@.subrange(7, 23)[0] == "-data-read-memory-bytes"@[7]);
    assert(find_from("-data-read-memory-bytes"@, "interpreter-exec"@, 7) is None);
    assert("-data-read-memory-bytes"@.subrange(6, 22)[0] == "-data-read-memory-bytes"@[6]);
    assert(find_from("-data-read-memory-bytes"@, "interpreter-exec"@, 6) is None);
    assert("-data-read-memory-bytes"@.subrange(5, 21)[0] == "-data-read-memory-bytes"@[5]);
    assert(find_from("-data-read-memory-bytes"@, "interpreter-exec"@, 5) is None);
    assert("-data-read-memory-bytes"@.subrange(4, 20)[0] == "-data-read-memory-bytes"@[4]);
    assert(find_from("-data-read-memory-bytes"@, "interpreter-exec"@, 4) is None);
    assert("-data-read-memory-bytes"@.subrange(3, 19)[0] == "-data-read-memory-bytes"@[3]);
    assert(find_from("-data-read-memory-bytes"@, "interpreter-exec"@, 3) is None);
    assert("-data-read-memory-bytes"@.subrange(2, 18)[0] == "-data-read-memory-bytes"@[2]);
    assert(find_from("-data-read-memory-bytes"@, "interpreter-exec"@, 2) is None);
    assert("-data-read-memory-bytes"@.subrange(1, 17)[0] == "-data-read-memory-bytes"@[1]);
    assert(find_from("-data-read-memory-bytes"@, "interpreter-exec"@, 1) is None);
    assert("-data-read-memory-bytes"@.subrange(0, 16)[0] == "-data-read-memory-bytes"@[0]);
    assert(find_from("-data-read-memory-bytes"@, "interpreter-exec"@, 0) is None);
    lemma_mi_word_allowed("-data-read-memory-bytes"@);
}

proof fn lemma_mi_allow_words_pass_data_disassemble()
    ensures
        gdb_verdict("-data-disassemble"@) is None,
{
    reveal_strlit("data-disassemble");
    reveal_strlit("-data-disassemble");
    assert(mi_allow_list()[22]@ =~= "-data-disassemble"@.drop_first());
    reveal_strlit("interpreter-exec");
    assert(find_from("-data-disassemble"@, "interpreter-exec"@, 2) is None);
    assert("-data-disassemble"@.subrange(1, 17)[0] == "-data-disassemble"@[1]);
    assert(find_from("-data-disassemble"@, "interpreter-exec"@, 1) is None);
    assert("-data-disassemble"@.subrange(0, 16)[0] == "-data-disassemble"@[0]);
    assert(find_from("-data-disassemble"@, "interpreter-exec"@, 0) is None);
    lemma_mi_word_allowed("-data-disassemble"@);
}

proof fn lemma_mi_allow_words_pass_file_list_exec_source_file()
    ensures
        gdb_verdict("-file-list-exec-source-file"@) is None,
{
    reveal_strlit("file-list-exec-source-file");
    reveal_strlit("-file-list-exec-source-file");
    assert(mi_allow_list()[23]@ =~= "-file-list-exec-source-file"@.drop_first());
    reveal_strlit("interpreter-exec");
    assert(find_from("-file-list-exec-source-file"@, "interpreter-exec"@, 12) is None);
    assert("-file-list-exec-source-file"@.subrange(11, 27)[0] == "-file-list-exec-source-file"@[11]);
    assert(find_from("-file-list-exec-source-file"@, "interpreter-exec"@, 11) is None);
    assert("-file-list-exec-source-file"@.subrange(10, 26)[0] == "-file-list-exec-source-file"@[10]);
    assert(find_from("-file-list-exec-source-file"@, "interpreter-exec"@, 10) is None);
    assert("-file-list-exec-source-file"@.subrange(9, 25)[0] == "-file-list-exec-source-file"@[9]);
    assert(find_from("-file-list-exec-source-file"@, "interpreter-exec"@, 9) is None);
    assert("-file-list-exec-source-file"@.subrange(8, 24)[0] == "-file-list-exec-source-file"@[8]);
    assert(find_from("-file-list-exec-source-file"@, "interpreter-exec"@, 8) is None);
    assert("-file-list-exec-source-file"@.subrange(7, 23)[1] == "-file-list-exec-source-file"@[8]);
    assert(find_from("-file-list-exec-source-file"@, "interpreter-exec"@, 7) is None);
    assert("-file-list-exec-source-file"@.subrange(6, 22)[0] == "-file-list-exec-source-file"@[6]);
    assert(find_from("-file-list-exec-source-file"@, "interpreter-exec"@, 6) is None);
    assert("-file-list-exec-source-file"@.subrange(5, 21)[0] == "-file-list-exec-source-file"@[5]);
    assert(find_from("-file-list-exec-source-file"@, "interpreter-exec"@, 5) is None);
    assert("-file-list-exec-source-file"@.subrange(4, 20)[0] == "-file-list-exec-source-file"@[4]);
    assert(find_from("-file-list-exec-source-file"@, "interpreter-exec"@, 4) is None);
    assert("-file-list-exec-source-file"@.subrange(3, 19)[0] == "-file-list-exec-source-file"@[3]);
    assert(find_from("-file-list-exec-source-file"@, "interpreter-exec"@, 3) is None);
    assert("-file-list-exec-source-file"@.subrange(2, 18)[1] == "-file-list-exec-source-file"@[3]);
    assert(find_from("-file-list-exec-source-file"@, "interpreter-exec"@, 2) is None);
    assert("-file-list-exec-source-file"@.subrange(1, 17)[0] == "-file-list-exec-source-file"@[1]);
    assert(find_from("-file-list-exec-source-file"@, "interpreter-exec"@, 1) is None);
    assert("-file-list-exec-source-file"@.subrange(0, 16)[0] == "-file-list-exec-source-file"@[0]);
    assert(find_from("-file-list-exec-source-file"@, "interpreter-exec"@, 0) is None);
    lemma_mi_word_allowed("-file-list-exec-source-file"@);
}

proof fn lemma_mi_allow_words_pass_file_list_exec_source_files()
    ensures
        gdb_verdict("-file-list-exec-source-files"@) is None,
{
    reveal_strlit("file-list-exec-source-files");
    reveal_strlit("-file-list-exec-source-files");
    assert(mi_allow_list()[24]@ =~= "-file-list-exec-source-files"@.drop_first());
    reveal_strlit("interpreter-exec");
    assert(find_from("-file-list-exec-source-files"@, "interpreter-exec"@, 13) is None);
    assert("-file-list-exec-source-files"@.subrange(12, 28)[0] == "-file-list-exec-source-files"@[12]);
    assert(find_from("-file-list-exec-source-files"@, "interpreter-exec"@, 12) is None);
    assert("-file-list-exec-source-files"@.subrange(11, 27)[0] == "-file-list-exec-source-files"@[11]);
    assert(find_from("-file-list-exec-source-files"@, "interpreter-exec"@, 11) is None);
    assert("-file-list-exec-source-files"@.subrange(10, 26)[0] == "-file-list-exec-source-files"@[10]);
    assert(find_from("-file-list-exec-source-files"@, "interpreter-exec"@, 10) is None);
    assert("-file-list-exec-source-files"@.subrange(9, 25)[0] == "-file-list-exec-source-files"@[9]);
    assert(find_from("-file-list-exec-source-files"@, "interpreter-exec"@, 9) is None);
    assert("-file-list-exec-source-files"@.subrange(8, 24)[0] == "-file-list-exec-source-files"@[8]);
    assert(find_from("-file-list-exec-source-files"@, "interpreter-exec"@, 8) is None);
    assert("-file-list-exec-source-files"@.subrange(7, 23)[1] == "-file-list-exec-source-files"@[8]);
    assert(find_from("-file-list-exec-source-files"@, "interpreter-exec"@, 7) is None);
    assert("-file-list-exec-source-files"@.subrange(6, 22)[0] == "-file-list-exec-source-files"@[6]);
    assert(find_from("-file-list-exec-source-files"@, "interpreter-exec"@, 6) is None);
    assert("-file-list-exec-source-files"@.subrange(5, 21)[0] == "-file-list-exec-source-files"@[5]);
    assert(find_from("-file-list-exec-source-files"@, "interpreter-exec"@, 5) is None);
    assert("-file-list-exec-source-files"@.subrange(4, 20)[0] == "-file-list-exec-source-files"@[4]);
    assert(find_from("-file-list-exec-source-files"@, "interpreter-exec"@, 4) is None);
    assert("-file-list-exec-source-files"@.subrange(3, 19)[0] == "-file-list-exec-source-files"@[3]);
    assert(find_from("-file-list-exec-source-files"@, "interpreter-exec"@, 3) is None);
    assert("-file-list-exec-source-files"@.subrange(2, 18)[1] == "-file-list-exec-source-files"@[3]);
    assert(find_from("-file-list-exec-source-files"@, "interpreter-exec"@, 2) is None);
    assert("-file-list-exec-source-files"@.subrange(1, 17)[0] == "-file-list-exec-source-files"@[1]);
    assert(find_from("-file-list-exec-source-files"@, "interpreter-exec"@, 1) is None);
    assert("-file-list-exec-source-files"@.subrange(0, 16)[0] == "-file-list-exec-source-files"@[0]);
    assert(find_from("-file-list-exec-source-files"@, "interpreter-exec"@, 0) is None);
    lemma_mi_word_allowed("-file-list-exec-source-files"@);
}

proof fn lemma_mi_allow_words_pass_symbol_list_lines()
    ensures
        gdb_verdict("-symbol-list-lines"@) is None,
{
    reveal_strlit("symbol-list-lines");
    reveal_strlit("-symbol-list-lines");
    assert(mi_allow_list()[25]@ =~= "-symbol-list-lines"@.drop_first());
    reveal_strlit("interpreter-exec");
    assert(find_from("-symbol-list-lines"@, "interpreter-exec"@, 3) is None);
    assert("-symbol-list-lines"@.subrange(2, 18)[0] == "-symbol-list-lines"@[2]);
    assert(find_from("-symbol-list-lines"@, "interpreter-exec"@, 2) is None);
    assert("-symbol-list-lines"@.subrange(1, 17)[0] == "-symbol-list-lines"@[1]);
    assert(find_from("-symbol-list-lines"@, "interpreter-exec"@, 1) is None);
    assert("-symbol-list-lines"@.subrange(0, 16)[0] == "-symbol-list-lines"@[0]);
    assert(find_from("-symbol-list-lines"@, "interpreter-exec"@, 0) is None);
    lemma_mi_word_allowed("-symbol-list-lines"@);
}

proof fn lemma_mi_allow_words_pass_gdb_version()
    ensures
        gdb_verdict("-gdb-version"@) is None,
{
    reveal_strlit("gdb-version");
    reveal_strlit("-gdb-version");
    assert(mi_allow_list()[26]@ =~= "-gdb-version"@.drop_first());
    reveal_strlit("interpreter-exec");
    assert(find("-gdb-version"@, "interpreter-exec"@) is None);
    lemma_mi_word_allowed("-gdb-version"@);
}

proof fn lemma_mi_allow_words_pass_gdb_set()
    ensures
        gdb_verdict("-gdb-set"@) is None,
{
    reveal_strlit("gdb-set");
    reveal_strlit("-gdb-set");
    assert(mi_allow_list()[27]@ =~= "-gdb-set"@.drop_first());
    reveal_strlit("interpreter-exec");
    assert(find("-gdb-set"@, "interpreter-exec"@) is None);
    lemma_mi_word_allowed("-gdb-set"@);
}

proof fn lemma_mi_allow_words_pass_gdb_show()
    ensures
        gdb_verdict("-gdb-show"@) is None,
{
    reveal_strlit("gdb-show");
    reveal_strlit("-gdb-show");
    assert(mi_allow_list()[28]@ =~= "-gdb-show"@.drop_first());
    reveal_strlit("interpreter-exec");
    assert(find("-gdb-show"@, "interpreter-exec"@) is None);
    lemma_mi_word_allowed("-gdb-show"@);
}

/// Every verb of the MI allow list, sent alone as `-verb`, is let through:
/// `-exec-continue`, `-exec-step`, `-exec-next`, `-exec-finish`,
/// `-exec-interrupt`, `-exec-step-instruction`, `-exec-next-instruction`,
/// `-break-insert`, `-break-delete`, `-break-list`, `-break-disable`,
/// `-break-enable`, `-thread-info`, `-thread-select`, `-stack-list-frames`,
/// `-stack-info-frame`, `-stack-list-variables`, `-stack-list-locals`,
/// `-data-list-register-values`, `-data-list-register-names`,
/// `-data-evaluate-expression`, `-data-read-memory-bytes`,
/// `-data-disassemble`, `-file-list-exec-source-file`,
/// `-file-list-exec-source-files`, `-symbol-list-lines`, `-gdb-version`,
/// `-gdb-set`, `-gdb-show`.
pub proof fn lemma_mi_allow_words_pass()
    ensures
        gdb_verdict("-exec-continue"@) is None,
        gdb_verdict("-exec-step"@) is None,
        gdb_verdict("-exec-next"@) is None,
        gdb_verdict("-exec-finish"@) is None,
        gdb_verdict("-exec-interrupt"@) is None,
        gdb_verdict("-exec-step-instruction"@) is None,
        gdb_verdict("-exec-next-instruction"@) is None,
        gdb_verdict("-break-insert"@) is None,
        gdb_verdict("-break-delete"@) is None,
        gdb_verdict("-break-list"@) is None,
        gdb_verdict("-break-disable"@) is None,
        gdb_verdict("-break-enable"@) is None,
        gdb_verdict("-thread-info"@) is None,
        gdb_verdict("-thread-select"@) is None,
        gdb_verdict("-stack-list-frames"@) is None,
        gdb_verdict("-stack-info-frame"@) is None,
        gdb_verdict("-stack-list-variables"@) is None,
        gdb_verdict("-stack-list-locals"@) is None,
        gdb_verdict("-data-list-register-values"@) is None,
        gdb_verdict("-data-list-register-names"@) is None,
        gdb_verdict("-data-evaluate-expression"@) is None,
        gdb_verdict("-data-read-memory-bytes"@) is None,
        gdb_verdict("-data-disassemble"@) is None,
        gdb_verdict("-file-list-exec-source-file"@) is None,
        gdb_verdict("-file-list-exec-source-files"@) is None,
        gdb_verdict("-symbol-list-lines"@) is None,
        gdb_verdict("-gdb-version"@) is None,
        gdb_verdict("-gdb-set"@) is None,
        gdb_verdict("-gdb-show"@) is None,
{
    lemma_mi_allow_words_pass_exec_continue();
    lemma_mi_allow_words_pass_exec_step();
    lemma_mi_allow_words_pass_exec_next();
    lemma_mi_allow_words_pass_exec_finish();
    lemma_mi_allow_words_pass_exec_interrupt();
    lemma_mi_allow_words_pass_exec_step_instruction();
    lemma_mi_allow_words_pass_exec_next_instruction();
    lemma_mi_allow_words_pass_break_insert();
    lemma_mi_allow_words_pass_break_delete();
    lemma_mi_allow_words_pass_break_list();
    lemma_mi_allow_words_pass_break_disable();
    lemma_mi_allow_words_pass_break_enable();
    lemma_mi_allow_words_pass_thread_info();
    lemma_mi_allow_words_pass_thread_select();
    lemma_mi_allow_words_pass_stack_list_frames();
    lemma_mi_allow_words_pass_stack_info_frame();
    lemma_mi_allow_words_pass_stack_list_variables();
    lemma_mi_allow_words_pass_stack_list_locals();
    lemma_mi_allow_words_pass_data_list_register_values();
    lemma_mi_allow_words_pass_data_list_register_names();
    lemma_mi_allow_words_pass_data_evaluate_expression();
    lemma_mi_allow_words_pass_data_read_memory_bytes();
    lemma_mi_allow_words_pass_data_disassemble();
    lemma_mi_allow_words_pass_file_list_exec_source_file();
    lemma_mi_allow_words_pass_file_list_exec_source_files();
    lemma_mi_allow_words_pass_symbol_list_lines();
    lemma_mi_allow_words_pass_gdb_version();
    lemma_mi_allow_words_pass_gdb_set();
    lemma_mi_allow_words_pass_gdb_show();
}

proof fn lemma_console_deny_words_refused_shell()
    ensures
        gdb_verdict("shell"@) == Some("shell"@),
{
    reveal_strlit("shell");
    assert(console_deny_list()[0]@ == "shell"@);
    lemma_console_word_denied("shell"@);
}

proof fn lemma_console_deny_words_refused_sh()
    ensures
        gdb_verdict("sh"@) == Some("sh"@),
{
    reveal_strlit("sh");
    assert(console_deny_list()[1]@ == "sh"@);
    lemma_console_word_denied("sh"@);
}

proof fn lemma_console_deny_words_refused_pipe()
    ensures
        gdb_verdict("pipe"@) == Some("pipe"@),
{
    reveal_strlit("pipe");
    assert(console_deny_list()[2]@ == "pipe"@);
    lemma_console_word_denied("pipe"@);
}

proof fn lemma_console_deny_words_refused_source()
    ensures
        gdb_verdict("source"@) == Some("source"@),
{
    reveal_strlit("source");
    assert(console_deny_list()[3]@ == "source"@);
    lemma_console_word_denied("source"@);
}

proof fn lemma_console_deny_words_refused_so()
    ensures
        gdb_verdict("so"@) == Some("so"@),
{
    reveal_strlit("so");
    assert(console_deny_list()[4]@ == "so"@);
    lemma_console_word_denied("so"@);
}

proof fn lemma_console_deny_words_refused_python()
    ensures
        gdb_verdict("python"@) == Some("python"@),
{
    reveal_strlit("python");
    assert(console_deny_list()[5]@ == "python"@);
    lemma_console_word_denied("python"@);
}

proof fn lemma_console_deny_words_refused_py()
    ensures
        gdb_verdict("py"@) == Some("py"@),
{
    reveal_strlit("py");
    assert(console_deny_list()[6]@ == "py"@);
    lemma_console_word_denied("py"@);
}

proof fn lemma_console_deny_words_refused_make()
    ensures
        gdb_verdict("make"@) == Some("make"@),
{
    reveal_strlit("make");
    assert(console_deny_list()[7]@ == "make"@);
    lemma_console_word_denied("make"@);
}

proof fn lemma_console_deny_words_refused_cd()
    ensures
        gdb_verdict("cd"@) == Some("cd"@),
{
    reveal_strlit("cd");
    assert(console_deny_list()[8]@ == "cd"@);
    lemma_console_word_denied("cd"@);
}

proof fn lemma_console_deny_words_refused_target()
    ensures
        gdb_verdict("target"@) == Some("target"@),
{
    reveal_strlit("target");
    assert(console_deny_list()[9]@ == "target"@);
    lemma_console_word_denied("target"@);
}

proof fn lemma_console_deny_words_refused_run()
    ensures
        gdb_verdict("run"@) == Some("run"@),
{
    reveal_strlit("run");
    assert(console_deny_list()[10]@ == "run"@);
    lemma_console_word_denied("run"@);
}

proof fn lemma_console_deny_words_refused_r()
    ensures
        gdb_verdict("r"@) == Some("r"@),
{
    reveal_strlit("r");
    assert(console_deny_list()[11]@ == "r"@);
    lemma_console_word_denied("r"@);
}

proof fn lemma_console_deny_words_refused_attach()
    ensures
        gdb_verdict("attach"@) == Some("attach"@),
{
    reveal_strlit("attach");
    assert(console_deny_list()[12]@ == "attach"@);
    lemma_console_word_denied("attach"@);
}

proof fn lemma_console_deny_words_refused_file()
    ensures
        gdb_verdict("file"@) == Some("file"@),
{
    reveal_strlit("file");
    assert(console_deny_list()[13]@ == "file"@);
    lemma_console_word_denied("file"@);
}

proof fn lemma_console_deny_words_refused_add_symbol_file()
    ensures
        gdb_verdict("add-symbol-file"@) == Some("add-symbol-file"@),
{
    reveal_strlit("add-symbol-file");
    assert(console_deny_list()[14]@ == "add-symbol-file"@);
    lemma_console_word_denied("add-symbol-file"@);
}

proof fn lemma_console_deny_words_refused_dump()
    ensures
        gdb_verdict("dump"@) == Some("dump"@),
{
    reveal_strlit("dump");
    assert(console_deny_list()[15]@ == "dump"@);
    lemma_console_word_denied("dump"@);
}

proof fn lemma_console_deny_words_refused_restore()
    ensures
        gdb_verdict("restore"@) == Some("restore"@),
{
    reveal_strlit("restore");
    assert(console_deny_list()[16]@ == "restore"@);
    lemma_console_word_denied("restore"@);
}

proof fn lemma_console_deny_words_refused_monitor()
    ensures
        gdb_verdict("monitor"@) == Some("monitor"@),
{
    reveal_strlit("monitor");
    assert(console_deny_list()[17]@ == "monitor"@);
    lemma_console_word_denied("monitor"@);
}

proof fn lemma_console_deny_words_refused_compile()
    ensures
        gdb_verdict("compile"@) == Some("compile"@),
{
    reveal_strlit("compile");
    assert(console_deny_list()[18]@ == "compile"@);
    lemma_console_word_denied("compile"@);
}

proof fn lemma_console_deny_words_refused_eval()
    ensures
        gdb_verdict("eval"@) == Some("eval"@),
{
    reveal_strlit("eval");
    assert(console_deny_list()[19]@ == "eval"@);
    lemma_console_word_denied("eval"@);
}

proof fn lemma_console_deny_words_refused_quit()
    ensures
        gdb_verdict("quit"@) == Some("quit"@),
{
    reveal_strlit("quit");
    assert(console_deny_list()[20]@ == "quit"@);
    lemma_console_word_denied("quit"@);
}

proof fn lemma_console_deny_words_refused_q()
    ensures
        gdb_verdict("q"@) == Some("q"@),
{
    reveal_strlit("q");
    assert(console_deny_list()[21]@ == "q"@);
    lemma_console_word_denied("q"@);
}

proof fn lemma_console_deny_words_refused_kill()
    ensures
        gdb_verdict("kill"@) == Some("kill"@),
{
    reveal_strlit("kill");
    assert(console_deny_list()[22]@ == "kill"@);
    lemma_console_word_denied("kill"@);
}

proof fn lemma_console_deny_words_refused_detach()
    ensures
        gdb_verdict("detach"@) == Some("detach"@),
{
    reveal_strlit("detach");
    assert(console_deny_list()[23]@ == "detach"@);
    lemma_console_word_denied("detach"@);
}

/// Every command of the console deny list, sent alone, is refused with that
/// command as the reason: `shell`, `sh`, `pipe`, `source`, `so`, `python`,
/// `py`, `make`, `cd`, `target`, `run`, `r`, `attach`, `file`,
/// `add-symbol-file`, `dump`, `restore`, `monitor`, `compile`, `eval`,
/// `quit`, `q`, `kill`, `detach`.
pub proof fn lemma_console_deny_words_refused()
    ensures
        gdb_verdict("shell"@) == Some("shell"@),
        gdb_verdict("sh"@) == Some("sh"@),
        gdb_verdict("pipe"@) == Some("pipe"@),
        gdb_verdict("source"@) == Some("source"@),
        gdb_verdict("so"@) == Some("so"@),
        gdb_verdict("python"@) == Some("python"@),
        gdb_verdict("py"@) == Some("py"@),
        gdb_verdict("make"@) == Some("make"@),
        gdb_verdict("cd"@) == Some("cd"@),
        gdb_verdict("target"@) == Some("target"@),
        gdb_verdict("run"@) == Some("run"@),
        gdb_verdict("r"@) == Some("r"@),
        gdb_verdict("attach"@) == Some("attach"@),
        gdb_verdict("file"@) == Some("file"@),
        gdb_verdict("add-symbol-file"@) == Some("add-symbol-file"@),
        gdb_verdict("dump"@) == Some("dump"@),
        gdb_verdict("restore"@) == Some("restore"@),
        gdb_verdict("monitor"@) == Some("monitor"@),
        gdb_verdict("compile"@) == Some("compile"@),
        gdb_verdict("eval"@) == Some("eval"@),
        gdb_verdict("quit"@) == Some("quit"@),
        gdb_verdict("q"@) == Some("q"@),
        gdb_verdict("kill"@) == Some("kill"@),
        gdb_verdict("detach"@) == Some("detach"@),
{
    lemma_console_deny_words_refused_shell();
    lemma_console_deny_words_refused_sh();
    lemma_console_deny_words_refused_pipe();
    lemma_console_deny_words_refused_source();
    lemma_console_deny_words_refused_so();
    lemma_console_deny_words_refused_python();
    lemma_console_deny_words_refused_py();
    lemma_console_deny_words_refused_make();
    lemma_console_deny_words_refused_cd();
    lemma_console_deny_words_refused_target();
    lemma_console_deny_words_refused_run();
    lemma_console_deny_words_refused_r();
    lemma_console_deny_words_refused_attach();
    lemma_console_deny_words_refused_file();
    lemma_console_deny_words_refused_add_symbol_file();
    lemma_console_deny_words_refused_dump();
    lemma_console_deny_words_refused_restore();
    lemma_console_deny_words_refused_monitor();
    lemma_console_deny_words_refused_compile();
    lemma_console_deny_words_refused_eval();
    lemma_console_deny_words_refused_quit();
    lemma_console_deny_words_refused_q();
    lemma_console_deny_words_refused_kill();
    lemma_console_deny_words_refused_detach();
}

proof fn lemma_mi_deny_words_refused_exec_run()
    ensures
        gdb_verdict("-exec-run"@) == Some("exec-run"@),
{
    reveal_strlit("exec-run");
    reveal_strlit("-exec-run");
    reveal_strlit("exec-continue");
    reveal_strlit("exec-step");
    reveal_strlit("exec-next");
    reveal_strlit("exec-finish");
    reveal_strlit("exec-interrupt");
    reveal_strlit("exec-step-instruction");
    reveal_strlit("exec-next-instruction");
    reveal_strlit("break-insert");
    reveal_strlit("break-delete");
    reveal_strlit("break-list");
    reveal_strlit("break-disable");
    reveal_strlit("break-enable");
    reveal_strlit("thread-info");
    reveal_strlit("thread-select");
    reveal_strlit("stack-list-frames");
    reveal_strlit("stack-info-frame");
    reveal_strlit("stack-list-variables");
    reveal_strlit("stack-list-locals");
    reveal_strlit("data-list-register-values");
    reveal_strlit("data-list-register-names");
    reveal_strlit("data-evaluate-expression");
    reveal_strlit("data-read-memory-bytes");
    reveal_strlit("data-disassemble");
    reveal_strlit("file-list-exec-source-file");
    reveal_strlit("file-list-exec-source-files");
    reveal_strlit("symbol-list-lines");
    reveal_strlit("gdb-version");
    reveal_strlit("gdb-set");
    reveal_strlit("gdb-show");
    assert(mi_deny_list()[0]@ == "exec-run"@);
    assert("-exec-run"@.drop_first() =~= "exec-run"@);
    assert forall|i: int| 0 <= i < mi_allow_list().len() implies #[trigger] mi_allow_list()[i]@ != "exec-run"@ by {
        let u = mi_allow_list()[i]@;
        if u == "exec-run"@ {
            assert(u.len() == 8 && u[0] == 'e' && u[1] == 'x' && u[2] == 'e' && u[7] == 'n');
        }
    }
    assert(first_mi_deny_from(mi_deny_list(), "exec-run"@, 0) == Some("exec-run"@));
    lemma_plain_word("-exec-run"@);
    reveal_strlit("interpreter-exec");
    assert(find("-exec-run"@, "interpreter-exec"@) is None);
    assert(console_payload("-exec-run"@) is None);
    lemma_mi_word_denied("-exec-run"@);
}

proof fn lemma_mi_deny_words_refused_exec_until()
    ensures
        gdb_verdict("-exec-until"@) == Some("exec-until"@),
{
    reveal_strlit("exec-until");
    reveal_strlit("-exec-until");
    reveal_strlit("exec-continue");
    reveal_strlit("exec-step");
    reveal_strlit("exec-next");
    reveal_strlit("exec-finish");
    reveal_strlit("exec-interrupt");
    reveal_strlit("exec-step-instruction");
    reveal_strlit("exec-next-instruction");
    reveal_strlit("break-insert");
    reveal_strlit("break-delete");
    reveal_strlit("break-list");
    reveal_strlit("break-disable");
    reveal_strlit("break-enable");
    reveal_strlit("thread-info");
    reveal_strlit("thread-select");
    reveal_strlit("stack-list-frames");
    reveal_strlit("stack-info-frame");
    reveal_strlit("stack-list-variables");
    reveal_strlit("stack-list-locals");
    reveal_strlit("data-list-register-values");
    reveal_strlit("data-list-register-names");
    reveal_strlit("data-evaluate-expression");
    reveal_strlit("data-read-memory-bytes");
    reveal_strlit("data-disassemble");
    reveal_strlit("file-list-exec-source-file");
    reveal_strlit("file-list-exec-source-files");
    reveal_strlit("symbol-list-lines");
    reveal_strlit("gdb-version");
    reveal_strlit("gdb-set");
    reveal_strlit("gdb-show");
    reveal_strlit("exec-run");
    assert(mi_deny_list()[0]@ == "exec-run"@);
    assert(mi_deny_list()[1]@ == "exec-until"@);
    assert("-exec-until"@.drop_first() =~= "exec-until"@);
    assert forall|i: int| 0 <= i < mi_allow_list().len() implies #[trigger] mi_allow_list()[i]@ != "exec-until"@ by {
        let u = mi_allow_list()[i]@;
        if u == "exec-until"@ {
            assert(u.len() == 10 && u[0] == 'e' && u[1] == 'x' && u[2] == 'e' && u[9] == 'l');
        }
    }
    assert("exec-until"@.subrange(0, 9)[5] == "exec-until"@[5]);
    assert(mi_deny_list()[0]@.push('-')[5] == 'r');
    assert(!mi_deny_hit(mi_deny_list()[0]@, "exec-until"@));
    assert(first_mi_deny_from(mi_deny_list(), "exec-until"@, 1) == Some("exec-until"@));
    assert(first_mi_deny_from(mi_deny_list(), "exec-until"@, 0) == Some("exec-until"@));
    lemma_plain_word("-exec-until"@);
    reveal_strlit("interpreter-exec");
    assert(find("-exec-until"@, "interpreter-exec"@) is None);
    assert(console_payload("-exec-until"@) is None);
    lemma_mi_word_denied("-exec-until"@);
}

proof fn lemma_mi_deny_words_refused_file_exec_and_symbols()
    ensures
        gdb_verdict("-file-exec-and-symbols"@) == Some("file-exec-and-symbols"@),
{
    reveal_strlit("file-exec-and-symbols");
    reveal_strlit("-file-exec-and-symbols");
    reveal_strlit("exec-continue");
    reveal_strlit("exec-step");
    reveal_strlit("exec-next");
    reveal_strlit("exec-finish");
    reveal_strlit("exec-interrupt");
    reveal_strlit("exec-step-instruction");
    reveal_strlit("exec-next-instruction");
    reveal_strlit("break-insert");
    reveal_strlit("break-delete");
    reveal_strlit("break-list");
    reveal_strlit("break-disable");
    reveal_strlit("break-enable");
    reveal_strlit("thread-info");
    reveal_strlit("thread-select");
    reveal_strlit("stack-list-frames");
    reveal_strlit("stack-info-frame");
    reveal_strlit("stack-list-variables");
    reveal_strlit("stack-list-locals");
    reveal_strlit("data-list-register-values");
    reveal_strlit("data-list-register-names");
    reveal_strlit("data-evaluate-expression");
    reveal_strlit("data-read-memory-bytes");
    reveal_strlit("data-disassemble");
    reveal_strlit("file-list-exec-source-file");
    reveal_strlit("file-list-exec-source-files");
    reveal_strlit("symbol-list-lines");
    reveal_strlit("gdb-version");
    reveal_strlit("gdb-set");
    reveal_strlit("gdb-show");
    reveal_strlit("exec-run");
    reveal_strlit("exec-until");
    assert(mi_deny_list()[0]@ == "exec-run"@);
    assert(mi_deny_list()[1]@ == "exec-until"@);
    assert(mi_deny_list()[2]@ == "file-exec-and-symbols"@);
    assert("-file-exec-and-symbols"@.drop_first() =~= "file-exec-and-symbols"@);
    assert forall|i: int| 0 <= i < mi_allow_list().len() implies #[trigger] mi_allow_list()[i]@ != "file-exec-and-symbols"@ by {
        let u = mi_allow_list()[i]@;
        if u == "file-exec-and-symbols"@ {
            assert(u.len() == 21 && u[0] == 'f' && u[1] == 'i' && u[2] == 'l' && u[20] == 's');
        }
    }
    assert("file-exec-and-symbols"@.subrange(0, 9)[0] == "file-exec-and-symbols"@[0]);
    assert(mi_deny_list()[0]@.push('-')[0] == 'e');
    assert(!mi_deny_hit(mi_deny_list()[0]@, "file-exec-and-symbols"@));
    assert("file-exec-and-symbols"@.subrange(0, 11)[0] == "file-exec-and-symbols"@[0]);
    assert(mi_deny_list()[1]@.push('-')[0] == 'e');
    assert(!mi_deny_hit(mi_deny_list()[1]@, "file-exec-and-symbols"@));
    assert(first_mi_deny_from(mi_deny_list(), "file-exec-and-symbols"@, 2) == Some("file-exec-and-symbols"@));
    assert(first_mi_deny_from(mi_deny_list(), "file-exec-and-symbols"@, 1) == Some("file-exec-and-symbols"@));
    assert(first_mi_deny_from(mi_deny_list(), "file-exec-and-symbols"@, 0) == Some("file-exec-and-symbols"@));
    lemma_plain_word("-file-exec-and-symbols"@);
    reveal_strlit("interpreter-exec");
    assert(find_from("-file-exec-and-symbols"@, "interpreter-exec"@, 7) is None);
    assert("-file-exec-and-symbols"@.subrange(6, 22)[0] == "-file-exec-and-symbols"@[6]);
    assert(find_from("-file-exec-and-symbols"@, "interpreter-exec"@, 6) is None);
    assert("-file-exec-and-symbols"@.subrange(5, 21)[0] == "-file-exec-and-symbols"@[5]);
    assert(find_from("-file-exec-and-symbols"@, "interpreter-exec"@, 5) is None);
    assert("-file-exec-and-symbols"@.subrange(4, 20)[0] == "-file-exec-and-symbols"@[4]);
    assert(find_from("-file-exec-and-symbols"@, "interpreter-exec"@, 4) is None);
    assert("-file-exec-and-symbols"@.subrange(3, 19)[0] == "-file-exec-and-symbols"@[3]);
    assert(find_from("-file-exec-and-symbols"@, "interpreter-exec"@, 3) is None);
    assert("-file-exec-and-symbols"@.subrange(2, 18)[1] == "-file-exec-and-symbols"@[3]);
    assert(find_from("-file-exec-and-symbols"@, "interpreter-exec"@, 2) is None);
    assert("-file-exec-and-symbols"@.subrange(1, 17)[0] == "-file-exec-and-symbols"@[1]);
    assert(find_from("-file-exec-and-symbols"@, "interpreter-exec"@, 1) is None);
    assert("-file-exec-and-symbols"@.subrange(0, 16)[0] == "-file-exec-and-symbols"@[0]);
    assert(find_from("-file-exec-and-symbols"@, "interpreter-exec"@, 0) is None);
    assert(console_payload("-file-exec-and-symbols"@) is None);
    lemma_mi_word_denied("-file-exec-and-symbols"@);
}

proof fn lemma_mi_deny_words_refused_file_symbol_file()
    ensures
        gdb_verdict("-file-symbol-file"@) == Some("file-symbol-file"@),
{
    reveal_strlit("file-symbol-file");
    reveal_strlit("-file-symbol-file");
    reveal_strlit("exec-continue");
    reveal_strlit("exec-step");
    reveal_strlit("exec-next");
    reveal_strlit("exec-finish");
    reveal_strlit("exec-interrupt");
    reveal_strlit("exec-step-instruction");
    reveal_strlit("exec-next-instruction");
    reveal_strlit("break-insert");
    reveal_strlit("break-delete");
    reveal_strlit("break-list");
    reveal_strlit("break-disable");
    reveal_strlit("break-enable");
    reveal_strlit("thread-info");
    reveal_strlit("thread-select");
    reveal_strlit("stack-list-frames");
    reveal_strlit("stack-info-frame");
    reveal_strlit("stack-list-variables");
    reveal_strlit("stack-list-locals");
    reveal_strlit("data-list-register-values");
    reveal_strlit("data-list-register-names");
    reveal_strlit("data-evaluate-expression");
    reveal_strlit("data-read-memory-bytes");
    reveal_strlit("data-disassemble");
    reveal_strlit("file-list-exec-source-file");
    reveal_strlit("file-list-exec-source-files");
    reveal_strlit("symbol-list-lines");
    reveal_strlit("gdb-version");
    reveal_strlit("gdb-set");
    reveal_strlit("gdb-show");
    reveal_strlit("exec-run");
    reveal_strlit("exec-until");
    reveal_strlit("file-exec-and-symbols");
    assert(mi_deny_list()[0]@ == "exec-run"@);
    assert(mi_deny_list()[1]@ == "exec-until"@);
    assert(mi_deny_list()[2]@ == "file-exec-and-symbols"@);
    assert(mi_deny_list()[3]@ == "file-symbol-file"@);
    assert("-file-symbol-file"@.drop_first() =~= "file-symbol-file"@);
    assert forall|i: int| 0 <= i < mi_allow_list().len() implies #[trigger] mi_allow_list()[i]@ != "file-symbol-file"@ by {
        let u = mi_allow_list()[i]@;
        if u == "file-symbol-file"@ {
            assert(u.len() == 16 && u[0] == 'f' && u[1] == 'i' && u[2] == 'l' && u[15] == 'e');
        }
    }
    assert("file-symbol-file"@.subrange(0, 9)[0] == "file-symbol-file"@[0]);
    assert(mi_deny_list()[0]@.push('-')[0] == 'e');
    assert(!mi_deny_hit(mi_deny_list()[0]@, "file-symbol-file"@));
    assert("file-symbol-file"@.subrange(0, 11)[0] == "file-symbol-file"@[0]);
    assert(mi_deny_list()[1]@.push('-')[0] == 'e');
    assert(!mi_deny_hit(mi_deny_list()[1]@, "file-symbol-file"@));
    assert(!mi_deny_hit(mi_deny_list()[2]@, "file-symbol-file"@));
    assert(first_mi_deny_from(mi_deny_list(), "file-symbol-file"@, 3) == Some("file-symbol-file"@));
    assert(first_mi_deny_from(mi_deny_list(), "file-symbol-file"@, 2) == Some("file-symbol-file"@));
    assert(first_mi_deny_from(mi_deny_list(), "file-symbol-file"@, 1) == Some("file-symbol-file"@));
    assert(first_mi_deny_from(mi_deny_list(), "file-symbol-file"@, 0) == Some("file-symbol-file"@));
    lemma_plain_word("-file-symbol-file"@);
    reveal_strlit("interpreter-exec");
    assert(find_from("-file-symbol-file"@, "interpreter-exec"@, 2) is None);
    assert("-file-symbol-file"@.subrange(1, 17)[0] == "-file-symbol-file"@[1]);
    assert(find_from("-file-symbol-file"@, "interpreter-exec"@, 1) is None);
    assert("-file-symbol-file"@.subrange(0, 16)[0] == "-file-symbol-file"@[0]);
    assert(find_from("-file-symbol-file"@, "interpreter-exec"@, 0) is None);
    assert(console_payload("-file-symbol-file"@) is None);
    lemma_mi_word_denied("-file-symbol-file"@);
}

proof fn lemma_mi_deny_words_refused_target_select()
    ensures
        gdb_verdict("-target-select"@) == Some("target-select"@),
{
    reveal_strlit("target-select");
    reveal_strlit("-target-select");
    reveal_strlit("exec-continue");
    reveal_strlit("exec-step");
    reveal_strlit("exec-next");
    reveal_strlit("exec-finish");
    reveal_strlit("exec-interrupt");
    reveal_strlit("exec-step-instruction");
    reveal_strlit("exec-next-instruction");
    reveal_strlit("break-insert");
    reveal_strlit("break-delete");
    reveal_strlit("break-list");
    reveal_strlit("break-disable");
    reveal_strlit("break-enable");
    reveal_strlit("thread-info");
    reveal_strlit("thread-select");
    reveal_strlit("stack-list-frames");
    reveal_strlit("stack-info-frame");
    reveal_strlit("stack-list-variables");
    reveal_strlit("stack-list-locals");
    reveal_strlit("data-list-register-values");
    reveal_strlit("data-list-register-names");
    reveal_strlit("data-evaluate-expression");
    reveal_strlit("data-read-memory-bytes");
    reveal_strlit("data-disassemble");
    reveal_strlit("file-list-exec-source-file");
    reveal_strlit("file-list-exec-source-files");
    reveal_strlit("symbol-list-lines");
    reveal_strlit("gdb-version");
    reveal_strlit("gdb-set");
    reveal_strlit("gdb-show");
    reveal_strlit("exec-run");
    reveal_strlit("exec-until");
    reveal_strlit("file-exec-and-symbols");
    reveal_strlit("file-symbol-file");
    assert(mi_deny_list()[0]@ == "exec-run"@);
    assert(mi_deny_list()[1]@ == "exec-until"@);
    assert(mi_deny_list()[2]@ == "file-exec-and-symbols"@);
    assert(mi_deny_list()[3]@ == "file-symbol-file"@);
    assert(mi_deny_list()[4]@ == "target-select"@);
    assert("-target-select"@.drop_first() =~= "target-select"@);
    assert forall|i: int| 0 <= i < mi_allow_list().len() implies #[trigger] mi_allow_list()[i]@ != "target-select"@ by {
        let u = mi_allow_list()[i]@;
        if u == "target-select"@ {
            assert(u.len() == 13 && u[0] == 't' && u[1] == 'a' && u[2] == 'r' && u[12] == 't');
        }
    }
    assert("target-select"@.subrange(0, 9)[0] == "target-select"@[0]);
    assert(mi_deny_list()[0]@.push('-')[0] == 'e');
    assert(!mi_deny_hit(mi_deny_list()[0]@, "target-select"@));
    assert("target-select"@.subrange(0, 11)[0] == "target-select"@[0]);
    assert(mi_deny_list()[1]@.push('-')[0] == 'e');
    assert(!mi_deny_hit(mi_deny_list()[1]@, "target-select"@));
    assert(!mi_deny_hit(mi_deny_list()[2]@, "target-select"@));
    assert(!mi_deny_hit(mi_deny_list()[3]@, "target-select"@));
    assert(first_mi_deny_from(mi_deny_list(), "target-select"@, 4) == Some("target-select"@));
    assert(first_mi_deny_from(mi_deny_list(), "target-select"@, 3) == Some("target-select"@));
    assert(first_mi_deny_from(mi_deny_list(), "target-select"@, 2) == Some("target-select"@));
    assert(first_mi_deny_from(mi_deny_list(), "target-select"@, 1) == Some("target-select"@));
    assert(first_mi_deny_from(mi_deny_list(), "target-select"@, 0) == Some("target-select"@));
    lemma_plain_word("-target-select"@);
    reveal_strlit("interpreter-exec");
    assert(find("-target-select"@, "interpreter-exec"@) is None);
    assert(console_payload("-target-select"@) is None);
    lemma_mi_word_denied("-target-select"@);
}

proof fn lemma_mi_deny_words_refused_target_attach()
    ensures
        gdb_verdict("-target-attach"@) == Some("target-attach"@),
{
    reveal_strlit("target-attach");
    reveal_strlit("-target-attach");
    reveal_strlit("exec-continue");
    reveal_strlit("exec-step");
    reveal_strlit("exec-next");
    reveal_strlit("exec-finish");
    reveal_strlit("exec-interrupt");
    reveal_strlit("exec-step-instruction");
    reveal_strlit("exec-next-instruction");
    reveal_strlit("break-insert");
    reveal_strlit("break-delete");
    reveal_strlit("break-list");
    reveal_strlit("break-disable");
    reveal_strlit("break-enable");
    reveal_strlit("thread-info");
    reveal_strlit("thread-select");
    reveal_strlit("stack-list-frames");
    reveal_strlit("stack-info-frame");
    reveal_strlit("stack-list-variables");
    reveal_strlit("stack-list-locals");
    reveal_strlit("data-list-register-values");
    reveal_strlit("data-list-register-names");
    reveal_strlit("data-evaluate-expression");
    reveal_strlit("data-read-memory-bytes");
    reveal_strlit("data-disassemble");
    reveal_strlit("file-list-exec-source-file");
    reveal_strlit("file-list-exec-source-files");
    reveal_strlit("symbol-list-lines");
    reveal_strlit("gdb-version");
    reveal_strlit("gdb-set");
    reveal_strlit("gdb-show");
    reveal_strlit("exec-run");
    reveal_strlit("exec-until");
    reveal_strlit("file-exec-and-symbols");
    reveal_strlit("file-symbol-file");
    reveal_strlit("target-select");
    assert(mi_deny_list()[0]@ == "exec-run"@);
    assert(mi_deny_list()[1]@ == "exec-until"@);
    assert(mi_deny_list()[2]@ == "file-exec-and-symbols"@);
    assert(mi_deny_list()[3]@ == "file-symbol-file"@);
    assert(mi_deny_list()[4]@ == "target-select"@);
    assert(mi_deny_list()[5]@ == "target-attach"@);
    assert("-target-attach"@.drop_first() =~= "target-attach"@);
    assert forall|i: int| 0 <= i < mi_allow_list().len() implies #[trigger] mi_allow_list()[i]@ != "target-attach"@ by {
        let u = mi_allow_list()[i]@;
        if u == "target-attach"@ {
            assert(u.len() == 13 && u[0] == 't' && u[1] == 'a' && u[2] == 'r' && u[12] == 'h');
        }
    }
    assert("target-attach"@.subrange(0, 9)[0] == "target-attach"@[0]);
    assert(mi_deny_list()[0]@.push('-')[0] == 'e');
    assert(!mi_deny_hit(mi_deny_list()[0]@, "target-attach"@));
    assert("target-attach"@.subrange(0, 11)[0] == "target-attach"@[0]);
    assert(mi_deny_list()[1]@.push('-')[0] == 'e');
    assert(!mi_deny_hit(mi_deny_list()[1]@, "target-attach"@));
    assert(!mi_deny_hit(mi_deny_list()[2]@, "target-attach"@));
    assert(!mi_deny_hit(mi_deny_list()[3]@, "target-attach"@));
    assert("target-attach"@[7] == 'a' && mi_deny_list()[4]@[7] == 's');
    assert(!mi_deny_hit(mi_deny_list()[4]@, "target-attach"@));
    assert(first_mi_deny_from(mi_deny_list(), "target-attach"@, 5) == Some("target-attach"@));
    assert(first_mi_deny_from(mi_deny_list(), "target-attach"@, 4) == Some("target-attach"@));
    assert(first_mi_deny_from(mi_deny_list(), "target-attach"@, 3) == Some("target-attach"@));
    assert(first_mi_deny_from(mi_deny_list(), "target-attach"@, 2) == Some("target-attach"@));
    assert(first_mi_deny_from(mi_deny_list(), "target-attach"@, 1) == Some("target-attach"@));
    assert(first_mi_deny_from(mi_deny_list(), "target-attach"@, 0) == Some("target-attach"@));
    lemma_plain_word("-target-attach"@);
    reveal_strlit("interpreter-exec");
    assert(find("-target-attach"@, "interpreter-exec"@) is None);
    assert(console_payload("-target-attach"@) is None);
    lemma_mi_word_denied("-target-attach"@);
}

proof fn lemma_mi_deny_words_refused_target_detach()
    ensures
        gdb_verdict("-target-detach"@) == Some("target-detach"@),
{
    reveal_strlit("target-detach");
    reveal_strlit("-target-detach");
    reveal_strlit("exec-continue");
    reveal_strlit("exec-step");
    reveal_strlit("exec-next");
    reveal_strlit("exec-finish");
    reveal_strlit("exec-interrupt");
    reveal_strlit("exec-step-instruction");
    reveal_strlit("exec-next-instruction");
    reveal_strlit("break-insert");
    reveal_strlit("break-delete");
    reveal_strlit("break-list");
    reveal_strlit("break-disable");
    reveal_strlit("break-enable");
    reveal_strlit("thread-info");
    reveal_strlit("thread-select");
    reveal_strlit("stack-list-frames");
    reveal_strlit("stack-info-frame");
    reveal_strlit("stack-list-variables");
    reveal_strlit("stack-list-locals");
    reveal_strlit("data-list-register-values");
    reveal_strlit("data-list-register-names");
    reveal_strlit("data-evaluate-expression");
    reveal_strlit("data-read-memory-bytes");
    reveal_strlit("data-disassemble");
    reveal_strlit("file-list-exec-source-file");
    reveal_strlit("file-list-exec-source-files");
    reveal_strlit("symbol-list-lines");
    reveal_strlit("gdb-version");
    reveal_strlit("gdb-set");
    reveal_strlit("gdb-show");
    reveal_strlit("exec-run");
    reveal_strlit("exec-until");
    reveal_strlit("file-exec-and-symbols");
    reveal_strlit("file-symbol-file");
    reveal_strlit("target-select");
    reveal_strlit("target-attach");
    assert(mi_deny_list()[0]@ == "exec-run"@);
    assert(mi_deny_list()[1]@ == "exec-until"@);
    assert(mi_deny_list()[2]@ == "file-exec-and-symbols"@);
    assert(mi_deny_list()[3]@ == "file-symbol-file"@);
    assert(mi_deny_list()[4]@ == "target-select"@);
    assert(mi_deny_list()[5]@ == "target-attach"@);
    assert(mi_deny_list()[6]@ == "target-detach"@);
    assert("-target-detach"@.drop_first() =~= "target-detach"@);
    assert forall|i: int| 0 <= i < mi_allow_list().len() implies #[trigger] mi_allow_list()[i]@ != "target-detach"@ by {
        let u = mi_allow_list()[i]@;
        if u == "target-detach"@ {
            assert(u.len() == 13 && u[0] == 't' && u[1] == 'a' && u[2] == 'r' && u[12] == 'h');
        }
    }
    assert("target-detach"@.subrange(0, 9)[0] == "target-detach"@[0]);
    assert(mi_deny_list()[0]@.push('-')[0] == 'e');
    assert(!mi_deny_hit(mi_deny_list()[0]@, "target-detach"@));
    assert("target-detach"@.subrange(0, 11)[0] == "target-detach"@[0]);
    assert(mi_deny_list()[1]@.push('-')[0] == 'e');
    assert(!mi_deny_hit(mi_deny_list()[1]@, "target-detach"@));
    assert(!mi_deny_hit(mi_deny_list()[2]@, "target-detach"@));
    assert(!mi_deny_hit(mi_deny_list()[3]@, "target-detach"@));
    assert("target-detach"@[7] == 'd' && mi_deny_list()[4]@[7] == 's');
    assert(!mi_deny_hit(mi_deny_list()[4]@, "target-detach"@));
    assert("target-detach"@[7] == 'd' && mi_deny_list()[5]@[7] == 'a');
    assert(!mi_deny_hit(mi_deny_list()[5]@, "target-detach"@));
    assert(first_mi_deny_from(mi_deny_list(), "target-detach"@, 6) == Some("target-detach"@));
    assert(first_mi_deny_from(mi_deny_list(), "target-detach"@, 5) == Some("target-detach"@));
    assert(first_mi_deny_from(mi_deny_list(), "target-detach"@, 4) == Some("target-detach"@));
    assert(first_mi_deny_from(mi_deny_list(), "target-detach"@, 3) == Some("target-detach"@));
    assert(first_mi_deny_from(mi_deny_list(), "target-detach"@, 2) == Some("target-detach"@));
    assert(first_mi_deny_from(mi_deny_list(), "target-detach"@, 1) == Some("target-detach"@));
    assert(first_mi_deny_from(mi_deny_list(), "target-detach"@, 0) == Some("target-detach"@));
    lemma_plain_word("-target-detach"@);
    reveal_strlit("interpreter-exec");
    assert(find("-target-detach"@, "interpreter-exec"@) is None);
    assert(console_payload("-target-detach"@) is None);
    lemma_mi_word_denied("-target-detach"@);
}

proof fn lemma_mi_deny_words_refused_target_download()
    ensures
        gdb_verdict("-target-download"@) == Some("target-download"@),
{
    reveal_strlit("target-download");
    reveal_strlit("-target-download");
    reveal_strlit("exec-continue");
    reveal_strlit("exec-step");
    reveal_strlit("exec-next");
    reveal_strlit("exec-finish");
    reveal_strlit("exec-interrupt");
    reveal_strlit("exec-step-instruction");
    reveal_strlit("exec-next-instruction");
    reveal_strlit("break-insert");
    reveal_strlit("break-delete");
    reveal_strlit("break-list");
    reveal_strlit("break-disable");
    reveal_strlit("break-enable");
    reveal_strlit("thread-info");
    reveal_strlit("thread-select");
    reveal_strlit("stack-list-frames");
    reveal_strlit("stack-info-frame");
    reveal_strlit("stack-list-variables");
    reveal_strlit("stack-list-locals");
    reveal_strlit("data-list-register-values");
    reveal_strlit("data-list-register-names");
    reveal_strlit("data-evaluate-expression");
    reveal_strlit("data-read-memory-bytes");
    reveal_strlit("data-disassemble");
    reveal_strlit("file-list-exec-source-file");
    reveal_strlit("file-list-exec-source-files");
    reveal_strlit("symbol-list-lines");
    reveal_strlit("gdb-version");
    reveal_strlit("gdb-set");
    reveal_strlit("gdb-show");
    reveal_strlit("exec-run");
    reveal_strlit("exec-until");
    reveal_strlit("file-exec-and-symbols");
    reveal_strlit("file-symbol-file");
    reveal_strlit("target-select");
    reveal_strlit("target-attach");
    reveal_strlit("target-detach");
    assert(mi_deny_list()[0]@ == "exec-run"@);
    assert(mi_deny_list()[1]@ == "exec-until"@);
    assert(mi_deny_list()[2]@ == "file-exec-and-symbols"@);
    assert(mi_deny_list()[3]@ == "file-symbol-file"@);
    assert(mi_deny_list()[4]@ == "target-select"@);
    assert(mi_deny_list()[5]@ == "target-attach"@);
    assert(mi_deny_list()[6]@ == "target-detach"@);
    assert(mi_deny_list()[7]@ == "target-download"@);
    assert("-target-download"@.drop_first() =~= "target-download"@);
    assert forall|i: int| 0 <= i < mi_allow_list().len() implies #[trigger] mi_allow_list()[i]@ != "target-download"@ by {
        let u = mi_allow_list()[i]@;
        if u == "target-download"@ {
            assert(u.len() == 15 && u[0] == 't' && u[1] == 'a' && u[2] == 'r' && u[14] == 'd');
        }
    }
    assert("target-download"@.subrange(0, 9)[0] == "target-download"@[0]);
    assert(mi_deny_list()[0]@.push('-')[0] == 'e');
    assert(!mi_deny_hit(mi_deny_list()[0]@, "target-download"@));
    assert("target-download"@.subrange(0, 11)[0] == "target-download"@[0]);
    assert(mi_deny_list()[1]@.push('-')[0] == 'e');
    assert(!mi_deny_hit(mi_deny_list()[1]@, "target-download"@));
    assert(!mi_deny_hit(mi_deny_list()[2]@, "target-download"@));
    assert(!mi_deny_hit(mi_deny_list()[3]@, "target-download"@));
    assert("target-download"@.subrange(0, 14)[7] == "target-download"@[7]);
    assert(mi_deny_list()[4]@.push('-')[7] == 's');
    assert(!mi_deny_hit(mi_deny_list()[4]@, "target-download"@));
    assert("target-download"@.subrange(0, 14)[7] == "target-download"@[7]);
    assert(mi_deny_list()[5]@.push('-')[7] == 'a');
    assert(!mi_deny_hit(mi_deny_list()[5]@, "target-download"@));
    assert("target-download"@.subrange(0, 14)[8] == "target-download"@[8]);
    assert(mi_deny_list()[6]@.push('-')[8] == 'e');
    assert(!mi_deny_hit(mi_deny_list()[6]@, "target-download"@));
    assert(first_mi_deny_from(mi_deny_list(), "target-download"@, 7) == Some("target-download"@));
    assert(first_mi_deny_from(mi_deny_list(), "target-download"@, 6) == Some("target-download"@));
    assert(first_mi_deny_from(mi_deny_list(), "target-download"@, 5) == Some("target-download"@));
    assert(first_mi_deny_from(mi_deny_list(), "target-download"@, 4) == Some("target-download"@));
    assert(first_mi_deny_from(mi_deny_list(), "target-download"@, 3) == Some("target-download"@));
    assert(first_mi_deny_from(mi_deny_list(), "target-download"@, 2) == Some("target-download"@));
    assert(first_mi_deny_from(mi_deny_list(), "target-download"@, 1) == Some("target-download"@));
    assert(first_mi_deny_from(mi_deny_list(), "target-download"@, 0) == Some("target-download"@));
    lemma_plain_word("-target-download"@);
    reveal_strlit("interpreter-exec");
    assert(find_from("-target-download"@, "interpreter-exec"@, 1) is None);
    assert("-target-download"@.subrange(0, 16)[0] == "-target-download"@[0]);
    assert(find_from("-target-download"@, "interpreter-exec"@, 0) is None);
    assert(console_payload("-target-download"@) is None);
    lemma_mi_word_denied("-target-download"@);
}

proof fn lemma_mi_deny_words_refused_interpreter_exec()
    ensures
        gdb_verdict("-interpreter-exec"@) == Some("interpreter-exec"@),
{
    reveal_strlit("interpreter-exec");
    reveal_strlit("-interpreter-exec");
    reveal_strlit("exec-continue");
    reveal_strlit("exec-step");
    reveal_strlit("exec-next");
    reveal_strlit("exec-finish");
    reveal_strlit("exec-interrupt");
    reveal_strlit("exec-step-instruction");
    reveal_strlit("exec-next-instruction");
    reveal_strlit("break-insert");
    reveal_strlit("break-delete");
    reveal_strlit("break-list");
    reveal_strlit("break-disable");
    reveal_strlit("break-enable");
    reveal_strlit("thread-info");
    reveal_strlit("thread-select");
    reveal_strlit("stack-list-frames");
    reveal_strlit("stack-info-frame");
    reveal_strlit("stack-list-variables");
    reveal_strlit("stack-list-locals");
    reveal_strlit("data-list-register-values");
    reveal_strlit("data-list-register-names");
    reveal_strlit("data-evaluate-expression");
    reveal_strlit("data-read-memory-bytes");
    reveal_strlit("data-disassemble");
    reveal_strlit("file-list-exec-source-file");
    reveal_strlit("file-list-exec-source-files");
    reveal_strlit("symbol-list-lines");
    reveal_strlit("gdb-version");
    reveal_strlit("gdb-set");
    reveal_strlit("gdb-show");
    reveal_strlit("exec-run");
    reveal_strlit("exec-until");
    reveal_strlit("file-exec-and-symbols");
    reveal_strlit("file-symbol-file");
    reveal_strlit("target-select");
    reveal_strlit("target-attach");
    reveal_strlit("target-detach");
    reveal_strlit("target-download");
    assert(mi_deny_list()[0]@ == "exec-run"@);
    assert(mi_deny_list()[1]@ == "exec-until"@);
    assert(mi_deny_list()[2]@ == "file-exec-and-symbols"@);
    assert(mi_deny_list()[3]@ == "file-symbol-file"@);
    assert(mi_deny_list()[4]@ == "target-select"@);
    assert(mi_deny_list()[5]@ == "target-attach"@);
    assert(mi_deny_list()[6]@ == "target-detach"@);
    assert(mi_deny_list()[7]@ == "target-download"@);
    assert(mi_deny_list()[8]@ == "interpreter-exec"@);
    assert("-interpreter-exec"@.drop_first() =~= "interpreter-exec"@);
    assert forall|i: int| 0 <= i < mi_allow_list().len() implies #[trigger] mi_allow_list()[i]@ != "interpreter-exec"@ by {
        let u = mi_allow_list()[i]@;
        if u == "interpreter-exec"@ {
            assert(u.len() == 16 && u[0] == 'i' && u[1] == 'n' && u[2] == 't' && u[15] == 'c');
        }
    }
    assert("interpreter-exec"@.subrange(0, 9)[0] == "interpreter-exec"@[0]);
    assert(mi_deny_list()[0]@.push('-')[0] == 'e');
    assert(!mi_deny_hit(mi_deny_list()[0]@, "interpreter-exec"@));
    assert("interpreter-exec"@.subrange(0, 11)[0] == "interpreter-exec"@[0]);
    assert(mi_deny_list()[1]@.push('-')[0] == 'e');
    assert(!mi_deny_hit(mi_deny_list()[1]@, "interpreter-exec"@));
    assert(!mi_deny_hit(mi_deny_list()[2]@, "interpreter-exec"@));
    assert("interpreter-exec"@[0] == 'i' && mi_deny_list()[3]@[0] == 'f');
    assert(!mi_deny_hit(mi_deny_list()[3]@, "interpreter-exec"@));
    assert("interpreter-exec"@.subrange(0, 14)[0] == "interpreter-exec"@[0]);
    assert(mi_deny_list()[4]@.push('-')[0] == 't');
    assert(!mi_deny_hit(mi_deny_list()[4]@, "interpreter-exec"@));
    assert("interpreter-exec"@.subrange(0, 14)[0] == "interpreter-exec"@[0]);
    assert(mi_deny_list()[5]@.push('-')[0] == 't');
    assert(!mi_deny_hit(mi_deny_list()[5]@, "interpreter-exec"@));
    assert("interpreter-exec"@.subrange(0, 14)[0] == "interpreter-exec"@[0]);
    assert(mi_deny_list()[6]@.push('-')[0] == 't');
    assert(!mi_deny_hit(mi_deny_list()[6]@, "interpreter-exec"@));
    assert("interpreter-exec"@.subrange(0, 16)[0] == "interpreter-exec"@[0]);
    assert(mi_deny_list()[7]@.push('-')[0] == 't');
    assert(!mi_deny_hit(mi_deny_list()[7]@, "interpreter-exec"@));
    assert(first_mi_deny_from(mi_deny_list(), "interpreter-exec"@, 8) == Some("interpreter-exec"@));
    assert(first_mi_deny_from(mi_deny_list(), "interpreter-exec"@, 7) == Some("interpreter-exec"@));
    assert(first_mi_deny_from(mi_deny_list(), "interpreter-exec"@, 6) == Some("interpreter-exec"@));
    assert(first_mi_deny_from(mi_deny_list(), "interpreter-exec"@, 5) == Some("interpreter-exec"@));
    assert(first_mi_deny_from(mi_deny_list(), "interpreter-exec"@, 4) == Some("interpreter-exec"@));
    assert(first_mi_deny_from(mi_deny_list(), "interpreter-exec"@, 3) == Some("interpreter-exec"@));
    assert(first_mi_deny_from(mi_deny_list(), "interpreter-exec"@, 2) == Some("interpreter-exec"@));
    assert(first_mi_deny_from(mi_deny_list(), "interpreter-exec"@, 1) == Some("interpreter-exec"@));
    assert(first_mi_deny_from(mi_deny_list(), "interpreter-exec"@, 0) == Some("interpreter-exec"@));
    lemma_plain_word("-interpreter-exec"@);
    assert(!occurs_at("-interpreter-exec"@, "interpreter-exec"@, 0));
    assert("-interpreter-exec"@.subrange(1, 17) =~= "interpreter-exec"@);
    assert(occurs_at("-interpreter-exec"@, "interpreter-exec"@, 1));
    assert(find_from("-interpreter-exec"@, "interpreter-exec"@, 1) == Some(1int));
    assert("-interpreter-exec"@.skip(17) =~= Seq::<char>::empty());
    assert(trim_start("-interpreter-exec"@.skip(17)) =~= Seq::<char>::empty());
    reveal_strlit("console");
    reveal_strlit("--console");
    assert(console_payload("-interpreter-exec"@) is None);
    lemma_mi_word_denied("-interpreter-exec"@);
}

/// Every verb of the MI deny list, sent alone as `-verb`, is refused with
/// that verb as the reason: `-exec-run`, `-exec-until`,
/// `-file-exec-and-symbols`, `-file-symbol-file`, `-target-select`,
/// `-target-attach`, `-target-detach`, `-target-download`,
/// `-interpreter-exec`.
pub proof fn lemma_mi_deny_words_refused()
    ensures
        gdb_verdict("-exec-run"@) == Some("exec-run"@),
        gdb_verdict("-exec-until"@) == Some("exec-until"@),
        gdb_verdict("-file-exec-and-symbols"@) == Some("file-exec-and-symbols"@),
        gdb_verdict("-file-symbol-file"@) == Some("file-symbol-file"@),
        gdb_verdict("-target-select"@) == Some("target-select"@),
        gdb_verdict("-target-attach"@) == Some("target-attach"@),
        gdb_verdict("-target-detach"@) == Some("target-detach"@),
        gdb_verdict("-target-download"@) == Some("target-download"@),
        gdb_verdict("-interpreter-exec"@) == Some("interpreter-exec"@),
{
    lemma_mi_deny_words_refused_exec_run();
    lemma_mi_deny_words_refused_exec_until();
    lemma_mi_deny_words_refused_file_exec_and_symbols();
    lemma_mi_deny_words_refused_file_symbol_file();
    lemma_mi_deny_words_refused_target_select();
    lemma_mi_deny_words_refused_target_attach();
    lemma_mi_deny_words_refused_target_detach();
    lemma_mi_deny_words_refused_target_download();
    lemma_mi_deny_words_refused_interpreter_exec();
}

} // verus!
