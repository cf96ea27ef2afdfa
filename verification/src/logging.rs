//! Layout of the service's log lines: the event line written for every
//! tracing event, the credits banner and the default log filter.

use vstd::prelude::*;
use crate::text::{decimal_digits, push_char, push_decimal_u64, str_chars};
use crate::utils::project_profile::{profile_name, Profile};

verus! {

/// Severity of a log event.
#[derive(Clone, Copy, PartialEq, Eq, Structural, Debug)]
pub enum LogLevel {
    Trace,
    Debug,
    Info,
    Warn,
    Error,
}

/// Terminal colours used in log lines.
#[derive(Clone, Copy, PartialEq, Eq, Structural, Debug)]
pub enum TermColour {
    Purple,
    Blue,
    Green,
    Yellow,
    Red,
}

/// A terminal text style: a bold colour, plain bold or italic.
#[derive(Clone, Copy, PartialEq, Eq, Structural, Debug)]
pub enum TermStyle {
    BoldColour(TermColour),
    Bold,
    Italic,
}

/// Upper-case name of a level.
pub open spec fn level_name(l: LogLevel) -> Seq<char> {
    match l {
        LogLevel::Trace => "TRACE"@,
        LogLevel::Debug => "DEBUG"@,
        LogLevel::Info => "INFO"@,
        LogLevel::Warn => "WARN"@,
        LogLevel::Error => "ERROR"@,
    }
}

/// Colour a level is shown in.
pub open spec fn level_colour(l: LogLevel) -> TermColour {
    match l {
        LogLevel::Trace => TermColour::Purple,
        LogLevel::Debug => TermColour::Blue,
        LogLevel::Info => TermColour::Green,
        LogLevel::Warn => TermColour::Yellow,
        LogLevel::Error => TermColour::Red,
    }
}

/// ANSI code that starts a style.
pub open spec fn style_prefix(st: TermStyle) -> Seq<char> {
    match st {
        TermStyle::BoldColour(c) => match c {
            TermColour::Purple => "\x1b[1;35m"@,
            TermColour::Blue => "\x1b[1;34m"@,
            TermColour::Green => "\x1b[1;32m"@,
            TermColour::Yellow => "\x1b[1;33m"@,
            TermColour::Red => "\x1b[1;31m"@,
        },
        TermStyle::Bold => "\x1b[1m"@,
        TermStyle::Italic => "\x1b[3m"@,
    }
}

/// Text shown in a style: the style's code, the text, then the reset code.
pub open spec fn painted(st: TermStyle, text: Seq<char>) -> Seq<char> {
    style_prefix(st) + text + "\x1b[0m"@
}

/// Paints `text` in a style (`ansi_term::Style::paint` rendered with
/// `to_string`). The contract states the escape codes that ansi_term 0.12
/// writes around the text for these styles.
#[verifier::external_body]
pub(crate) fn paint(style: TermStyle, text: &str) -> (r: String)
    ensures
        r@ == painted(style, text@),
{
    let st = match style {
        TermStyle::BoldColour(c) => match c {
            TermColour::Purple => ansi_term::Colour::Purple,
            TermColour::Blue => ansi_term::Colour::Blue,
            TermColour::Green => ansi_term::Colour::Green,
            TermColour::Yellow => ansi_term::Colour::Yellow,
            TermColour::Red => ansi_term::Colour::Red,
        }.bold(),
        TermStyle::Bold => ansi_term::Style::new().bold(),
        TermStyle::Italic => ansi_term::Style::new().italic(),
    };
    st.paint(text).to_string()
}

/// The text `format!("{:?}", s)` gives for a string slice.
pub uninterp spec fn debug_str_text(s: Seq<char>) -> Seq<char>;

/// Debug rendering of a string slice (quoted and escaped), through std's
/// `Debug for str`. Only that the result is a function of the text is
/// stated.
#[verifier::external_body]
pub(crate) fn debug_text(s: &str) -> (r: String)
    ensures
        r@ == debug_str_text(s@),
{
    format!("{:?}", s)
}

// ---- module path abbreviation ----

/// Whether a `::` separator starts at `i`.
pub open spec fn is_sep_at(s: Seq<char>, i: int) -> bool {
    0 <= i && i + 1 < s.len() && s[i] == ':' && s[i + 1] == ':'
}

/// Position of the first `::` at or after `i`, or `-1`.
pub open spec fn sep_from(s: Seq<char>, i: int) -> int
    decreases s.len() - i,
{
    if i < 0 || i + 1 >= s.len() {
        -1
    } else if is_sep_at(s, i) {
        i
    } else {
        sep_from(s, i + 1)
    }
}

/// Abbreviation of the module path that starts at `start`: every segment
/// but the last is cut to its first character; the `::` separators stay.
pub open spec fn shorten_at(s: Seq<char>, start: int) -> Seq<char>
    decreases s.len() - start,
{
    if start < 0 || start > s.len() {
        Seq::empty()
    } else {
        let k = sep_from(s, start);
        if k < start || k + 2 > s.len() {
            s.subrange(start, s.len() as int)
        } else {
            seq![s[start]] + "::"@ + shorten_at(s, k + 2)
        }
    }
}

/// Whether every segment but the last of the path starting at `start` is
/// non-empty (the abbreviation takes each such segment's first character).
pub open spec fn shortenable_at(s: Seq<char>, start: int) -> bool
    decreases s.len() - start,
{
    if start < 0 || start > s.len() {
        true
    } else {
        let k = sep_from(s, start);
        if k < start || k + 2 > s.len() {
            true
        } else {
            k > start && shortenable_at(s, k + 2)
        }
    }
}

proof fn lemma_sep_from_range(s: Seq<char>, i: int)
    ensures
        sep_from(s, i) == -1 || (i <= sep_from(s, i) && is_sep_at(s, sep_from(s, i))),
    decreases s.len() - i,
{
    if !(i < 0 || i + 1 >= s.len()) && !is_sep_at(s, i) {
        lemma_sep_from_range(s, i + 1);
    }
}

/// Whether a text holds no `::`.
pub open spec fn free_of_separator(p: Seq<char>) -> bool {
    forall|m: int| 0 <= m && m + 1 < p.len() ==> !(#[trigger] p[m] == ':' && p[m + 1] == ':')
}

/// The segments joined by `::`.
pub open spec fn join_segments(parts: Seq<Seq<char>>) -> Seq<char>
    decreases parts.len(),
{
    if parts.len() == 0 {
        Seq::empty()
    } else if parts.len() == 1 {
        parts[0]
    } else {
        parts[0] + "::"@ + join_segments(parts.drop_first())
    }
}

/// Whether `parts` are the segments of a module path: at least one; none
/// holds `::`; each but the last is non-empty and does not end in `:` (so
/// that joining them with `::` puts each separator where it belongs).
pub open spec fn module_segments(parts: Seq<Seq<char>>) -> bool {
    &&& parts.len() >= 1
    &&& forall|i: int| 0 <= i < parts.len() ==> free_of_separator(#[trigger] parts[i])
    &&& forall|i: int| 0 <= i < parts.len() - 1 ==> (#[trigger] parts[i]).len() > 0 && parts[i].last() != ':'
}

/// The segments of an abbreviated path: each but the last cut to its first
/// character, the last unchanged.
pub open spec fn cut_segments(parts: Seq<Seq<char>>) -> Seq<Seq<char>> {
    Seq::new(parts.len(), |i: int| if i + 1 < parts.len() { seq![parts[i][0]] } else { parts[i] })
}

proof fn lemma_no_sep_from(s: Seq<char>, i: int)
    requires
        forall|m: int| i <= m ==> !is_sep_at(s, m),
    ensures
        sep_from(s, i) == -1,
    decreases s.len() - i,
{
    if !(i < 0 || i + 1 >= s.len()) {
        assert(!is_sep_at(s, i));
        lemma_no_sep_from(s, i + 1);
    }
}

proof fn lemma_sep_first(s: Seq<char>, i: int, j: int)
    requires
        0 <= i <= j,
        is_sep_at(s, j),
        forall|m: int| i <= m < j ==> !is_sep_at(s, m),
    ensures
        sep_from(s, i) == j,
    decreases j - i,
{
    if i < j {
        assert(!is_sep_at(s, i));
        lemma_sep_first(s, i + 1, j);
    }
}

proof fn lemma_shorten_join(s: Seq<char>, start: int, parts: Seq<Seq<char>>)
    requires
        0 <= start <= s.len(),
        module_segments(parts),
        s.subrange(start, s.len() as int) == join_segments(parts),
    ensures
        shortenable_at(s, start),
        shorten_at(s, start) == join_segments(cut_segments(parts)),
    decreases parts.len(),
{
    reveal_strlit("::");
    let t = s.subrange(start, s.len() as int);
    let p = parts[0];
    assert(free_of_separator(p));
    if parts.len() == 1 {
        assert(t == p);
        assert forall|m: int| start <= m implies !is_sep_at(s, m) by {
            if is_sep_at(s, m) {
                assert(s[m] == p[m - start] && s[m + 1] == p[m + 1 - start]);
            }
        }
        lemma_no_sep_from(s, start);
        assert(cut_segments(parts) =~= seq![p]);
    } else {
        let rest = parts.drop_first();
        assert(t == p + "::"@ + join_segments(rest));
        let k = start + p.len();
        assert(p.len() > 0 && p.last() != ':');
        assert(s[k] == ':' && s[k + 1] == ':') by {
            assert(t[p.len() as int] == ':');
            assert(t[p.len() + 1int] == ':');
        }
        assert forall|m: int| start <= m < k implies !is_sep_at(s, m) by {
            if is_sep_at(s, m) {
                assert(s[m] == t[m - start]);
                assert(t[m - start] == p[m - start]);
                if m + 1 < k {
                    assert(s[m + 1] == t[m + 1 - start]);
                    assert(t[m + 1 - start] == p[m + 1 - start]);
                } else {
                    assert(m - start == p.len() - 1);
                }
            }
        }
        lemma_sep_first(s, start, k);
        assert(module_segments(rest)) by {
            assert forall|i: int| 0 <= i < rest.len() implies free_of_separator(#[trigger] rest[i]) by {
                assert(rest[i] == parts[i + 1]);
            }
            assert forall|i: int| 0 <= i < rest.len() - 1 implies (#[trigger] rest[i]).len() > 0 && rest[i].last() != ':' by {
                assert(rest[i] == parts[i + 1]);
            }
        }
        assert(s.subrange(k + 2, s.len() as int) =~= join_segments(rest)) by {
            assert(t.subrange(p.len() + 2int, t.len() as int) =~= join_segments(rest));
        }
        lemma_shorten_join(s, k + 2, rest);
        assert(s[start] == t[0]);
        assert(t[0] == p[0]);
        let c = cut_segments(parts);
        assert(c.drop_first() =~= cut_segments(rest));
        assert(c[0] == seq![p[0]]);
        assert(c.len() > 1);
    }
}

/// The abbreviation of a module path of `n` segments has `n` segments
/// joined by `::`: each of the first `n - 1` is the first character of the
/// corresponding segment, and the last is the path's last segment
/// unchanged. Such a path can always be abbreviated.
pub proof fn lemma_abbreviation_keeps_segments(parts: Seq<Seq<char>>)
    requires
        module_segments(parts),
    ensures
        shortenable_at(join_segments(parts), 0),
        shorten_at(join_segments(parts), 0) == join_segments(cut_segments(parts)),
{
    let s = join_segments(parts);
    assert(s.subrange(0, s.len() as int) =~= s);
    lemma_shorten_join(s, 0, parts);
}

fn find_sep(chars: &Vec<char>, start: usize) -> (r: Option<usize>)
    requires
        start <= chars.len(),
    ensures
        match r {
            Some(k) => k as int == sep_from(chars@, start as int),
            None => sep_from(chars@, start as int) == -1,
        },
{
    let mut j: usize = start;
    while j < chars.len() && chars.len() - j > 1
        invariant
            start <= j <= chars.len(),
            sep_from(chars@, start as int) == sep_from(chars@, j as int),
        decreases chars.len() - j,
    {
        if chars[j] == ':' && chars[j + 1] == ':' {
            return Some(j);
        }
        j = j + 1;
    }
    None
}

fn push_range(out: &mut String, chars: &Vec<char>, from: usize)
    requires
        from <= chars.len(),
    ensures
        final(out)@ == old(out)@ + chars@.subrange(from as int, chars.len() as int),
{
    let mut i: usize = from;
    while i < chars.len()
        invariant
            from <= i <= chars.len(),
            out@ == old(out)@ + chars@.subrange(from as int, i as int),
        decreases chars.len() - i,
    {
        push_char(out, chars[i]);
        i = i + 1;
        assert(out@ =~= old(out)@ + chars@.subrange(from as int, i as int));
    }
}

fn shorten_from(chars: &Vec<char>, start: usize, out: &mut String)
    requires
        start <= chars.len(),
        shortenable_at(chars@, start as int),
    ensures
        final(out)@ == old(out)@ + shorten_at(chars@, start as int),
    decreases chars.len() - start,
{
    proof {
        lemma_sep_from_range(chars@, start as int);
    }
    match find_sep(chars, start) {
        None => {
            push_range(out, chars, start);
        },
        Some(k) => {
            let c = chars[start];
            push_char(out, c);
            out.append("::");
            shorten_from(chars, k + 2, out);
            assert(final(out)@ =~= old(out)@ + shorten_at(chars@, start as int));
        },
    }
}

fn shortenable_from(chars: &Vec<char>, start: usize) -> (r: bool)
    requires
        start <= chars.len(),
    ensures
        r == shortenable_at(chars@, start as int),
    decreases chars.len() - start,
{
    proof {
        lemma_sep_from_range(chars@, start as int);
    }
    match find_sep(chars, start) {
        None => true,
        Some(k) => k > start && shortenable_from(chars, k + 2),
    }
}

/// Whether a module path can be abbreviated (see [`shortenable_at`]).
pub fn module_abbreviable(path: &str) -> (r: bool)
    ensures
        r == shortenable_at(path@, 0),
{
    let chars = str_chars(path);
    shortenable_from(&chars, 0)
}

/// Abbreviates a module path: `a::b::c` becomes `a::b::c` with `a` and `b`
/// cut to their first character.
pub fn abbreviate_module(path: &str) -> (r: String)
    requires
        shortenable_at(path@, 0),
    ensures
        r@ == shorten_at(path@, 0),
{
    let chars = str_chars(path);
    let mut out = String::new();
    shorten_from(&chars, 0, &mut out);
    assert(out@ =~= shorten_at(path@, 0));
    out
}

// ---- event line ----

/// A span of the current scope, as the event line shows it.
pub struct SpanText {
    pub name: String,
    pub fields: String,
}

/// The text chrono writes for a UTC instant, given in microseconds since
/// the Unix epoch, with the format `%Y-%m-%d %H:%M:%S%.3f`.
pub uninterp spec fn timestamp_text(utc_micros: i64) -> Seq<char>;

/// Largest distance from the epoch, in microseconds, at which an instant is
/// always formatted (about 253,000 years; chrono's dates reach beyond it).
pub open spec fn timestamp_reach() -> int {
    8_000_000_000_000_000_000
}

/// Formats a UTC instant given in microseconds since the Unix epoch with
/// chrono (`DateTime::from_timestamp_micros`, then
/// `format("%Y-%m-%d %H:%M:%S%.3f")`). Stated: the text is a function of
/// the instant, and every instant within [`timestamp_reach`] of the epoch
/// lies in chrono's range (years -262143 to 262142) and is formatted.
#[verifier::external_body]
pub(crate) fn format_utc_micros(utc_micros: i64) -> (r: Option<String>)
    ensures
        r matches Some(t) ==> t@ == timestamp_text(utc_micros),
        -timestamp_reach() <= utc_micros <= timestamp_reach() ==> r is Some,
{
    match chrono::DateTime::from_timestamp_micros(utc_micros) {
        Some(t) => Some(t.format("%Y-%m-%d %H:%M:%S%.3f").to_string()),
        None => None,
    }
}

/// Everything the event line shows, gathered from the event and its context.
pub struct EventRecord {
    /// When the event happened: microseconds since the Unix epoch, UTC.
    pub utc_micros: i64,
    pub level: LogLevel,
    /// Current trace and span ids in lower-case hexadecimal.
    pub trace_id: String,
    pub span_id: String,
    pub pid: u32,
    pub thread_name: Option<String>,
    pub target: String,
    pub module: Option<String>,
    /// The event's own fields, already formatted.
    pub fields: String,
    /// Spans of the current scope from the root, when there is a current span.
    pub spans: Option<Vec<SpanText>>,
}

/// Text of one span: its bold name and, when it has fields, its italic
/// fields in braces.
pub open spec fn span_part(name: Seq<char>, fields: Seq<char>) -> Seq<char> {
    " "@ + painted(TermStyle::Bold, name) + " "@
        + (if fields.len() > 0 { " {"@ + painted(TermStyle::Italic, fields) + "} "@ } else { Seq::empty() })
}

/// Text of the spans of a scope, the `i`-th one onward, separated by `, `.
pub open spec fn spans_text(sp: Seq<(Seq<char>, Seq<char>)>, i: int) -> Seq<char>
    decreases sp.len() - i,
{
    if i < 0 || i >= sp.len() {
        Seq::empty()
    } else {
        span_part(sp[i].0, sp[i].1)
            + (if i + 1 < sp.len() { ", "@ + spans_text(sp, i + 1) } else { Seq::empty() })
    }
}

/// Views of the spans of a record.
pub open spec fn span_views(sp: Seq<SpanText>) -> Seq<(Seq<char>, Seq<char>)> {
    sp.map_values(|t: SpanText| (t.name@, t.fields@))
}

/// The full event line.
pub open spec fn event_line(e: EventRecord) -> Seq<char> {
    timestamp_text(e.utc_micros) + " "@ + painted(TermStyle::BoldColour(level_colour(e.level)), level_name(e.level))
        + " ["@ + e.trace_id@ + ","@ + e.span_id@ + "]"@
        + " ["@ + decimal_digits(e.pid as nat) + match e.thread_name {
            None => ", ]"@,
            Some(n) => ","@ + debug_str_text(n@) + "]"@,
        }
        + " ["@ + painted(TermStyle::BoldColour(TermColour::Blue), e.target@) + "]"@
        + match e.module {
            None => " []: "@,
            Some(m) => " "@ + painted(TermStyle::BoldColour(TermColour::Yellow), shorten_at(m@, 0)) + ": "@,
        }
        + e.fields@
        + match e.spans {
            None => Seq::empty(),
            Some(sp) => "["@ + spans_text(span_views(sp@), 0) + "] "@,
        }
        + "\n"@
}

/// What the event line needs of a record: an instant within
/// [`timestamp_reach`] of the epoch, an abbreviable module path and, when a
/// current span exists, at least one span in scope.
pub open spec fn event_record_ok(e: EventRecord) -> bool {
    &&& -timestamp_reach() <= e.utc_micros <= timestamp_reach()
    &&& e.module matches Some(m) ==> shortenable_at(m@, 0)
    &&& e.spans matches Some(sp) ==> sp.len() > 0
}

fn span_piece(t: &SpanText) -> (r: String)
    ensures
        r@ == span_part(t.name@, t.fields@),
{
    let mut out = String::new();
    out.append(" ");
    let b = paint(TermStyle::Bold, t.name.as_str());
    out.append(b.as_str());
    out.append(" ");
    if t.fields.unicode_len() > 0 {
        out.append(" {");
        let it = paint(TermStyle::Italic, t.fields.as_str());
        out.append(it.as_str());
        out.append("} ");
    }
    assert(out@ =~= span_part(t.name@, t.fields@));
    out
}

fn push_spans(out: &mut String, spans: &Vec<SpanText>)
    ensures
        final(out)@ == old(out)@ + spans_text(span_views(spans@), 0),
{
    let ghost sv = span_views(spans@);
    let mut i: usize = 0;
    while i < spans.len()
        invariant
            sv == span_views(spans@),
            sv.len() == spans.len(),
            i <= spans.len(),
            out@ + spans_text(sv, i as int) == old(out)@ + spans_text(sv, 0),
        decreases spans.len() - i,
    {
        let ghost before = out@;
        let piece = span_piece(&spans[i]);
        assert(sv[i as int] == (spans@[i as int].name@, spans@[i as int].fields@));
        out.append(piece.as_str());
        if i + 1 < spans.len() {
            out.append(", ");
        }
        assert(before + spans_text(sv, i as int) =~= out@ + spans_text(sv, i as int + 1));
        i = i + 1;
    }
    assert(out@ + spans_text(sv, i as int) =~= out@);
}

/// The service's tracing event formatter.
pub struct TLog;

impl TLog {
    /// The formatter (it has no settings).
    pub fn new() -> (t: TLog)
        ensures
            t == TLog,
    {
        TLog
    }

    /// Renders the log line for one event.
    pub fn format_event(&self, e: &EventRecord) -> (r: String)
        requires
            event_record_ok(*e),
        ensures
            r@ == event_line(*e),
    {
        let mut out = String::new();
        match format_utc_micros(e.utc_micros) {
            Some(t) => out.append(t.as_str()),
            None => {},
        }
        out.append(" ");
        let lv = level_as_str(e.level);
        let lp = paint(TermStyle::BoldColour(colour_of(e.level)), lv);
        out.append(lp.as_str());
        out.append(" [");
        out.append(e.trace_id.as_str());
        out.append(",");
        out.append(e.span_id.as_str());
        out.append("]");
        out.append(" [");
        push_decimal_u64(&mut out, e.pid as u64);
        match &e.thread_name {
            None => {
                out.append(", ]");
            },
            Some(n) => {
                out.append(",");
                let d = debug_text(n.as_str());
                out.append(d.as_str());
                out.append("]");
            },
        }
        out.append(" [");
        let tp = paint(TermStyle::BoldColour(TermColour::Blue), e.target.as_str());
        out.append(tp.as_str());
        out.append("]");
        match &e.module {
            None => {
                out.append(" []: ");
            },
            Some(m) => {
                out.append(" ");
                let short = abbreviate_module(m.as_str());
                let mp = paint(TermStyle::BoldColour(TermColour::Yellow), short.as_str());
                out.append(mp.as_str());
                out.append(": ");
            },
        }
        out.append(e.fields.as_str());
        match &e.spans {
            None => {},
            Some(sp) => {
                out.append("[");
                push_spans(&mut out, sp);
                out.append("] ");
            },
        }
        out.append("\n");
        assert(out@ =~= event_line(*e));
        out
    }
}

/// Name of a level (`tracing::Level::as_str`).
pub fn level_as_str(l: LogLevel) -> (r: &'static str)
    ensures
        r@ == level_name(l),
{
    match l {
        LogLevel::Trace => "TRACE",
        LogLevel::Debug => "DEBUG",
        LogLevel::Info => "INFO",
        LogLevel::Warn => "WARN",
        LogLevel::Error => "ERROR",
    }
}

/// Colour a level is shown in.
pub fn colour_of(l: LogLevel) -> (c: TermColour)
    ensures
        c == level_colour(l),
{
    match l {
        LogLevel::Trace => TermColour::Purple,
        LogLevel::Debug => TermColour::Blue,
        LogLevel::Info => TermColour::Green,
        LogLevel::Warn => TermColour::Yellow,
        LogLevel::Error => TermColour::Red,
    }
}

// ---- credits banner and filter ----

/// Package metadata shown in the credits banner.
pub struct PackageInfo {
    pub authors: String,
    pub name: String,
    pub homepage: String,
    pub description: String,
    pub repository: String,
    pub version: String,
}

/// The credits banner, one entry per log line.
pub open spec fn credits_lines(p: PackageInfo, profile: Profile) -> Seq<Seq<char>> {
    seq![
        "-------- START CREDITS ------------"@,
        "Author: "@ + p.authors@,
        "App Name: "@ + p.name@,
        "Home Page: "@ + p.homepage@,
        "Description: "@ + p.description@,
        "Repository: "@ + p.repository@,
        "App Version: "@ + p.version@,
        "Environment Profile: "@ + profile_name(profile),
        "-------- END CREDITS --------------"@,
    ]
}

fn labelled(label: &str, value: &str) -> (r: String)
    ensures
        r@ == label@ + value@,
{
    let mut s = String::from_str(label);
    s.append(value);
    s
}

/// The lines of the credits banner logged at start-up.
pub fn log_credits(p: &PackageInfo, profile: Profile) -> (lines: Vec<String>)
    ensures
        lines@.map_values(|l: String| l@) == credits_lines(*p, profile),
{
    let mut lines: Vec<String> = Vec::new();
    lines.push(String::from_str("-------- START CREDITS ------------"));
    lines.push(labelled("Author: ", p.authors.as_str()));
    lines.push(labelled("App Name: ", p.name.as_str()));
    lines.push(labelled("Home Page: ", p.homepage.as_str()));
    lines.push(labelled("Description: ", p.description.as_str()));
    lines.push(labelled("Repository: ", p.repository.as_str()));
    lines.push(labelled("App Version: ", p.version.as_str()));
    lines.push(labelled("Environment Profile: ", profile.as_str()));
    lines.push(String::from_str("-------- END CREDITS --------------"));
    assert(lines@.map_values(|l: String| l@) =~= credits_lines(*p, profile));
    lines
}

/// Filter directives used when `RUST_LOG` is not set.
pub open spec fn default_filter() -> Seq<char> {
    "info, actix_web=info,actix_server=info,actix_http=info"@
}

/// The log filter: the value of `RUST_LOG` when it is set, else the default
/// directives.
pub fn log_filter(rust_log: Option<String>) -> (r: String)
    ensures
        r@ == match rust_log {
            Some(v) => v@,
            None => default_filter(),
        },
{
    match rust_log {
        Some(v) => v,
        None => String::from_str("info, actix_web=info,actix_server=info,actix_http=info"),
    }
}

} // verus!
