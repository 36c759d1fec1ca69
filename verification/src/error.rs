//! Error values that keep their causal chain, and the text renderings of
//! such chains.

use std::fmt::Write as _;

use vstd::prelude::*;

use crate::text::{
    append_chars, chars_of, decimal, first_newline, has_newline, is_first_newline, join,
    join_parts, push_char, push_decimal, trim_newlines, trimmed_len,
};

verus! {

broadcast use vstd::string::group_string_axioms;

/// What is known of one error on a causal chain: its `Display` text and
/// its `Debug` text.
#[derive(Debug, Clone)]
pub struct ErrorHop {
    /// The error's `Display` rendering.
    pub message: String,
    /// The error's `Debug` rendering.
    pub kind: String,
}

/// The `(message, kind)` pairs of a chain of hops, in order.
pub open spec fn hop_views(hops: Seq<ErrorHop>) -> Seq<(Seq<char>, Seq<char>)> {
    hops.map_values(|h: ErrorHop| (h.message@, h.kind@))
}

/// An error which has no canonical JSON representation.
#[derive(Debug, PartialEq, Eq)]
pub struct UnserializableError {
    /// Human-readable (hopefully) description of the error
    pub error_message: String,
    /// Inner representation of the error, usually Rust's "debug" formatting
    pub error_kind: String,
    /// The cause of this error, if available
    pub error_cause: Option<Box<UnserializableError>>,
}

impl UnserializableError {
    /// The `(message, kind)` pairs of this error and of its causes, outermost first.
    pub open spec fn chain(self) -> Seq<(Seq<char>, Seq<char>)>
        decreases self,
    {
        let head = seq![(self.error_message@, self.error_kind@)];
        match self.error_cause {
            Some(cause) => head + (*cause).chain(),
            None => head,
        }
    }

    /// Builds the error that records `chain`: the error itself first, then the
    /// error that caused it, and so on down to the root cause.
    pub fn from_error(chain: Vec<ErrorHop>) -> (res: Self)
        requires
            chain@.len() > 0,
        ensures
            res.chain() == hop_views(chain@),
    {
        let ghost all = chain@;
        let mut rest = chain;
        let last = rest.pop().unwrap();
        let mut node = UnserializableError {
            error_message: last.message,
            error_kind: last.kind,
            error_cause: None,
        };
        assert(node.chain() =~= hop_views(all).skip(rest@.len() as int));
        while rest.len() > 0
            invariant
                rest@ == all.take(rest@.len() as int),
                rest@.len() < all.len(),
                node.chain() == hop_views(all).skip(rest@.len() as int),
            decreases rest@.len(),
        {
            let ghost before = rest@;
            let hop = rest.pop().unwrap();
            assert(hop == all[rest@.len() as int]);
            node = UnserializableError {
                error_message: hop.message,
                error_kind: hop.kind,
                error_cause: Some(Box::new(node)),
            };
            assert(node.chain() =~= hop_views(all).skip(rest@.len() as int));
            assert(rest@ =~= all.take(rest@.len() as int));
        }
        assert(hop_views(all).skip(0) =~= hop_views(all));
        node
    }

    /// The `Display` rendering of this error: its message.
    pub fn display_text(&self) -> (res: String)
        ensures
            res@ == self.error_message@,
    {
        self.error_message.clone()
    }
}

impl Clone for UnserializableError {
    /// A copy with the same messages and kinds all along the chain.
    fn clone(&self) -> (res: Self)
        ensures
            res.chain() == self.chain(),
        decreases self,
    {
        let cause = match &self.error_cause {
            Some(cause) => Some(Box::new((&**cause).clone())),
            None => None,
        };
        UnserializableError {
            error_message: self.error_message.clone(),
            error_kind: self.error_kind.clone(),
            error_cause: cause,
        }
    }
}

/// Where an error was raised: a source file, line and column.
#[derive(Debug, Clone)]
pub struct SourceLocation {
    /// The path of the source file.
    pub file: String,
    /// The line, counted from 1.
    pub line: u32,
    /// The column, counted from 1.
    pub column: u32,
}

/// What an error records of the place it was raised at.
#[derive(Debug, Clone)]
pub enum ErrorTrace {
    /// Nothing is recorded.
    Empty,
    /// The source location of the code that raised the error.
    Location(SourceLocation),
    /// A captured backtrace, as its rendered text.
    Backtrace(String),
    /// A trace that was rendered elsewhere (for example received over the
    /// wire) and is only kept as text.
    Erased(String),
}

/// The rendering of a trace: what follows the message in a verbose error.
pub open spec fn trace_text(trace: ErrorTrace) -> Seq<char> {
    match trace {
        ErrorTrace::Empty => seq!['\n'],
        ErrorTrace::Location(loc) => seq![' ', '@'] + loc.file@ + seq![':'] + decimal(
            loc.line as nat,
        ) + seq![':'] + decimal(loc.column as nat) + seq!['\n'],
        ErrorTrace::Backtrace(text) => text@,
        ErrorTrace::Erased(text) => if text@.len() > 0 && text@.last() == '\n' {
            text@
        } else {
            text@.push('\n')
        },
    }
}

impl Default for ErrorTrace {
    /// No trace.
    fn default() -> (res: Self)
        ensures
            res is Empty,
    {
        ErrorTrace::Empty
    }
}

impl ErrorTrace {
    /// The rendering of this trace (its `Display` output).
    pub fn render(&self) -> (res: String)
        ensures
            res@ == trace_text(*self),
            *self is Backtrace ==> res@ == self->Backtrace_0@,
    {
        match self {
            ErrorTrace::Empty => {
                let mut out = String::new();
                push_char(&mut out, '\n');
                out
            },
            ErrorTrace::Location(loc) => {
                let mut out = String::new();
                push_char(&mut out, ' ');
                push_char(&mut out, '@');
                out.append(loc.file.as_str());
                push_char(&mut out, ':');
                push_decimal(&mut out, loc.line);
                push_char(&mut out, ':');
                push_decimal(&mut out, loc.column);
                push_char(&mut out, '\n');
                assert(out@ =~= trace_text(*self));
                out
            },
            ErrorTrace::Backtrace(text) => text.clone(),
            ErrorTrace::Erased(text) => {
                let mut out = text.clone();
                let n = text.as_str().unicode_len();
                if n == 0 || text.as_str().get_char(n - 1) != '\n' {
                    push_char(&mut out, '\n');
                }
                out
            },
        }
    }
}

/// The flags of a `{}` format request that decide how an error renders.
#[derive(Debug, Clone, Copy)]
pub struct FormatSpec {
    /// The `#` flag.
    pub alternate: bool,
    /// The `-` flag.
    pub sign_minus: bool,
    /// The `+` flag.
    pub sign_plus: bool,
    /// The precision (`.N`), if one was given.
    pub precision: Option<usize>,
}

/// One cause on an error's causal chain, as its two renderings.
#[derive(Debug, Clone)]
pub struct CauseText {
    /// The cause rendered with `{}`.
    pub plain: String,
    /// The cause rendered with `{:#}`.
    pub alternate: String,
}

/// The separator of a forward (root first) text chain: `" ∵ "`.
pub open spec fn because_sep() -> Seq<char> {
    seq![' ', '∵', ' ']
}

/// The separator of a reverse (deepest first) text chain: `" ∴ "`.
pub open spec fn therefore_sep() -> Seq<char> {
    seq![' ', '∴', ' ']
}

/// How many causes a chain limited to `max_depth` entries shows, the error
/// itself always being the first entry.
pub open spec fn shown_causes(n_causes: nat, max_depth: usize) -> nat {
    if max_depth == 0 {
        0
    } else if n_causes < max_depth - 1 {
        n_causes
    } else {
        (max_depth - 1) as nat
    }
}

/// The entries of a text chain: the message, then the plain text of each
/// shown cause.
pub open spec fn text_parts(message: Seq<char>, causes: Seq<CauseText>, max_depth: usize) -> Seq<
    Seq<char>,
> {
    seq![message] + causes.take(shown_causes(causes.len(), max_depth) as int).map_values(
        |c: CauseText| c.plain@,
    )
}

/// A text chain: its entries joined by `" ∵ "`, or, reversed, by `" ∴ "`.
pub open spec fn text_chain(
    message: Seq<char>,
    causes: Seq<CauseText>,
    max_depth: usize,
    reverse: bool,
) -> Seq<char> {
    let parts = text_parts(message, causes, max_depth);
    if reverse {
        join(parts.reverse(), therefore_sep())
    } else {
        join(parts, because_sep())
    }
}

/// The verbose block of one error: `"error: "`, the message, a newline and the trace.
pub open spec fn verbose_node(message: Seq<char>, trace: ErrorTrace) -> Seq<char> {
    seq!['e', 'r', 'r', 'o', 'r', ':', ' '] + message + seq!['\n'] + trace_text(trace)
}

/// `s` with four spaces put before every character that starts a line
/// (the first character, and each one after a `'\n'`), except a `'\n'`
/// itself: empty lines stay empty.
pub open spec fn indent_from(s: Seq<char>, line_start: bool) -> Seq<char>
    decreases s.len(),
{
    if s.len() == 0 {
        Seq::empty()
    } else if s[0] == '\n' {
        seq!['\n'] + indent_from(s.drop_first(), true)
    } else if line_start {
        seq![' ', ' ', ' ', ' ', s[0]] + indent_from(s.drop_first(), false)
    } else {
        seq![s[0]] + indent_from(s.drop_first(), false)
    }
}

/// `s` with each of its non-empty lines indented by four spaces.
pub open spec fn indented(s: Seq<char>) -> Seq<char> {
    indent_from(s, true)
}

/// Writes `text` through `indenter::indented` with its default format
/// (`Format::Uniform` with four spaces) into a fresh `String`, in one
/// `write_str` call. The crate's `write_str` splits the text at `'\n'`,
/// writes each `'\n'` back, and puts the indentation before each line
/// that has text on it; writing into a `String` never fails.
#[verifier::external_body]
fn indent_lines(text: &str) -> (res: String)
    ensures
        res@ == indented(text@),
{
    let mut out = String::new();
    let _ = indenter::indented(&mut out).write_str(text);
    out
}

/// A block of a verbose chain as it appears after its marker: its first
/// line as it is, then the rest indented; a block of one line stays as it is.
pub open spec fn marked_block(block: Seq<char>) -> Seq<char> {
    if has_newline(block) {
        let i = choose|i: int| is_first_newline(block, i);
        block.take(i) + seq!['\n'] + indented(block.skip(i + 1))
    } else {
        block
    }
}

/// The blocks of a verbose chain put together: the first as it is, each
/// later one after a blank line and `marker` followed by a space.
pub open spec fn verbose_join(blocks: Seq<Seq<char>>, marker: char) -> Seq<char>
    decreases blocks.len(),
{
    if blocks.len() == 0 {
        Seq::empty()
    } else if blocks.len() == 1 {
        blocks[0]
    } else {
        verbose_join(blocks.drop_last(), marker) + seq!['\n', '\n', marker, ' '] + marked_block(
            blocks.last(),
        )
    }
}

/// The blocks of a verbose chain: the error's own verbose block, then the
/// `{:#}` text of each shown cause, each without its trailing newlines.
pub open spec fn verbose_blocks(
    message: Seq<char>,
    trace: ErrorTrace,
    causes: Seq<CauseText>,
    max_depth: usize,
) -> Seq<Seq<char>> {
    seq![trim_newlines(verbose_node(message, trace))] + causes.take(
        shown_causes(causes.len(), max_depth) as int,
    ).map_values(|c: CauseText| trim_newlines(c.alternate@))
}

/// A verbose chain: root first under `'∵'` markers, or deepest first under `'∴'`.
pub open spec fn verbose_chain(
    message: Seq<char>,
    trace: ErrorTrace,
    causes: Seq<CauseText>,
    max_depth: usize,
    reverse: bool,
) -> Seq<char> {
    let blocks = verbose_blocks(message, trace, causes, max_depth);
    if reverse {
        verbose_join(blocks.reverse(), '∴')
    } else {
        verbose_join(blocks, '∵')
    }
}

/// The rendering of an error under the format flags `spec`.
pub open spec fn generated_error_text(
    spec: FormatSpec,
    message: Seq<char>,
    trace: ErrorTrace,
    causes: Seq<CauseText>,
) -> Seq<char> {
    let max_depth = match spec.precision {
        Some(p) => p,
        None => usize::MAX,
    };
    if spec.alternate && spec.sign_minus {
        verbose_chain(message, trace, causes, max_depth, false)
    } else if spec.alternate && spec.sign_plus {
        verbose_chain(message, trace, causes, max_depth, true)
    } else if spec.alternate {
        verbose_node(message, trace)
    } else if spec.sign_minus {
        text_chain(message, causes, max_depth, false)
    } else if spec.sign_plus {
        text_chain(message, causes, max_depth, true)
    } else {
        message
    }
}

/// The number of causes that a chain limited to `max_depth` entries shows.
fn count_shown(n_causes: usize, max_depth: usize) -> (n: usize)
    ensures
        n == shown_causes(n_causes as nat, max_depth),
        n <= n_causes,
{
    if max_depth == 0 {
        0
    } else if n_causes < max_depth - 1 {
        n_causes
    } else {
        max_depth - 1
    }
}

/// Renders an error's verbose block: `"error: "`, the message, a newline and the trace.
pub fn write_verbose_node(message: &str, trace: &ErrorTrace) -> (res: String)
    ensures
        res@ == verbose_node(message@, *trace),
        res@ == seq!['e', 'r', 'r', 'o', 'r', ':', ' '] + message@ + seq!['\n'] + trace_text(*trace),
{
    let mut out = String::from_str("error: ");
    proof {
        reveal_strlit("error: ");
    }
    out.append(message);
    push_char(&mut out, '\n');
    let trace_rendered = trace.render();
    out.append(trace_rendered.as_str());
    assert(out@ =~= verbose_node(message@, *trace));
    out
}

/// Renders the causal chain of an error on one line: the message, then the
/// plain text of each cause, at most `max_depth` entries in all, joined by
/// `" ∵ "`; or, when `reverse` is set, the same entries deepest first,
/// joined by `" ∴ "`.
pub fn fmt_text_chain(message: &str, causes: &[CauseText], max_depth: usize, reverse: bool) -> (res:
    String)
    ensures
        res@ == text_chain(message@, causes@, max_depth, reverse),
{
    let shown = count_shown(causes.len(), max_depth);
    let mut parts: Vec<&str> = Vec::new();
    parts.push(message);
    let mut i: usize = 0;
    while i < shown
        invariant
            shown == shown_causes(causes@.len(), max_depth),
            shown <= causes@.len(),
            i <= shown,
            parts@.len() == i + 1,
            parts@[0]@ == message@,
            forall|k: int| 1 <= k <= i ==> #[trigger] parts@[k]@ == causes@[k - 1].plain@,
        decreases shown - i,
    {
        parts.push(causes[i].plain.as_str());
        i = i + 1;
    }
    assert(parts@.map_values(|p: &str| p@) =~= text_parts(message@, causes@, max_depth));
    if reverse {
        proof {
            reveal_strlit(" ∴ ");
        }
        assert(" ∴ "@ =~= therefore_sep());
        join_parts(&parts, " ∴ ", true)
    } else {
        proof {
            reveal_strlit(" ∵ ");
        }
        assert(" ∵ "@ =~= because_sep());
        join_parts(&parts, " ∵ ", false)
    }
}

/// `s` without its trailing newlines.
fn trimmed(s: &str) -> (res: String)
    ensures
        res@ == trim_newlines(s@),
{
    let cs = chars_of(s);
    let end = trimmed_len(&cs);
    let mut out = String::new();
    append_chars(&mut out, &cs, 0, end);
    assert(out@ =~= cs@.take(end as int));
    out
}

/// Where `i` is the first newline of `block`, the marked block splits there.
proof fn lemma_marked_block_at(block: Seq<char>, i: int)
    requires
        is_first_newline(block, i),
    ensures
        marked_block(block) == block.take(i) + seq!['\n'] + indented(block.skip(i + 1)),
{
    assert(block[i] == '\n');
    assert(has_newline(block));
    let j = choose|j: int| is_first_newline(block, j);
    if j < i {
        assert(block[j] != '\n');
    } else if j > i {
        assert(block[i] != '\n');
    }
}

/// Appends `block` as it appears after its marker in a verbose chain.
fn push_marked_block(out: &mut String, block: &str)
    ensures
        final(out)@ == old(out)@ + marked_block(block@),
{
    let cs = chars_of(block);
    let n = cs.len();
    assert(cs@.take(n as int) =~= cs@);
    match first_newline(&cs, n) {
        Some(i) => {
            proof {
                lemma_marked_block_at(block@, i as int);
            }
            append_chars(out, &cs, 0, i);
            push_char(out, '\n');
            let mut rest = String::new();
            append_chars(&mut rest, &cs, i + 1, n);
            let rest_indented = indent_lines(rest.as_str());
            out.append(rest_indented.as_str());
            assert(cs@.subrange(0, i as int) =~= block@.take(i as int));
            assert(cs@.subrange(i + 1, n as int) =~= block@.skip(i + 1));
            assert(final(out)@ =~= old(out)@ + marked_block(block@));
        },
        None => {
            out.append(block);
        },
    }
}

/// Renders the causal chain of an error as blocks: the error's own verbose
/// block, then the `{:#}` text of each cause, at most `max_depth` blocks in
/// all, each without its trailing newlines. Every block after the first
/// follows a blank line and a `"∵ "` marker (`"∴ "` with the blocks deepest
/// first, when `reverse` is set), and all its lines but the first are
/// indented by four spaces.
pub fn fmt_verbose_chain(
    message: &str,
    trace: &ErrorTrace,
    causes: &[CauseText],
    max_depth: usize,
    reverse: bool,
) -> (res: String)
    ensures
        res@ == verbose_chain(message@, *trace, causes@, max_depth, reverse),
{
    let ghost all = verbose_blocks(message@, *trace, causes@, max_depth);
    let shown = count_shown(causes.len(), max_depth);
    let root = write_verbose_node(message, trace);
    let mut blocks: Vec<String> = Vec::new();
    blocks.push(trimmed(root.as_str()));
    let mut i: usize = 0;
    while i < shown
        invariant
            shown == shown_causes(causes@.len(), max_depth),
            shown <= causes@.len(),
            i <= shown,
            all == verbose_blocks(message@, *trace, causes@, max_depth),
            blocks@.len() == i + 1,
            forall|k: int| 0 <= k < blocks@.len() ==> #[trigger] blocks@[k]@ == all[k],
        decreases shown - i,
    {
        blocks.push(trimmed(causes[i].alternate.as_str()));
        i = i + 1;
    }
    assert(all.len() == shown + 1);
    let marker = if reverse {
        '∴'
    } else {
        '∵'
    };
    let ghost ordered = if reverse {
        all.reverse()
    } else {
        all
    };
    let n = blocks.len();
    let mut out = String::new();
    let mut k: usize = 0;
    while k < n
        invariant
            n == blocks@.len(),
            n == all.len(),
            forall|j: int| 0 <= j < blocks@.len() ==> #[trigger] blocks@[j]@ == all[j],
            ordered == (if reverse {
                all.reverse()
            } else {
                all
            }),
            marker == (if reverse {
                '∴'
            } else {
                '∵'
            }),
            k <= n,
            out@ == verbose_join(ordered.take(k as int), marker),
        decreases n - k,
    {
        let idx = if reverse {
            n - 1 - k
        } else {
            k
        };
        let block = blocks[idx].as_str();
        assert(block@ == ordered[k as int]);
        assert(ordered.take(k + 1).drop_last() =~= ordered.take(k as int));
        if k == 0 {
            out.append(block);
        } else {
            push_char(&mut out, '\n');
            push_char(&mut out, '\n');
            push_char(&mut out, marker);
            push_char(&mut out, ' ');
            push_marked_block(&mut out, block);
        }
        k = k + 1;
        assert(out@ =~= verbose_join(ordered.take(k as int), marker));
    }
    assert(ordered.take(n as int) =~= ordered);
    out
}

/// The most causes a rendering under `spec` shows: none without `-` or `+`,
/// else one less than the depth limit.
pub open spec fn rendered_cause_limit(spec: FormatSpec) -> nat {
    let max_depth = match spec.precision {
        Some(p) => p,
        None => usize::MAX,
    };
    if !spec.sign_minus && !spec.sign_plus {
        0
    } else if max_depth == 0 {
        0
    } else {
        (max_depth - 1) as nat
    }
}

/// The most causes a rendering under `spec` shows; a caller that walks an
/// error's causes need not go further (see `law_rendering_reads_only_shown_causes`).
pub fn cause_limit(spec: &FormatSpec) -> (res: usize)
    ensures
        res == rendered_cause_limit(*spec),
{
    let max_depth = match spec.precision {
        Some(p) => p,
        None => usize::MAX,
    };
    if !spec.sign_minus && !spec.sign_plus {
        0
    } else if max_depth == 0 {
        0
    } else {
        max_depth - 1
    }
}

/// Renders an error under the format flags `spec`:
///
/// - `{}`: just the message.
/// - `{:-}` / `{:+}`: the causal chain on one line, root first (`∵`) or
///   deepest first (`∴`).
/// - `{:-.N}` / `{:+.N}`: the same, limited to `N` entries.
/// - `{:#}`: the error's own verbose block (message and trace).
/// - `{:-#}` / `{:+#}`: the verbose chain, each cause in its `{:#}` rendering.
pub fn fmt_generated_error(
    spec: &FormatSpec,
    message: &str,
    trace: &ErrorTrace,
    causes: &[CauseText],
) -> (res: String)
    ensures
        res@ == generated_error_text(*spec, message@, *trace, causes@),
{
    let max_depth = match spec.precision {
        Some(p) => p,
        None => usize::MAX,
    };
    match (spec.alternate, spec.sign_minus, spec.sign_plus) {
        (true, true, _) => fmt_verbose_chain(message, trace, causes, max_depth, false),
        (true, false, true) => fmt_verbose_chain(message, trace, causes, max_depth, true),
        (true, false, false) => write_verbose_node(message, trace),
        (false, true, _) => fmt_text_chain(message, causes, max_depth, false),
        (false, false, true) => fmt_text_chain(message, causes, max_depth, true),
        (false, false, false) => String::from_str(message),
    }
}

} // verus!
