//! Properties that hold of the error renderings across calls and flags.

use vstd::prelude::*;

use crate::error::{
    generated_error_text, rendered_cause_limit, shown_causes, text_chain, text_parts, trace_text, verbose_chain,
    verbose_blocks, verbose_node, marked_block, CauseText, ErrorTrace, FormatSpec,
};
use crate::text::{join, trim_newlines};
use crate::thread::cancelable::{
    sleep_transition, steps_left, SleepAction, SleepEvent, SleepState, Span, WaitOutcome, WakeOffer,
};

verus! {

/// Joining a leading run of the parts gives a prefix of joining them all.
proof fn lemma_join_prefix(parts: Seq<Seq<char>>, sep: Seq<char>, k: int)
    requires
        1 <= k <= parts.len(),
    ensures
        join(parts.take(k), sep).is_prefix_of(join(parts, sep)),
    decreases parts.len(),
{
    if k == parts.len() {
        assert(parts.take(k) =~= parts);
    } else {
        lemma_join_prefix(parts.drop_last(), sep, k);
        assert(parts.drop_last().take(k) =~= parts.take(k));
        let a = join(parts.take(k), sep);
        let b = join(parts.drop_last(), sep);
        let c = join(parts, sep);
        assert(c == b + sep + parts.last());
        assert(a =~= c.subrange(0, a.len() as int));
    }
}

/// Joining a trailing run of the parts gives a suffix of joining them all.
proof fn lemma_join_suffix(parts: Seq<Seq<char>>, sep: Seq<char>, j: int)
    requires
        0 <= j < parts.len(),
    ensures
        join(parts.skip(j), sep).is_suffix_of(join(parts, sep)),
    decreases parts.len(),
{
    if j == 0 {
        assert(parts.skip(j) =~= parts);
    } else if j == parts.len() - 1 {
        assert(parts.skip(j) =~= seq![parts.last()]);
        let c = join(parts, sep);
        assert(c == join(parts.drop_last(), sep) + sep + parts.last());
        assert(parts.last() =~= c.subrange(c.len() - parts.last().len(), c.len() as int));
    } else {
        lemma_join_suffix(parts.drop_last(), sep, j);
        assert(parts.skip(j).drop_last() =~= parts.drop_last().skip(j));
        assert(parts.skip(j).last() == parts.last());
        let a = join(parts.drop_last().skip(j), sep);
        let b = join(parts.drop_last(), sep);
        let whole_a = join(parts.skip(j), sep);
        let c = join(parts, sep);
        assert(whole_a == a + sep + parts.last());
        assert(c == b + sep + parts.last());
        assert(whole_a =~= c.subrange(c.len() - whole_a.len(), c.len() as int));
    }
}

/// The entries of a shallower text chain are a leading run of those of a deeper one.
proof fn lemma_text_parts_take(
    message: Seq<char>,
    causes: Seq<CauseText>,
    shallow: usize,
    deep: usize,
)
    requires
        shallow <= deep,
    ensures
        text_parts(message, causes, shallow) =~= text_parts(message, causes, deep).take(
            (shown_causes(causes.len(), shallow) + 1) as int,
        ),
        shown_causes(causes.len(), shallow) <= shown_causes(causes.len(), deep),
        text_parts(message, causes, deep).len() == shown_causes(causes.len(), deep) + 1,
{
}

/// Limiting the depth of a text chain cuts it short and nothing else: the
/// root-first chain limited to `shallow` entries is a prefix of the one
/// limited to `deep` entries, and the deepest-first chain limited to
/// `shallow` entries is a suffix of the one limited to `deep` entries.
pub proof fn law_depth_limit_cuts_the_chain(
    message: Seq<char>,
    causes: Seq<CauseText>,
    shallow: usize,
    deep: usize,
)
    requires
        shallow <= deep,
    ensures
        text_chain(message, causes, shallow, false).is_prefix_of(
            text_chain(message, causes, deep, false),
        ),
        text_chain(message, causes, shallow, true).is_suffix_of(
            text_chain(message, causes, deep, true),
        ),
{
    lemma_text_parts_take(message, causes, shallow, deep);
    let short = text_parts(message, causes, shallow);
    let long = text_parts(message, causes, deep);
    let k = short.len() as int;
    lemma_join_prefix(long, crate::error::because_sep(), k);
    assert(long.take(k).reverse() =~= long.reverse().skip(long.len() - k));
    lemma_join_suffix(long.reverse(), crate::error::therefore_sep(), long.len() - k);
}

/// A text chain limited to at most one entry, or of an error without
/// causes, is the message alone, in either direction.
pub proof fn law_single_entry_chain_is_the_message(
    message: Seq<char>,
    causes: Seq<CauseText>,
    max_depth: usize,
    reverse: bool,
)
    requires
        max_depth <= 1 || causes.len() == 0,
    ensures
        text_chain(message, causes, max_depth, reverse) == message,
{
    let parts = text_parts(message, causes, max_depth);
    assert(parts =~= seq![message]);
    assert(parts.reverse() =~= seq![message]);
}

/// A verbose chain that shows no cause is the error's own verbose block
/// without its trailing newlines, in either direction.
pub proof fn law_verbose_chain_without_causes(
    message: Seq<char>,
    trace: ErrorTrace,
    causes: Seq<CauseText>,
    max_depth: usize,
    reverse: bool,
)
    requires
        max_depth <= 1 || causes.len() == 0,
    ensures
        verbose_chain(message, trace, causes, max_depth, reverse) == trim_newlines(
            verbose_node(message, trace),
        ),
{
    let blocks = crate::error::verbose_blocks(message, trace, causes, max_depth);
    assert(blocks =~= seq![trim_newlines(verbose_node(message, trace))]);
    assert(blocks.reverse() =~= blocks);
}

/// Without flags an error renders as its message alone, whatever its
/// trace and causes.
pub proof fn law_plain_rendering_is_the_message(
    spec: FormatSpec,
    message: Seq<char>,
    trace: ErrorTrace,
    causes: Seq<CauseText>,
)
    requires
        !spec.alternate,
        !spec.sign_minus,
        !spec.sign_plus,
    ensures
        generated_error_text(spec, message, trace, causes) == message,
{
}

/// An error's rendering reads no cause past the limit of its flags: with
/// more causes than that, it renders the same from the first `limit` alone.
pub proof fn law_rendering_reads_only_shown_causes(
    spec: FormatSpec,
    message: Seq<char>,
    trace: ErrorTrace,
    causes: Seq<CauseText>,
)
    requires
        causes.len() > rendered_cause_limit(spec),
    ensures
        generated_error_text(spec, message, trace, causes) == generated_error_text(
            spec,
            message,
            trace,
            causes.take(rendered_cause_limit(spec) as int),
        ),
{
    let limit = rendered_cause_limit(spec) as int;
    let fewer = causes.take(limit);
    let max_depth = match spec.precision {
        Some(p) => p,
        None => usize::MAX,
    };
    if spec.sign_minus || spec.sign_plus {
        let shown = shown_causes(causes.len(), max_depth) as int;
        assert(shown == limit);
        assert(shown_causes(fewer.len(), max_depth) == limit);
        assert(fewer.take(shown) =~= causes.take(shown));
        assert(text_parts(message, fewer, max_depth) =~= text_parts(message, causes, max_depth));
        assert(crate::error::verbose_blocks(message, trace, fewer, max_depth)
            =~= crate::error::verbose_blocks(message, trace, causes, max_depth));
    }
}

/// With `#` alone an error renders as its own verbose block, whatever its
/// causes and whatever the precision: the chain is not expanded.
pub proof fn law_alternate_is_the_own_block(
    spec: FormatSpec,
    message: Seq<char>,
    trace: ErrorTrace,
    causes: Seq<CauseText>,
)
    requires
        spec.alternate,
        !spec.sign_minus,
        !spec.sign_plus,
    ensures
        generated_error_text(spec, message, trace, causes) == verbose_node(message, trace),
{
}

/// Every trace but a captured backtrace renders ending with a newline.
pub proof fn law_trace_text_ends_with_newline(trace: ErrorTrace)
    requires
        !(trace is Backtrace),
    ensures
        trace_text(trace).len() > 0,
        trace_text(trace).last() == '\n',
{
}

/// A trace sent as its rendered text and received back as an erased trace
/// renders the same, for every trace whose rendering ends with a newline
/// (all but a backtrace whose text does not).
pub proof fn law_erased_trace_renders_the_same(trace: ErrorTrace, rendered: String)
    requires
        rendered@ == trace_text(trace),
        trace is Backtrace ==> trace_text(trace).len() > 0 && trace_text(trace).last() == '\n',
    ensures
        trace_text(ErrorTrace::Erased(rendered)) == trace_text(trace),
{
}

/// The state a sleep reaches from `state` through `events`, one step each.
pub open spec fn run_sleep(state: SleepState, events: Seq<SleepEvent>) -> SleepState
    decreases events.len(),
{
    if events.len() == 0 {
        state
    } else {
        run_sleep(sleep_transition(state, events[0]).0, events.drop_first())
    }
}

/// A finished sleep stays finished and does nothing more, whatever happens.
pub proof fn law_finished_sleep_stays_finished(event: SleepEvent)
    ensures
        sleep_transition(SleepState::Finished, event) == (SleepState::Finished, SleepAction::Stop),
{
}

/// Every sleep ends: whatever the events, a sleep in `state` is finished
/// after as many steps as `steps_left(state)` (three from the start).
pub proof fn law_every_sleep_ends(state: SleepState, events: Seq<SleepEvent>)
    requires
        events.len() >= steps_left(state),
    ensures
        run_sleep(state, events) is Finished,
    decreases events.len(),
{
    if events.len() > 0 {
        let next = sleep_transition(state, events[0]).0;
        assert(next is Finished || steps_left(next) < steps_left(state));
        law_every_sleep_ends(next, events.drop_first());
    }
}

/// A sleep whose deadline lies beyond what the clock can represent still
/// waits on the channel, for the whole requested span, so a handle can end
/// it; a wake-up then ends it at once.
pub proof fn law_unrepresentable_deadline_can_be_woken(span: Span)
    requires
        !span.spec_is_zero(),
    ensures
        sleep_transition(SleepState::Start, SleepEvent::Unrepresentable(span)) == (
            SleepState::Waiting,
            SleepAction::WaitForWake(span),
        ),
{
}

/// The number of entries a chain limited to `max_depth` shows: the error
/// itself and at most `max_depth - 1` causes (none when `max_depth` is 0).
pub open spec fn entries_shown(n_causes: nat, max_depth: usize) -> int {
    if max_depth == 0 {
        1
    } else if n_causes < max_depth - 1 {
        n_causes + 1int
    } else {
        max_depth as int
    }
}

/// A text chain has one entry per shown cause and one for the error: the
/// message first, then each shown cause's `{}` text, in order, none skipped.
pub proof fn law_text_chain_entries(message: Seq<char>, causes: Seq<CauseText>, max_depth: usize)
    ensures
        text_parts(message, causes, max_depth).len() == entries_shown(causes.len(), max_depth),
        text_parts(message, causes, max_depth)[0] == message,
        forall|k: int|
            0 <= k < entries_shown(causes.len(), max_depth) - 1 ==> #[trigger] text_parts(
                message,
                causes,
                max_depth,
            )[k + 1] == causes[k].plain@,
{
}

/// A verbose chain has one block per shown cause and one for the error: the
/// error's own block first, then each shown cause's `{:#}` text, in order,
/// none skipped, each without its trailing newlines.
pub proof fn law_verbose_chain_blocks(
    message: Seq<char>,
    trace: ErrorTrace,
    causes: Seq<CauseText>,
    max_depth: usize,
)
    ensures
        verbose_blocks(message, trace, causes, max_depth).len() == entries_shown(
            causes.len(),
            max_depth,
        ),
        verbose_blocks(message, trace, causes, max_depth)[0] == trim_newlines(
            verbose_node(message, trace),
        ),
        forall|k: int|
            0 <= k < entries_shown(causes.len(), max_depth) - 1 ==> #[trigger] verbose_blocks(
                message,
                trace,
                causes,
                max_depth,
            )[k + 1] == trim_newlines(causes[k].alternate@),
{
}

/// A joined sequence of parts starts with the first part and ends with the last.
proof fn lemma_join_ends(parts: Seq<Seq<char>>, sep: Seq<char>)
    requires
        parts.len() >= 1,
    ensures
        parts[0].is_prefix_of(join(parts, sep)),
        parts.last().is_suffix_of(join(parts, sep)),
{
    lemma_join_prefix(parts, sep, 1);
    assert(parts.take(1) =~= seq![parts[0]]);
    let j = join(parts, sep);
    if parts.len() >= 2 {
        assert(j == join(parts.drop_last(), sep) + sep + parts.last());
        assert(parts.last() =~= j.subrange(j.len() - parts.last().len(), j.len() as int));
    } else {
        assert(parts.last() =~= j.subrange(0, j.len() as int));
    }
}

/// Blocks put together start with the first block and end with the last
/// one as it appears after its marker (or as it is, when it is the only one).
proof fn lemma_verbose_join_ends(blocks: Seq<Seq<char>>, marker: char)
    requires
        blocks.len() >= 1,
    ensures
        blocks[0].is_prefix_of(crate::error::verbose_join(blocks, marker)),
        blocks.len() >= 2 ==> marked_block(blocks.last()).is_suffix_of(
            crate::error::verbose_join(blocks, marker),
        ),
    decreases blocks.len(),
{
    let j = crate::error::verbose_join(blocks, marker);
    if blocks.len() >= 2 {
        lemma_verbose_join_ends(blocks.drop_last(), marker);
        let front = crate::error::verbose_join(blocks.drop_last(), marker);
        assert(j == front + seq!['\n', '\n', marker, ' '] + marked_block(blocks.last()));
        assert(blocks.drop_last()[0] == blocks[0]);
        assert(blocks[0] =~= j.subrange(0, blocks[0].len() as int));
        let tail = marked_block(blocks.last());
        assert(tail =~= j.subrange(j.len() - tail.len(), j.len() as int));
    } else {
        assert(blocks[0] =~= j.subrange(0, j.len() as int));
    }
}

/// With no depth limit every cause is shown, down to the root cause: the
/// root-first chains end with the root cause, the deepest-first chains
/// start with it, and both start or end with the error itself.
pub proof fn law_unlimited_chains_reach_the_root_cause(
    message: Seq<char>,
    trace: ErrorTrace,
    causes: Seq<CauseText>,
)
    requires
        0 < causes.len() < usize::MAX,
    ensures
        message.is_prefix_of(text_chain(message, causes, usize::MAX, false)),
        causes.last().plain@.is_suffix_of(text_chain(message, causes, usize::MAX, false)),
        causes.last().plain@.is_prefix_of(text_chain(message, causes, usize::MAX, true)),
        message.is_suffix_of(text_chain(message, causes, usize::MAX, true)),
        trim_newlines(verbose_node(message, trace)).is_prefix_of(
            verbose_chain(message, trace, causes, usize::MAX, false),
        ),
        marked_block(trim_newlines(causes.last().alternate@)).is_suffix_of(
            verbose_chain(message, trace, causes, usize::MAX, false),
        ),
        trim_newlines(causes.last().alternate@).is_prefix_of(
            verbose_chain(message, trace, causes, usize::MAX, true),
        ),
        marked_block(trim_newlines(verbose_node(message, trace))).is_suffix_of(
            verbose_chain(message, trace, causes, usize::MAX, true),
        ),
{
    law_text_chain_entries(message, causes, usize::MAX);
    law_verbose_chain_blocks(message, trace, causes, usize::MAX);
    let parts = text_parts(message, causes, usize::MAX);
    let n = causes.len() as int;
    assert(parts.len() == n + 1);
    assert(parts.last() == parts[n - 1 + 1]);
    assert(parts.last() == causes[n - 1].plain@);
    lemma_join_ends(parts, crate::error::because_sep());
    let rparts = parts.reverse();
    assert(rparts[0] == parts.last());
    assert(rparts.last() == parts[0]);
    lemma_join_ends(rparts, crate::error::therefore_sep());
    let blocks = verbose_blocks(message, trace, causes, usize::MAX);
    assert(blocks.len() == n + 1);
    assert(blocks.last() == blocks[n - 1 + 1]);
    lemma_verbose_join_ends(blocks, '∵');
    let rblocks = blocks.reverse();
    assert(rblocks[0] == blocks.last());
    assert(rblocks.last() == blocks[0]);
    lemma_verbose_join_ends(rblocks, '∴');
}

/// An error's verbose block is `"error: "`, the message and a newline,
/// followed by the trace's own rendering, whatever the trace.
pub proof fn law_verbose_block_ends_with_the_trace(message: Seq<char>, trace: ErrorTrace)
    ensures
        ({
            let head = seq!['e', 'r', 'r', 'o', 'r', ':', ' '] + message + seq!['\n'];
            &&& verbose_node(message, trace).take(head.len() as int) == head
            &&& verbose_node(message, trace).skip(head.len() as int) == trace_text(trace)
        }),
{
    let head = seq!['e', 'r', 'r', 'o', 'r', ':', ' '] + message + seq!['\n'];
    assert(verbose_node(message, trace).take(head.len() as int) =~= head);
    assert(verbose_node(message, trace).skip(head.len() as int) =~= trace_text(trace));
}

/// A trace that carries text keeps all of it: a backtrace renders as its
/// text unchanged, and an erased trace as its text with at most a newline added.
pub proof fn law_trace_text_keeps_the_text(text: String)
    ensures
        trace_text(ErrorTrace::Backtrace(text)) == text@,
        text@.is_prefix_of(trace_text(ErrorTrace::Erased(text))),
        trace_text(ErrorTrace::Erased(text)).len() <= text@.len() + 1,
{
    assert(text@ =~= text@.push('\n').subrange(0, text@.len() as int));
}

/// A wake-up offer reports the sleeper gone exactly when it is: a delivered
/// wake-up or one that found nobody waiting both report `true`.
pub proof fn law_only_a_gone_sleeper_reports_false(offer: WakeOffer, reported: bool)
    requires
        reported == !(offer is SleeperGone),
    ensures
        (offer is Delivered) ==> reported,
        (offer is NobodyWaiting) ==> reported,
        !reported <==> (offer is SleeperGone),
{
}

/// A wake-up from a handle ends the sleep at once, with nothing more slept.
pub proof fn law_wake_ends_the_sleep()
    ensures
        sleep_transition(SleepState::Waiting, SleepEvent::Waited(WaitOutcome::Woken)) == (
            SleepState::Finished,
            SleepAction::Stop,
        ),
{
}

/// A sleep never waits or sleeps longer than the clock said was left: every
/// wait or sleep that follows a clock reading lasts exactly the time left,
/// and only when some time is left.
pub proof fn law_no_sleep_past_the_deadline(state: SleepState, remaining: Option<Span>)
    ensures
        ({
            let action = sleep_transition(state, SleepEvent::Remaining(remaining)).1;
            (action is WaitForWake || action is Sleep) ==> remaining is Some && !remaining->0.spec_is_zero()
                && (action is WaitForWake ==> action->WaitForWake_0 == remaining->0)
                && (action is Sleep ==> action->Sleep_0 == remaining->0)
        }),
{
}

/// Losing every handle does not cut a sleep short: after the wait ends that
/// way the clock is read again, and whatever time is still left is slept out.
pub proof fn law_lost_handles_sleep_out_the_rest(left: Span)
    requires
        !left.spec_is_zero(),
    ensures
        sleep_transition(SleepState::Waiting, SleepEvent::Waited(WaitOutcome::HandlesGone)) == (
            SleepState::Rechecking,
            SleepAction::ReadClock,
        ),
        sleep_transition(SleepState::Rechecking, SleepEvent::Remaining(Some(left))) == (
            SleepState::Finished,
            SleepAction::Sleep(left),
        ),
{
}

} // verus!
