//! What holds of the paint service across calls.

use vstd::prelude::*;

use super::batch::{is_ready, some_announces, still_known, summarises, tell};
use super::commands::CommandView;
use super::ids::PainterId;
use super::messages::{PaintMessage, ShutdownState};
use super::paint::{lemma_registered_without, painter_for_context, without_painter, Paint};
use super::routing::{handling, registered, serving, PainterEntry};
use super::shutdown::StateId;

verus! {

/// The painter that a command needs.
pub open spec fn needs_painter<P>(command: CommandView<P>) -> Option<PainterId> {
    match command {
        CommandView::Painter { painter, .. } => Some(painter),
        CommandView::GenerateImageKey { painter, .. } => Some(painter),
        CommandView::GenerateImageKeysForPipeline { painter, .. } => Some(painter),
        CommandView::GenerateFontKeys { painter, .. } => Some(painter),
        _ => None,
    }
}

/// Who a command sends keys to, or has keys sent to.
pub open spec fn answers<P>(command: CommandView<P>) -> Option<P> {
    match command {
        CommandView::GenerateImageKey { reply, .. } => Some(reply),
        CommandView::SendImageKey { reply, .. } => Some(reply),
        CommandView::GenerateFontKeys { reply, .. } => Some(reply),
        CommandView::SendFontKeys { reply, .. } => Some(reply),
        _ => None,
    }
}

/// No command ever needs a painter that is not there: messages may name painters
/// that have gone, and then nothing is asked of them.
pub proof fn commands_need_known_painters<P>(
    painters: Seq<PainterEntry>,
    state: ShutdownState,
    image_key_batch_size: usize,
    message: PaintMessage<P>,
    i: int,
)
    requires
        0 <= i < handling(painters, state, image_key_batch_size, message).len(),
    ensures
        needs_painter(handling(painters, state, image_key_batch_size, message)[i]) matches Some(
            painter,
        ) ==> registered(painters, painter),
{
    if let PaintMessage::GenerateFrame(ids) = message {
        let known = |id: PainterId| registered(painters, id);
        if state == ShutdownState::NotShuttingDown {
            ids@.lemma_filter_pred(known, i);
        }
    }
}

/// Whoever asks for keys is answered, exactly once, as long as the embedder has not
/// gone down, whether or not the painter is there.
pub proof fn key_requests_are_answered<P>(
    painters: Seq<PainterEntry>,
    state: ShutdownState,
    image_key_batch_size: usize,
    message: PaintMessage<P>,
)
    requires
        state != ShutdownState::FinishedShuttingDown,
    ensures
        message matches PaintMessage::GenerateImageKey(_, reply) ==> {
            let commands = handling(painters, state, image_key_batch_size, message);
            commands.len() == 1 && answers(commands[0]) == Some(reply)
        },
        message matches PaintMessage::GenerateFontKeys { result_sender, .. } ==> {
            let commands = handling(painters, state, image_key_batch_size, message);
            commands.len() == 1 && answers(commands[0]) == Some(result_sender)
        },
        message matches PaintMessage::GenerateImageKeysForPipeline(_, pipeline) ==> {
            let commands = handling(painters, state, image_key_batch_size, message);
            &&& commands.len() == 1
            &&& match commands[0] {
                CommandView::GenerateImageKeysForPipeline { pipeline_id, count, .. } => {
                    pipeline_id == pipeline && count == image_key_batch_size
                },
                CommandView::SendImageKeysForPipeline { pipeline_id, keys } => {
                    pipeline_id == pipeline && keys.len() == image_key_batch_size
                },
                _ => false,
            }
        },
{
}

/// The keys that are sent for a painter that is not there are as many as were asked
/// for, and all of them stand for nothing, within that painter's own namespace.
pub proof fn unknown_painters_have_null_keys<P>(
    painters: Seq<PainterEntry>,
    image_key_batch_size: usize,
    message: PaintMessage<P>,
)
    ensures
        message matches PaintMessage::GenerateImageKey(webview, _) ==> !registered(
            painters,
            webview.painter,
        ) ==> (serving(painters, image_key_batch_size, message)[0] matches
            CommandView::SendImageKey { key, .. } && key.namespace == webview.painter.0 && key.key
            == 0),
        message matches PaintMessage::GenerateFontKeys {
            number_of_font_keys,
            number_of_font_instance_keys,
            painter_id,
            ..
        } ==> !registered(painters, painter_id) ==> {
            &&& serving(painters, image_key_batch_size, message)[0] matches
                CommandView::SendFontKeys { font_keys, font_instance_keys, .. }
            &&& font_keys.len() == number_of_font_keys
            &&& font_instance_keys.len() == number_of_font_instance_keys
            &&& forall|i: int|
                0 <= i < font_keys.len() ==> (#[trigger] font_keys[i]).owner() == painter_id
                    && font_keys[i].key == 0
            &&& forall|i: int|
                0 <= i < font_instance_keys.len() ==> (#[trigger] font_instance_keys[i]).owner()
                    == painter_id && font_instance_keys[i].key == 0
        },
{
}

/// Once the embedder has gone down nothing is done; while it goes down a message is
/// either handled just as before or not at all.
pub proof fn shutdown_only_silences<P>(
    painters: Seq<PainterEntry>,
    image_key_batch_size: usize,
    message: PaintMessage<P>,
)
    ensures
        handling(
            painters,
            ShutdownState::FinishedShuttingDown,
            image_key_batch_size,
            message,
        ).len() == 0,
        handling(painters, ShutdownState::ShuttingDown, image_key_batch_size, message) == handling(
            painters,
            ShutdownState::NotShuttingDown,
            image_key_batch_size,
            message,
        ) || handling(
            painters,
            ShutdownState::ShuttingDown,
            image_key_batch_size,
            message,
        ).len() == 0,
        message.is_served_while_shutting_down() ==> handling(
            painters,
            ShutdownState::ShuttingDown,
            image_key_batch_size,
            message,
        ) == handling(
            painters,
            ShutdownState::NotShuttingDown,
            image_key_batch_size,
            message,
        ),
{
}

/// The shutdown state is shared: whatever the embedder sets it to, at whatever time, is
/// what the service goes by from then on, and what others set theirs to is not.
pub proof fn later_states_are_seen(
    paint: Paint,
    states: Seq<ShutdownState>,
    other: StateId,
    set: ShutdownState,
)
    requires
        paint.shares(states),
        other < states.len(),
    ensures
        paint.shares(states.update(other as int, set)),
        paint.state(states.update(other as int, set)) == if other == paint.shared_state() {
            set
        } else {
            paint.state(states)
        },
        paint.shares(states.push(set)),
        paint.state(states.push(set)) == paint.state(states),
{
}

/// A change among the painters.
pub enum PainterChange {
    Joined(PainterEntry),
    Left(PainterId),
}

/// The painters after a history of changes.
pub open spec fn painters_after(painters: Seq<PainterEntry>, changes: Seq<PainterChange>) -> Seq<
    PainterEntry,
>
    decreases changes.len(),
{
    if changes.len() == 0 {
        painters
    } else {
        let before = painters_after(painters, changes.drop_last());
        match changes.last() {
            PainterChange::Joined(entry) => before.push(entry),
            PainterChange::Left(gone) => without_painter(before, gone),
        }
    }
}

/// A painter that leaves takes no context away but its own.
proof fn lemma_context_without(
    painters: Seq<PainterEntry>,
    gone: PainterId,
    rendering_context: u64,
)
    ensures
        ({
            let before = painter_for_context(painters, rendering_context);
            let after = painter_for_context(without_painter(painters, gone), rendering_context);
            &&& before is None ==> after is None
            &&& before is Some && before != Some(gone) ==> after == before
        }),
    decreases painters.len(),
{
    reveal(Seq::filter);
    if painters.len() > 0 {
        let rest = without_painter(painters.drop_last(), gone);
        lemma_context_without(painters.drop_last(), gone, rendering_context);
        assert(rest.push(painters.last()).drop_last() =~= rest);
    }
}

/// A rendering context that is registered again is found under the painter that was
/// made for it, whatever painters have come since and whatever others have gone.
pub proof fn contexts_are_registered_once(
    painters: Seq<PainterEntry>,
    entry: PainterEntry,
    changes: Seq<PainterChange>,
)
    requires
        painter_for_context(painters, entry.rendering_context) is None,
        !changes.contains(PainterChange::Left(entry.painter_id)),
    ensures
        painter_for_context(
            painters_after(painters.push(entry), changes),
            entry.rendering_context,
        ) == Some(entry.painter_id),
    decreases changes.len(),
{
    if changes.len() == 0 {
        assert(painters.push(entry).drop_last() =~= painters);
    } else {
        let earlier = changes.drop_last();
        assert(!earlier.contains(PainterChange::Left(entry.painter_id))) by {
            if earlier.contains(PainterChange::Left(entry.painter_id)) {
                let i = earlier.index_of(PainterChange::Left(entry.painter_id));
                assert(changes[i] == earlier[i]);
            }
        }
        contexts_are_registered_once(painters, entry, earlier);
        let before = painters_after(painters.push(entry), earlier);
        match changes.last() {
            PainterChange::Joined(joined) => {
                assert(before.push(joined).drop_last() =~= before);
            },
            PainterChange::Left(gone) => {
                assert(changes[changes.len() - 1] == changes.last());
                lemma_context_without(before, gone, entry.rendering_context);
            },
        }
    }
}

/// No two painters share a rendering context.
pub open spec fn distinct_contexts(painters: Seq<PainterEntry>) -> bool {
    forall|i: int, j: int|
        0 <= i < j < painters.len() ==> (#[trigger] painters[i]).rendering_context != (
        #[trigger] painters[j]).rendering_context
}

/// A context for which no painter is found is the context of none.
proof fn lemma_no_painter_for_context(painters: Seq<PainterEntry>, rendering_context: u64)
    ensures
        painter_for_context(painters, rendering_context) is None <==> forall|i: int|
            0 <= i < painters.len() ==> (#[trigger] painters[i]).rendering_context
                != rendering_context,
    decreases painters.len(),
{
    if painters.len() > 0 {
        let rest = painters.drop_last();
        lemma_no_painter_for_context(rest, rendering_context);
        assert forall|i: int| 0 <= i < rest.len() implies #[trigger] rest[i] == painters[i] by {}
        if painter_for_context(painters, rendering_context) is None {
            assert forall|i: int| 0 <= i < painters.len() implies (#[trigger]
            painters[i]).rendering_context != rendering_context by {
                if i < rest.len() {
                    assert(rest[i] == painters[i]);
                }
            }
        } else if painter_for_context(rest, rendering_context) is Some {
            let i = choose|i: int|
                0 <= i < rest.len() && (#[trigger] rest[i]).rendering_context
                    == rendering_context;
            assert(painters[i].rendering_context == rendering_context);
        } else {
            assert(painters[painters.len() - 1].rendering_context == rendering_context);
        }
    }
}

/// A painter that joins for a context for which none was found leaves no context
/// shared.
pub proof fn contexts_stay_distinct_on_join(painters: Seq<PainterEntry>, entry: PainterEntry)
    requires
        distinct_contexts(painters),
        painter_for_context(painters, entry.rendering_context) is None,
    ensures
        distinct_contexts(painters.push(entry)),
{
    let after = painters.push(entry);
    lemma_no_painter_for_context(painters, entry.rendering_context);
    assert forall|i: int, j: int|
        0 <= i < j < after.len() implies (#[trigger] after[i]).rendering_context != (
    #[trigger] after[j]).rendering_context by {
        assert(painters[i] == after[i]);
    }
}

/// A painter that leaves leaves no context shared.
pub proof fn contexts_stay_distinct_on_leave(painters: Seq<PainterEntry>, gone: PainterId)
    requires
        distinct_contexts(painters),
    ensures
        distinct_contexts(without_painter(painters, gone)),
    decreases painters.len(),
{
    reveal(Seq::filter);
    if painters.len() > 0 {
        let rest = painters.drop_last();
        let last = painters.last();
        contexts_stay_distinct_on_leave(rest, gone);
        if last.painter_id != gone {
            assert forall|i: int| 0 <= i < rest.len() implies (#[trigger]
            rest[i]).rendering_context != last.rendering_context by {
                assert(painters[i].rendering_context != painters[painters.len()
                    - 1].rendering_context);
            }
            lemma_no_painter_for_context(rest, last.rendering_context);
            lemma_context_without(rest, gone, last.rendering_context);
            contexts_stay_distinct_on_join(without_painter(rest, gone), last);
        }
    }
}

/// All painters have names of their own.
pub open spec fn distinct_names(painters: Seq<PainterEntry>) -> bool {
    forall|i: int, j: int|
        0 <= i < j < painters.len() ==> (#[trigger] painters[i]).painter_id != (
        #[trigger] painters[j]).painter_id
}

/// A painter that joins under a new name leaves all names distinct.
pub proof fn names_stay_distinct_on_join(painters: Seq<PainterEntry>, entry: PainterEntry)
    requires
        distinct_names(painters),
        !registered(painters, entry.painter_id),
    ensures
        distinct_names(painters.push(entry)),
{
    let after = painters.push(entry);
    assert forall|i: int, j: int| 0 <= i < j < after.len() implies (#[trigger] after[i]).painter_id
        != (#[trigger] after[j]).painter_id by {
        assert(painters[i] == after[i]);
    }
}

/// A painter that leaves leaves all names distinct.
pub proof fn names_stay_distinct_on_leave(painters: Seq<PainterEntry>, gone: PainterId)
    requires
        distinct_names(painters),
    ensures
        distinct_names(without_painter(painters, gone)),
    decreases painters.len(),
{
    reveal(Seq::filter);
    if painters.len() > 0 {
        let rest = painters.drop_last();
        let last = painters.last();
        names_stay_distinct_on_leave(rest, gone);
        if last.painter_id != gone {
            assert(!registered(rest, last.painter_id)) by {
                if registered(rest, last.painter_id) {
                    let i = choose|i: int|
                        0 <= i < rest.len() && (#[trigger] rest[i]).painter_id == last.painter_id;
                    assert(painters[i].painter_id == painters[painters.len() - 1].painter_id);
                }
            }
            lemma_registered_without(rest, gone);
            names_stay_distinct_on_join(without_painter(rest, gone), last);
        }
    }
}

/// A painter that leaves is no longer there, and every other painter stays.
pub proof fn leaving_concerns_one_painter(painters: Seq<PainterEntry>, gone: PainterId)
    ensures
        !registered(without_painter(painters, gone), gone),
        forall|id: PainterId|
            id != gone ==> (registered(without_painter(painters, gone), id) <==> #[trigger]
            registered(painters, id)),
{
    lemma_registered_without(painters, gone);
}

/// The painters in a summary, each but once, survive that some have gone.
proof fn lemma_filter_keeps_firsts_distinct(
    ready: Seq<(PainterId, bool)>,
    keep: spec_fn((PainterId, bool)) -> bool,
)
    requires
        forall|i: int, j: int|
            0 <= i < j < ready.len() ==> (#[trigger] ready[i]).0 != (#[trigger] ready[j]).0,
    ensures
        forall|i: int, j: int|
            0 <= i < j < ready.filter(keep).len() ==> (#[trigger] ready.filter(keep)[i]).0 != (
            #[trigger] ready.filter(keep)[j]).0,
    decreases ready.len(),
{
    reveal(Seq::filter);
    if ready.len() > 0 {
        let rest = ready.drop_last();
        assert forall|i: int, j: int| 0 <= i < j < rest.len() implies (#[trigger] rest[i]).0 != (
        #[trigger] rest[j]).0 by {
            assert(ready[i] == rest[i] && ready[j] == rest[j]);
        }
        lemma_filter_keeps_firsts_distinct(rest, keep);
        let kept = rest.filter(keep);
        assert forall|i: int| 0 <= i < kept.len() implies (#[trigger] kept[i]).0
            != ready.last().0 by {
            rest.lemma_filter_contains_rev(keep, kept[i]);
            let k = choose|k: int| 0 <= k < rest.len() && rest[k] == kept[i];
            assert(ready[k] == rest[k]);
            assert(ready[k].0 != ready[ready.len() - 1].0);
        }
    }
}

/// At the end of a batch a painter is told of its new frames at most once, however
/// many messages there were on them; it is told exactly if it was and still is
/// there and there was such a message.
pub proof fn new_frames_are_told_once<P>(
    ready: Seq<(PainterId, bool)>,
    at_first: Seq<PainterEntry>,
    by_now: Seq<PainterEntry>,
    messages: Seq<PaintMessage<P>>,
)
    requires
        summarises(ready, at_first, messages),
    ensures
        ({
            let told = ready.filter(still_known(by_now)).map_values(tell::<P>());
            &&& forall|i: int, j: int|
                0 <= i < j < told.len() ==> (#[trigger] told[i])->Painter_painter != (
                #[trigger] told[j])->Painter_painter
            &&& forall|p: PainterId|
                (exists|i: int|
                    0 <= i < told.len() && #[trigger] told[i]->Painter_painter == p) <==> (
                registered(at_first, p) && #[trigger] registered(by_now, p) && some_announces(
                    messages,
                    p,
                ))
        }),
{
    let keep = still_known(by_now);
    let kept = ready.filter(keep);
    let told = kept.map_values(tell::<P>());
    lemma_filter_keeps_firsts_distinct(ready, keep);
    assert forall|i: int, j: int| 0 <= i < j < told.len() implies (#[trigger]
    told[i])->Painter_painter != (#[trigger] told[j])->Painter_painter by {
        assert(kept[i].0 != kept[j].0);
    }
    assert forall|p: PainterId|
        (exists|i: int| 0 <= i < told.len() && #[trigger] told[i]->Painter_painter == p) <==> (
        registered(at_first, p) && #[trigger] registered(by_now, p) && some_announces(
            messages,
            p,
        )) by {
        if exists|i: int| 0 <= i < told.len() && #[trigger] told[i]->Painter_painter == p {
            let i = choose|i: int|
                0 <= i < told.len() && #[trigger] told[i]->Painter_painter == p;
            ready.lemma_filter_pred(keep, i);
            ready.lemma_filter_contains_rev(keep, kept[i]);
            let k = choose|k: int| 0 <= k < ready.len() && ready[k] == kept[i];
            assert(ready[k].0 == p);
            assert(is_ready(ready, p));
        }
        if registered(at_first, p) && registered(by_now, p) && some_announces(messages, p) {
            assert(is_ready(ready, p));
            let k = choose|k: int| 0 <= k < ready.len() && (#[trigger] ready[k]).0 == p;
            ready.lemma_filter_contains(keep, k);
            let i = choose|i: int| 0 <= i < kept.len() && kept[i] == ready[k];
            assert(told[i]->Painter_painter == p);
        }
    }
}

/// All commands of a batch whose messages are handled one after the other by a
/// service that stays as it is.
pub open spec fn batch_run<P>(
    painters: Seq<PainterEntry>,
    state: ShutdownState,
    image_key_batch_size: usize,
    remaining: Seq<PaintMessage<P>>,
    handled_one: bool,
) -> Seq<CommandView<P>>
    decreases remaining.len(),
{
    if remaining.len() == 0 || (handled_one && state == ShutdownState::FinishedShuttingDown) {
        Seq::empty()
    } else {
        handling(painters, state, image_key_batch_size, remaining[0]) + batch_run(
            painters,
            state,
            image_key_batch_size,
            remaining.drop_first(),
            true,
        )
    }
}

/// Unless the embedder has gone down, every message of a batch is handled, in the
/// order of the batch; if it has, none comes to anything.
pub proof fn batches_are_handled_in_order<P>(
    painters: Seq<PainterEntry>,
    state: ShutdownState,
    image_key_batch_size: usize,
    remaining: Seq<PaintMessage<P>>,
    handled_one: bool,
)
    ensures
        state != ShutdownState::FinishedShuttingDown ==> batch_run(
            painters,
            state,
            image_key_batch_size,
            remaining,
            handled_one,
        ) == remaining.map_values(
            |m: PaintMessage<P>| handling(painters, state, image_key_batch_size, m),
        ).flatten(),
        state == ShutdownState::FinishedShuttingDown ==> batch_run(
            painters,
            state,
            image_key_batch_size,
            remaining,
            handled_one,
        ).len() == 0,
    decreases remaining.len(),
{
    let handle = |m: PaintMessage<P>| handling(painters, state, image_key_batch_size, m);
    if remaining.len() > 0 {
        batches_are_handled_in_order(
            painters,
            state,
            image_key_batch_size,
            remaining.drop_first(),
            true,
        );
        assert(remaining.map_values(handle).drop_first() =~= remaining.drop_first().map_values(
            handle,
        ));
    }
}

} // verus!
