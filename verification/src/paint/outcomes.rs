//! What each call on the paint service comes to, said of its inputs and results alone.

use vstd::prelude::*;

use super::batch::{
    announces, announces_repaint, count_off, counted, is_ready, other_message, some_announces,
    some_announces_repaint, still_known, tell, BatchStep, MessageBatch,
};
use super::capture::{capture_step, decimal, CapturePath};
use super::commands::{views, PaintCommand, PainterOp, WebRenderDebugOption};
use super::finish::FinishStep;
use super::ids::{FontInstanceKey, FontKey, ImageKey, PainterId, WebViewId};
use super::memory::{
    display_lists_of, fonts_of, images_of, memory_totals_fit, total, MemoryReport, Report,
    ReportKind,
};
use super::messages::{PaintMessage, ShutdownState};
use super::paint::{painter_for_context, InitialPaintState, Paint, PainterSurfmanDetails};
use super::repaint::RepaintReason;
use super::routing::{registered, PainterEntry};
use super::shutdown::{ShutdownStates, StateId};

verus! {

/// A painter goes by that name.
pub open spec fn is_there(paint: &Paint, id: PainterId) -> bool {
    exists|i: int| 0 <= i < paint.painters().len()
        && (#[trigger] paint.painters()[i]).painter_id == id
}

/// The embedder stands like that, by the state that it shares with the service.
pub open spec fn stands(paint: &Paint, states: &ShutdownStates, state: ShutdownState) -> bool {
    states@[paint.shared_state() as int] == state
}

/// There is one command, for that painter; there is none if the painter is not there.
pub open spec fn comes_to<P>(
    r: Seq<PaintCommand<P>>,
    paint: &Paint,
    painter: PainterId,
    op: PainterOp<P>,
) -> bool {
    &&& is_there(paint, painter) ==> r.len() == 1 && r[0] == (PaintCommand::<P>::Painter {
        painter,
        op,
    })
    &&& !is_there(paint, painter) ==> r.len() == 0
}

proof fn lemma_views<P>(r: Seq<PaintCommand<P>>)
    ensures
        views(r).len() == r.len(),
        forall|i: int| 0 <= i < r.len() ==> #[trigger] views(r)[i] == r[i]@,
        r.len() > 0 ==> views(r)[0] == r[0]@,
{
}

/// A message about a web view comes to one command for the painter of that view, which
/// says of the view, the pipeline and the rest what the message said, and to none if
/// that painter is not there.
pub proof fn messages_about_views_reach_their_painter<P>(
    paint: &Paint,
    states: &ShutdownStates,
    message: PaintMessage<P>,
    batch_size: usize,
    r: Vec<PaintCommand<P>>,
)
    requires
        call_ensures(
            Paint::handle_browser_message::<P>,
            (paint, states, message, batch_size),
            r,
        ),
        stands(paint, states, ShutdownState::NotShuttingDown),
    ensures
        message matches PaintMessage::ChangeRunningAnimationsState(v, p, s) ==> comes_to(
            r@,
            paint,
            v.painter,
            PainterOp::ChangeRunningAnimationsState { webview_id: v, pipeline_id: p, state: s },
        ),
        message matches PaintMessage::SetFrameTreeForWebView(v, tree) ==> comes_to(
            r@,
            paint,
            v.painter,
            PainterOp::SetFrameTreeForWebView { frame_tree: tree },
        ),
        message matches PaintMessage::SetThrottled(v, p, flag) ==> comes_to(
            r@,
            paint,
            v.painter,
            PainterOp::SetThrottled { webview_id: v, pipeline_id: p, throttled: flag },
        ),
        message matches PaintMessage::PipelineExited(v, p, s) ==> comes_to(
            r@,
            paint,
            v.painter,
            PainterOp::NotifyPipelineExited { webview_id: v, pipeline_id: p, source: s },
        ),
        message matches PaintMessage::SendInitialTransaction(v, p) ==> comes_to(
            r@,
            paint,
            v.painter,
            PainterOp::SendInitialPipelineTransaction { webview_id: v, pipeline_id: p },
        ),
        message matches PaintMessage::ScrollNodeByDelta {
            webview_id: v,
            pipeline_id: p,
            offset: o,
            scroll_id: s,
        } ==> comes_to(
            r@,
            paint,
            v.painter,
            PainterOp::ScrollNodeByDelta { webview_id: v, pipeline_id: p, offset: o, scroll_id: s },
        ),
        message matches PaintMessage::ScrollViewportByDelta(v, d) ==> comes_to(
            r@,
            paint,
            v.painter,
            PainterOp::ScrollViewportByDelta { webview_id: v, delta: d },
        ),
        message matches PaintMessage::UpdateEpoch { webview_id: v, pipeline_id: p, epoch: e }
            ==> comes_to(
            r@,
            paint,
            v.painter,
            PainterOp::UpdateEpoch { webview_id: v, pipeline_id: p, epoch: e },
        ),
        message matches PaintMessage::SendDisplayList {
            webview_id: v,
            descriptor: d,
            info_receiver: i,
            data_receiver: a,
        } ==> comes_to(
            r@,
            paint,
            v.painter,
            PainterOp::HandleNewDisplayList {
                webview_id: v,
                descriptor: d,
                info_receiver: i,
                data_receiver: a,
            },
        ),
        message matches PaintMessage::DelayNewFrameForCanvas {
            webview_id: v,
            pipeline_id: p,
            canvas_epoch: e,
            image_keys: k,
        } ==> comes_to(
            r@,
            paint,
            v.painter,
            PainterOp::DelayNewFramesForCanvas { pipeline_id: p, canvas_epoch: e, image_keys: k },
        ),
        message matches PaintMessage::Viewport(v, d) ==> comes_to(
            r@,
            paint,
            v.painter,
            PainterOp::SetViewportDescription { webview_id: v, viewport_description: d },
        ),
        message matches PaintMessage::ScreenshotReadinessReponse(v, e) ==> comes_to(
            r@,
            paint,
            v.painter,
            PainterOp::HandleScreenshotReadinessReply { webview_id: v, pipelines_and_epochs: e },
        ),
        message matches PaintMessage::SendLCPCandidate {
            lcp_candidate: l,
            webview_id: v,
            pipeline_id: p,
            epoch: e,
        } ==> comes_to(
            r@,
            paint,
            v.painter,
            PainterOp::AppendLcpCandidate {
                lcp_candidate: l,
                webview_id: v,
                pipeline_id: p,
                epoch: e,
            },
        ),
        message matches PaintMessage::EnableLCPCalculation(v) ==> comes_to(
            r@,
            paint,
            v.painter,
            PainterOp::EnableLcpCalculation { webview_id: v },
        ),
{
    lemma_views(r@);
}

/// A message about the images or fonts of a painter comes to one command for that
/// painter, with the keys and the rest as they were, and to none if it is not there.
pub proof fn messages_about_resources_reach_their_painter<P>(
    paint: &Paint,
    states: &ShutdownStates,
    message: PaintMessage<P>,
    batch_size: usize,
    r: Vec<PaintCommand<P>>,
)
    requires
        call_ensures(
            Paint::handle_browser_message::<P>,
            (paint, states, message, batch_size),
            r,
        ),
        stands(paint, states, ShutdownState::NotShuttingDown),
    ensures
        message matches PaintMessage::UpdateImages(id, u) ==> comes_to(
            r@,
            paint,
            id,
            PainterOp::UpdateImages { updates: u },
        ),
        message matches PaintMessage::AddFont { painter_id: id, font_key: k, data: d, index: i }
            ==> comes_to(r@, paint, id, PainterOp::AddFont { font_key: k, data: d, index: i }),
        message matches PaintMessage::AddSystemFont {
            painter_id: id,
            font_key: k,
            native_handle: h,
        }
            ==> comes_to(r@, paint, id, PainterOp::AddSystemFont { font_key: k, native_handle: h }),
        message matches PaintMessage::AddFontInstance {
            painter_id: id,
            font_instance_key: i,
            font_key: k,
            size: s,
            flags: f,
            variations: v,
        } ==> comes_to(
            r@,
            paint,
            id,
            PainterOp::AddFontInstance {
                font_instance_key: i,
                font_key: k,
                size: s,
                flags: f,
                variations: v,
            },
        ),
        message matches PaintMessage::RemoveFonts { painter_id: id, keys: k, instance_keys: i }
            ==> comes_to(r@, paint, id, PainterOp::RemoveFonts { keys: k, instance_keys: i }),
        message matches PaintMessage::CollectMemoryReport(reply) ==> r@.len() == 1 && r@[0] == (
        PaintCommand::<P>::CollectMemoryReport { reply }),
{
    lemma_views(r@);
}

/// Unless the embedder has gone down, whoever asks for keys of a painter that is there
/// gets them from it, as many as were asked for, and else as many that stand for
/// nothing: number zero, in the namespace of that painter.
pub proof fn key_requests_are_served<P>(
    paint: &Paint,
    states: &ShutdownStates,
    message: PaintMessage<P>,
    batch_size: usize,
    r: Vec<PaintCommand<P>>,
)
    requires
        call_ensures(
            Paint::handle_browser_message::<P>,
            (paint, states, message, batch_size),
            r,
        ),
        !stands(paint, states, ShutdownState::FinishedShuttingDown),
    ensures
        message matches PaintMessage::GenerateImageKey(v, to) ==> r@.len() == 1 && {
            &&& is_there(paint, v.painter) ==> r@[0] == (PaintCommand::<P>::GenerateImageKey {
                painter: v.painter,
                reply: to,
            })
            &&& !is_there(paint, v.painter) ==> r@[0] == (PaintCommand::<P>::SendImageKey {
                key: ImageKey { namespace: v.painter.0, key: 0 },
                reply: to,
            })
        },
        message matches PaintMessage::GenerateImageKeysForPipeline(v, p) ==> r@.len() == 1 && {
            &&& is_there(paint, v.painter) ==> r@[0] == (
            PaintCommand::<P>::GenerateImageKeysForPipeline {
                painter: v.painter,
                pipeline_id: p,
                count: batch_size,
            })
            &&& !is_there(paint, v.painter) ==> {
                &&& r@[0] matches PaintCommand::SendImageKeysForPipeline { pipeline_id, keys }
                &&& pipeline_id == p
                &&& keys@.len() == batch_size
                &&& forall|i: int|
                    0 <= i < keys@.len() ==> #[trigger] keys@[i] == (ImageKey {
                        namespace: v.painter.0,
                        key: 0,
                    })
            }
        },
        message matches PaintMessage::GenerateFontKeys {
            number_of_font_keys: n,
            number_of_font_instance_keys: m,
            result_sender: to,
            painter_id: id,
        } ==> r@.len() == 1 && {
            &&& is_there(paint, id) ==> r@[0] == (PaintCommand::<P>::GenerateFontKeys {
                painter: id,
                number_of_font_keys: n,
                number_of_font_instance_keys: m,
                reply: to,
            })
            &&& !is_there(paint, id) ==> {
                &&& r@[0] matches PaintCommand::SendFontKeys {
                    font_keys,
                    font_instance_keys,
                    reply,
                }
                &&& reply == to
                &&& font_keys@.len() == n
                &&& font_instance_keys@.len() == m
                &&& forall|i: int|
                    0 <= i < font_keys@.len() ==> #[trigger] font_keys@[i] == (FontKey {
                        namespace: id.0,
                        key: 0,
                    })
                &&& forall|i: int|
                    0 <= i < font_instance_keys@.len() ==> #[trigger] font_instance_keys@[i] == (
                    FontInstanceKey { namespace: id.0, key: 0 })
            }
        },
{
    lemma_views(r@);
}

/// While the embedder goes down, pipelines that exited are still let go, and but for
/// requests for keys nothing else is done; once it has gone down nothing is.
pub proof fn going_down_silences<P>(
    paint: &Paint,
    states: &ShutdownStates,
    message: PaintMessage<P>,
    batch_size: usize,
    r: Vec<PaintCommand<P>>,
)
    requires
        call_ensures(
            Paint::handle_browser_message::<P>,
            (paint, states, message, batch_size),
            r,
        ),
    ensures
        stands(paint, states, ShutdownState::FinishedShuttingDown) ==> r@.len() == 0,
        stands(paint, states, ShutdownState::ShuttingDown) ==> {
            &&& message matches PaintMessage::PipelineExited(v, p, s) ==> comes_to(
                r@,
                paint,
                v.painter,
                PainterOp::NotifyPipelineExited { webview_id: v, pipeline_id: p, source: s },
            )
            &&& !(message is PipelineExited) && !(message is GenerateImageKey) && !(message
                is GenerateImageKeysForPipeline) && !(message is GenerateFontKeys) ==> r@.len()
                == 0
        },
{
    lemma_views(r@);
}

/// Frames are made by exactly those of the painters asked for that are there, in the
/// order in which they were asked for.
pub proof fn frames_are_made_by_those_asked<P>(
    paint: &Paint,
    states: &ShutdownStates,
    ids: Vec<PainterId>,
    batch_size: usize,
    r: Vec<PaintCommand<P>>,
)
    requires
        call_ensures(
            Paint::handle_browser_message::<P>,
            (paint, states, PaintMessage::<P>::GenerateFrame(ids), batch_size),
            r,
        ),
        stands(paint, states, ShutdownState::NotShuttingDown),
    ensures
        r@ == ids@.filter(|id: PainterId| is_there(paint, id)).map_values(
            |painter: PainterId|
                PaintCommand::<P>::Painter { painter, op: PainterOp::GenerateFrameForScript },
        ),
        (forall|i: int| 0 <= i < ids@.len() ==> is_there(paint, #[trigger] ids@[i])) ==> r@.len()
            == ids@.len(),
{
    lemma_views(r@);
    let there = |id: PainterId| is_there(paint, id);
    let known = |id: PainterId| registered(paint.painters(), id);
    assert(there =~= known);
    assert forall|i: int| 0 <= i < r@.len() implies #[trigger] r@[i] == (PaintCommand::<
        P,
    >::Painter { painter: ids@.filter(there)[i], op: PainterOp::GenerateFrameForScript }) by {
        assert(views(r@)[i] == r@[i]@);
    }
    assert(r@ =~= ids@.filter(there).map_values(
        |painter: PainterId|
            PaintCommand::<P>::Painter { painter, op: PainterOp::GenerateFrameForScript },
    ));
    if forall|i: int| 0 <= i < ids@.len() ==> is_there(paint, #[trigger] ids@[i]) {
        lemma_filter_all(ids@, there);
    }
}

proof fn lemma_filter_all<A>(s: Seq<A>, pred: spec_fn(A) -> bool)
    requires
        forall|i: int| 0 <= i < s.len() ==> pred(#[trigger] s[i]),
    ensures
        s.filter(pred) == s,
    decreases s.len(),
{
    reveal(Seq::filter);
    if s.len() > 0 {
        assert forall|i: int| 0 <= i < s.drop_last().len() implies pred(
            #[trigger] s.drop_last()[i],
        ) by {
            assert(s.drop_last()[i] == s[i]);
        }
        lemma_filter_all(s.drop_last(), pred);
        assert(pred(s[s.len() - 1]));
        assert(s =~= s.drop_last().push(s.last()));
    }
}

/// The message is about a new frame of that painter.
pub open spec fn frame_of<P>(message: PaintMessage<P>, painter: PainterId) -> bool {
    message matches PaintMessage::NewWebRenderFrameReady(p, _, _) && p == painter
}

/// The message is about a new frame of that painter, which is to be painted.
pub open spec fn painted_frame_of<P>(message: PaintMessage<P>, painter: PainterId) -> bool {
    message matches PaintMessage::NewWebRenderFrameReady(p, _, paint) && p == painter && paint
}

proof fn lemma_counted_off<P>(
    messages: Seq<PaintMessage<P>>,
    painters: Seq<PainterEntry>,
    p: PainterId,
)
    ensures
        messages.filter(counted(painters)).map_values(count_off::<P>()).filter(
            |c: PaintCommand<P>| c->Painter_painter == p,
        ).len() == if registered(painters, p) {
            messages.filter(|m: PaintMessage<P>| frame_of(m, p)).len()
        } else {
            0
        },
    decreases messages.len(),
{
    reveal(Seq::filter);
    let of_p = |c: PaintCommand<P>| c->Painter_painter == p;
    let frames = |m: PaintMessage<P>| frame_of(m, p);
    if messages.len() > 0 {
        let rest = messages.drop_last();
        let last = messages.last();
        lemma_counted_off(rest, painters, p);
        let kept = rest.filter(counted(painters));
        assert(kept.push(last).map_values(count_off::<P>()) =~= kept.map_values(
            count_off::<P>(),
        ).push(count_off::<P>()(last)));
        kept.map_values(count_off::<P>()).lemma_filter_push(count_off::<P>()(last), of_p);
    }
}

/// Each new frame of a painter that is there is counted off, once, and nothing else is
/// done at once.
pub proof fn new_frames_are_counted_off<P>(
    paint: &Paint,
    messages: Vec<PaintMessage<P>>,
    r: (Vec<PaintCommand<P>>, MessageBatch<P>),
    painter: PainterId,
)
    requires
        call_ensures(Paint::handle_messages::<P>, (paint, messages), r),
    ensures
        forall|i: int|
            0 <= i < r.0@.len() ==> (#[trigger] r.0@[i] matches PaintCommand::Painter {
                painter: p,
                op,
            } && op is DecrementPendingFrames && is_there(paint, p)),
        r.0@ == messages@.filter(
            |m: PaintMessage<P>|
                m matches PaintMessage::NewWebRenderFrameReady(p, _, _) && is_there(paint, p),
        ).map_values(
            |m: PaintMessage<P>|
                PaintCommand::Painter {
                    painter: m->NewWebRenderFrameReady_0,
                    op: PainterOp::<P>::DecrementPendingFrames,
                },
        ),
        is_there(paint, painter) ==> r.0@.filter(
            |c: PaintCommand<P>| c->Painter_painter == painter,
        ).len() == messages@.filter(|m: PaintMessage<P>| frame_of(m, painter)).len(),
{
    lemma_counted_off(messages@, paint.painters(), painter);
    let frames = |m: PaintMessage<P>|
        m matches PaintMessage::NewWebRenderFrameReady(p, _, _) && is_there(paint, p);
    assert(frames =~= counted(paint.painters()));
    assert forall|i: int| 0 <= i < r.0@.len() implies (#[trigger] r.0@[i] matches
        PaintCommand::Painter { painter: p, op } && op is DecrementPendingFrames && is_there(
        paint,
        p,
    )) by {
        messages@.lemma_filter_pred(counted(paint.painters()), i);
    }
}

/// All other messages stay in the batch, in their order, and it knows for each painter
/// that is there whether it has new frames and whether any of them is to be painted.
pub proof fn batches_sum_frames_up<P>(
    paint: &Paint,
    messages: Vec<PaintMessage<P>>,
    r: (Vec<PaintCommand<P>>, MessageBatch<P>),
    painter: PainterId,
)
    requires
        call_ensures(Paint::handle_messages::<P>, (paint, messages), r),
    ensures
        r.1.remaining() == messages@.filter(
            |m: PaintMessage<P>| !(m is NewWebRenderFrameReady),
        ),
        !r.1.handled_one(),
        (exists|j: int| 0 <= j < r.1.ready().len() && (#[trigger] r.1.ready()[j]).0 == painter)
            <==> is_there(paint, painter) && exists|i: int|
            0 <= i < messages@.len() && frame_of(#[trigger] messages@[i], painter),
        forall|j: int|
            0 <= j < r.1.ready().len() && (#[trigger] r.1.ready()[j]).0 == painter ==> (
            r.1.ready()[j].1 <==> exists|i: int|
                0 <= i < messages@.len() && painted_frame_of(#[trigger] messages@[i], painter)),
        forall|i: int, j: int|
            0 <= i < j < r.1.ready().len() ==> (#[trigger] r.1.ready()[i]).0 != (
            #[trigger] r.1.ready()[j]).0,
{
    let others = |m: PaintMessage<P>| !(m is NewWebRenderFrameReady);
    assert(others =~= other_message::<P>());
    let ready = r.1.ready();
    assert(is_ready(ready, painter) <==> exists|j: int|
        0 <= j < ready.len() && (#[trigger] ready[j]).0 == painter);
    assert forall|i: int| 0 <= i < messages@.len() implies (announces(
        #[trigger] messages@[i],
        painter,
    ) <==> frame_of(messages@[i], painter)) && (announces_repaint(
        messages@[i],
        painter,
    ) <==> painted_frame_of(messages@[i], painter)) by {}
    if some_announces(messages@, painter) {
        let i = choose|i: int|
            0 <= i < messages@.len() && announces(#[trigger] messages@[i], painter);
        assert(frame_of(messages@[i], painter));
    }
    if exists|i: int| 0 <= i < messages@.len() && frame_of(#[trigger] messages@[i], painter) {
        let i = choose|i: int|
            0 <= i < messages@.len() && frame_of(#[trigger] messages@[i], painter);
        assert(announces(messages@[i], painter));
    }
    if some_announces_repaint(messages@, painter) {
        let i = choose|i: int|
            0 <= i < messages@.len() && announces_repaint(
                #[trigger] messages@[i],
                painter,
            );
        assert(painted_frame_of(messages@[i], painter));
    }
    if exists|i: int| 0 <= i < messages@.len() && painted_frame_of(
        #[trigger] messages@[i],
        painter,
    ) {
        let i = choose|i: int|
            0 <= i < messages@.len() && painted_frame_of(#[trigger] messages@[i], painter);
        assert(announces_repaint(messages@[i], painter));
    }
}

/// A batch goes on message by message, in order, and stops once a message has been
/// handled and the embedder has gone down. After the last message the painters that
/// are still there hear of their frames, each with its own flag.
pub proof fn batches_go_on_until_the_end<P>(
    paint: &Paint,
    states: &ShutdownStates,
    batch: &mut MessageBatch<P>,
    batch_size: usize,
    step: BatchStep<P>,
)
    requires
        call_ensures(Paint::next_message::<P>, (paint, states, batch, batch_size), step),
    ensures
        step is Stop <==> old(batch).handled_one() && stands(
            paint,
            states,
            ShutdownState::FinishedShuttingDown,
        ),
        step is Handle <==> !(step is Stop) && old(batch).remaining().len() > 0,
        step is Finish <==> !(step is Stop) && old(batch).remaining().len() == 0,
        step is Handle ==> final(batch).remaining() == old(batch).remaining().drop_first()
            && final(batch).handled_one(),
        !(step is Handle) ==> final(batch).remaining() == old(batch).remaining()
            && final(batch).handled_one() == old(batch).handled_one(),
        final(batch).ready() == old(batch).ready(),
        step matches BatchStep::Finish(commands) ==> {
            &&& forall|i: int|
                0 <= i < commands@.len() ==> (#[trigger] commands@[i] matches
                    PaintCommand::Painter { painter, op } && is_there(paint, painter) && (op
                    matches PainterOp::HandleNewWebRenderFrameReady { repaint_needed }
                        && old(batch).ready().contains((painter, repaint_needed))))
            &&& commands@ == old(batch).ready().filter(
                |r: (PainterId, bool)| is_there(paint, r.0),
            ).map_values(
                |r: (PainterId, bool)|
                    PaintCommand::<P>::Painter {
                        painter: r.0,
                        op: PainterOp::HandleNewWebRenderFrameReady { repaint_needed: r.1 },
                    },
            )
            &&& forall|j: int|
                0 <= j < old(batch).ready().len() && is_there(
                    paint,
                    (#[trigger] old(batch).ready()[j]).0,
                ) ==> commands@.contains(
                    PaintCommand::Painter {
                        painter: old(batch).ready()[j].0,
                        op: PainterOp::HandleNewWebRenderFrameReady {
                            repaint_needed: old(batch).ready()[j].1,
                        },
                    },
                )
        },
{
    if let BatchStep::Finish(commands) = step {
        let ready = old(batch).ready();
        let known = still_known(paint.painters());
        let kept = ready.filter(known);
        let there = |r: (PainterId, bool)| is_there(paint, r.0);
        assert(there =~= known);
        assert forall|i: int| 0 <= i < commands@.len() implies (#[trigger] commands@[i] matches
            PaintCommand::Painter { painter, op } && is_there(paint, painter) && (op matches
            PainterOp::HandleNewWebRenderFrameReady { repaint_needed } && ready.contains(
            (painter, repaint_needed),
        ))) by {
            ready.lemma_filter_pred(known, i);
            ready.lemma_filter_contains_rev(known, kept[i]);
            assert(commands@[i] == tell::<P>()(kept[i]));
            assert(kept[i] == (kept[i].0, kept[i].1));
        }
        assert forall|j: int| 0 <= j < ready.len() && is_there(
            paint,
            (#[trigger] ready[j]).0,
        ) implies commands@.contains(
            PaintCommand::Painter {
                painter: ready[j].0,
                op: PainterOp::HandleNewWebRenderFrameReady { repaint_needed: ready[j].1 },
            },
        ) by {
            ready.lemma_filter_contains(known, j);
            let i = choose|i: int| 0 <= i < kept.len() && kept[i] == ready[j];
            assert(commands@[i] == tell::<P>()(kept[i]));
        }
    }
}

/// A message of a batch comes to what it comes to by itself.
pub proof fn batches_handle_messages_alike<P>(
    paint: &Paint,
    states: &ShutdownStates,
    batch: &mut MessageBatch<P>,
    batch_size: usize,
    step: BatchStep<P>,
    alone: Vec<PaintCommand<P>>,
)
    requires
        call_ensures(Paint::next_message::<P>, (paint, states, batch, batch_size), step),
        step is Handle,
        call_ensures(
            Paint::handle_browser_message::<P>,
            (paint, states, old(batch).remaining()[0], batch_size),
            alone,
        ),
    ensures
        step matches BatchStep::Handle(commands) && views(commands@) == views(alone@),
{
}

/// What is next in a batch is its first message.
pub proof fn batches_show_what_is_next<P>(batch: &MessageBatch<P>, r: Option<&PaintMessage<P>>)
    requires
        call_ensures(MessageBatch::<P>::peek, (batch,), r),
    ensures
        r is None <==> batch.remaining().len() == 0,
        r matches Some(message) ==> *message == batch.remaining()[0],
{
}

/// A context is found under the painter that was registered for it first, and none is
/// found exactly if no painter has it.
pub proof fn contexts_find_their_painter(paint: &Paint, context: u64, r: Option<PainterId>)
    requires
        call_ensures(Paint::register_rendering_context, (paint, context), r),
    ensures
        r is None <==> forall|i: int|
            0 <= i < paint.painters().len() ==> (#[trigger] paint.painters()[i]).rendering_context
                != context,
        r matches Some(id) ==> exists|i: int|
            0 <= i < paint.painters().len() && (#[trigger] paint.painters()[i]) == (PainterEntry {
                painter_id: id,
                rendering_context: context,
            }) && forall|j: int|
                0 <= j < i ==> (#[trigger] paint.painters()[j]).rendering_context != context,
{
    lemma_context(paint.painters(), context);
}

proof fn lemma_context(painters: Seq<PainterEntry>, context: u64)
    ensures
        painter_for_context(painters, context) is None <==> forall|i: int|
            0 <= i < painters.len() ==> (#[trigger] painters[i]).rendering_context != context,
        painter_for_context(painters, context) matches Some(id) ==> exists|i: int|
            0 <= i < painters.len() && (#[trigger] painters[i]) == (PainterEntry {
                painter_id: id,
                rendering_context: context,
            }) && forall|j: int|
                0 <= j < i ==> (#[trigger] painters[j]).rendering_context != context,
    decreases painters.len(),
{
    if painters.len() > 0 {
        let rest = painters.drop_last();
        lemma_context(rest, context);
        assert forall|i: int| 0 <= i < rest.len() implies #[trigger] rest[i] == painters[i] by {}
        match painter_for_context(rest, context) {
            Some(id) => {
                let i = choose|i: int|
                    0 <= i < rest.len() && (#[trigger] rest[i]) == (PainterEntry {
                        painter_id: id,
                        rendering_context: context,
                    }) && forall|j: int|
                        0 <= j < i ==> (#[trigger] rest[j]).rendering_context != context;
                assert(painters[i] == rest[i]);
                assert forall|j: int| 0 <= j < i implies (#[trigger]
                painters[j]).rendering_context != context by {
                    assert(rest[j] == painters[j]);
                }
            },
            None => {
                assert forall|j: int| 0 <= j < rest.len() implies (#[trigger]
                painters[j]).rendering_context != context by {
                    assert(rest[j] == painters[j]);
                }
                if painters.last().rendering_context == context {
                    assert(painters[painters.len() - 1] == (PainterEntry {
                        painter_id: painters.last().painter_id,
                        rendering_context: context,
                    }));
                }
            },
        }
    }
}

/// A painter that was made comes last, with what it draws with, and the others stay.
pub proof fn made_painters_come_last(
    paint: &mut Paint,
    id: PainterId,
    context: u64,
    details: PainterSurfmanDetails,
)
    requires
        call_ensures(Paint::painter_created, (paint, id, context, details), ()),
    ensures
        final(paint).painters().drop_last() == old(paint).painters(),
        final(paint).painters().last().painter_id == id,
        final(paint).painters().last().rendering_context == context,
        final(paint).surfman_details().contains_key(id.0),
        final(paint).surfman_details()[id.0] == details,
        forall|other: u32|
            other != id.0 ==> (#[trigger] final(paint).surfman_details().contains_key(other)
                <==> old(paint).surfman_details().contains_key(other)),
        forall|other: u32|
            other != id.0 ==> #[trigger] final(paint).surfman_details()[other]
                == old(paint).surfman_details()[other],
        final(paint).shared_state() == old(paint).shared_state(),
        final(paint).handles() == old(paint).handles(),
{
    assert(final(paint).painters().drop_last() =~= old(paint).painters());
}

/// A painter that is left without web views goes, with what it drew with; any other
/// stays, and so do all painters as long as it has some.
pub proof fn empty_painters_go(paint: &mut Paint, view: WebViewId, empty: bool)
    requires
        call_ensures(Paint::webview_removed, (paint, view, empty), ()),
    ensures
        !empty ==> final(paint).painters() == old(paint).painters()
            && final(paint).surfman_details() == old(paint).surfman_details(),
        empty ==> {
            &&& forall|entry: PainterEntry| #[trigger]
                final(paint).painters().contains(entry) <==> old(paint).painters().contains(entry)
                    && entry.painter_id != view.painter
            &&& !final(paint).surfman_details().contains_key(view.painter.0)
            &&& forall|other: u32|
                other != view.painter.0
                    ==> (#[trigger] final(paint).surfman_details().contains_key(other)
                        <==> old(paint).surfman_details().contains_key(other))
            &&& forall|other: u32|
                other != view.painter.0 ==> #[trigger] final(paint).surfman_details()[other]
                    == old(paint).surfman_details()[other]
            &&& old(paint).painters().len() > 0 && old(paint).painters()[0].painter_id
                != view.painter ==> final(paint).painters().len() > 0
                    && final(paint).painters()[0] == old(paint).painters()[0]
        },
        final(paint).shared_state() == old(paint).shared_state(),
        final(paint).handles() == old(paint).handles(),
{
    if empty {
        let before = old(paint).painters();
        let after = final(paint).painters();
        let keep = |p: PainterEntry| p.painter_id != view.painter;
        assert(after == before.filter(keep));
        assert forall|entry: PainterEntry| #[trigger]
            after.contains(entry) <==> before.contains(entry) && entry.painter_id
                != view.painter by {
            if after.contains(entry) {
                let i = after.index_of(entry);
                before.lemma_filter_pred(keep, i);
                before.lemma_filter_contains_rev(keep, entry);
            }
            if before.contains(entry) && entry.painter_id != view.painter {
                let i = before.index_of(entry);
                before.lemma_filter_contains(keep, i);
            }
        }
        if before.len() > 0 && before[0].painter_id != view.painter {
            lemma_filter_first(before, keep);
        }
    }
}

proof fn lemma_filter_first<A>(s: Seq<A>, pred: spec_fn(A) -> bool)
    requires
        s.len() > 0,
        pred(s[0]),
    ensures
        s.filter(pred).len() > 0,
        s.filter(pred)[0] == s[0],
    decreases s.len(),
{
    reveal(Seq::filter);
    let rest = s.drop_last();
    if rest.len() > 0 {
        assert(rest[0] == s[0]);
        lemma_filter_first(rest, pred);
    } else {
        assert(rest.filter(pred).len() == 0);
        assert(s.last() == s[0]);
    }
}

/// The painter goes by that name, and none before it does.
pub open spec fn stands_first(paint: &Paint, id: PainterId, entry: PainterEntry) -> bool {
    exists|i: int|
        0 <= i < paint.painters().len() && (#[trigger] paint.painters()[i]) == entry
            && entry.painter_id == id && forall|j: int|
            0 <= j < i ==> (#[trigger] paint.painters()[j]).painter_id != id
}

/// A painter is found by its name exactly if it is there, the one that came first.
pub proof fn painters_are_found_by_name(
    paint: &Paint,
    id: PainterId,
    r: Option<PainterEntry>,
    details: Option<PainterSurfmanDetails>,
)
    ensures
        call_ensures(Paint::maybe_painter, (paint, id), r) ==> {
            &&& r is Some <==> is_there(paint, id)
            &&& r matches Some(entry) ==> stands_first(paint, id, entry)
        },
        call_ensures(Paint::painter_surfman_details, (paint, id), details) ==> {
            &&& details is Some <==> paint.surfman_details().contains_key(id.0)
            &&& details matches Some(d) ==> d == paint.surfman_details()[id.0]
        },
{
}

/// The painters are told in the order of their registration, the first one by itself.
pub proof fn painters_are_told_in_order(
    paint: &Paint,
    ids: Vec<PainterId>,
    first: PainterId,
    entry: PainterEntry,
    id: PainterId,
)
    ensures
        call_ensures(Paint::painter_ids, (paint,), ids) ==> ids@.len() == paint.painters().len()
            && forall|i: int|
            0 <= i < ids@.len() ==> #[trigger] ids@[i] == paint.painters()[i].painter_id,
        call_ensures(Paint::painter_id, (paint,), first) ==> first
            == paint.painters()[0].painter_id,
        call_ensures(Paint::painter, (paint, id), entry) ==> stands_first(paint, id, entry),
{
}

/// Whether the embedder is going down is what it last set.
pub proof fn the_shared_state_is_read(
    paint: &Paint,
    states: &ShutdownStates,
    r: ShutdownState,
    goes_on: bool,
)
    ensures
        call_ensures(Paint::shutdown_state, (paint, states), r) ==> stands(paint, states, r),
        call_ensures(Paint::updates_performed, (paint, states), goes_on) ==> (goes_on <==> !stands(
            paint,
            states,
            ShutdownState::FinishedShuttingDown,
        )),
{
}

/// A state that is set is what is read, and concerns no other.
pub proof fn set_states_are_read(
    states: &mut ShutdownStates,
    id: StateId,
    state: ShutdownState,
    shared: StateId,
)
    ensures
        call_ensures(ShutdownStates::set, (states, id, state), ()) && id < old(states)@.len()
            ==> {
            &&& final(states)@.len() == old(states)@.len()
            &&& final(states)@[id as int] == state
            &&& forall|i: int|
                0 <= i < old(states)@.len() && i != id
                    ==> #[trigger] final(states)@[i] == old(states)@[i]
        },
        call_ensures(ShutdownStates::share, (states, state), shared) ==> {
            &&& shared == old(states)@.len()
            &&& final(states)@.len() == old(states)@.len() + 1
            &&& final(states)@[shared as int] == state
            &&& forall|i: int|
                0 <= i < old(states)@.len() ==> #[trigger] final(states)@[i] == old(states)@[i]
        },
{
}

/// What is read is what is there; at first there is nothing.
pub proof fn states_are_read_by_name(
    states: &ShutdownStates,
    id: StateId,
    r: ShutdownState,
    there: bool,
    empty: ShutdownStates,
)
    ensures
        call_ensures(ShutdownStates::new, (), empty) ==> empty@.len() == 0,
        call_ensures(ShutdownStates::get, (states, id), r) ==> r == states@[id as int],
        call_ensures(ShutdownStates::contains, (states, id), there) ==> (there <==> id
            < states@.len()),
{
}

/// A new service has no painters, keeps what it was given and shares the state that it
/// was given. The XR devices are made known exactly if there are some and pages may use
/// them.
pub proof fn new_services_have_no_painters(state: InitialPaintState, paint: Paint, registers: bool)
    ensures
        call_ensures(Paint::new, (state,), paint) ==> {
            &&& paint.painters().len() == 0
            &&& forall|id: u32| !paint.surfman_details().contains_key(id)
            &&& paint.shared_state() == state.shutdown_state
            &&& paint.handles().receiver == state.receiver
            &&& paint.handles().webgl_threads == state.webgl_threads
            &&& paint.handles().webrender_external_image_id_manager
                == state.webrender_external_image_id_manager
            &&& paint.handles().webxr_main_thread == state.webxr_main_thread
            &&& paint.handles().webgpu_image_map is None
        },
        call_ensures(InitialPaintState::registers_webxr, (&state,), registers) ==> (registers
            <==> state.webxr_main_thread is Some && state.dom_webxr_enabled),
{
}

/// The handles that the service keeps are handed out, and a session runs only where
/// there are devices that say so.
pub proof fn handles_are_handed_out(
    paint: &Paint,
    receiver: u64,
    webgl: u64,
    images: u64,
    registry: Option<u64>,
    says: bool,
    running: bool,
)
    ensures
        call_ensures(Paint::receiver, (paint,), receiver) ==> receiver == paint.handles().receiver,
        call_ensures(Paint::webgl_threads, (paint,), webgl) ==> webgl
            == paint.handles().webgl_threads,
        call_ensures(Paint::webrender_external_image_id_manager, (paint,), images) ==> images
            == paint.handles().webrender_external_image_id_manager,
        call_ensures(Paint::webxr_main_thread_registry, (paint,), registry) ==> registry
            == paint.handles().webxr_main_thread,
        call_ensures(Paint::webxr_running, (paint, says), running) ==> (running <==> says
            && paint.handles().webxr_main_thread is Some),
{
}

/// The images that are shared with the GPU are set up once; whoever comes later gets
/// the same.
pub proof fn gpu_images_are_set_up_once(paint: &mut Paint, fresh: Option<u64>, r: Option<u64>)
    requires
        call_ensures(Paint::webgpu_image_map, (paint, fresh), r),
    ensures
        old(paint).handles().webgpu_image_map is Some
            ==> r == old(paint).handles().webgpu_image_map,
        old(paint).handles().webgpu_image_map is None ==> r == fresh,
        final(paint).handles().webgpu_image_map == r,
        final(paint).handles().receiver == old(paint).handles().receiver,
        final(paint).handles().webgl_threads == old(paint).handles().webgl_threads,
        final(paint).handles().webrender_external_image_id_manager
            == old(paint).handles().webrender_external_image_id_manager,
        final(paint).handles().webxr_main_thread == old(paint).handles().webxr_main_thread,
        final(paint).painters() == old(paint).painters(),
        final(paint).surfman_details() == old(paint).surfman_details(),
        final(paint).shared_state() == old(paint).shared_state(),
{
}

/// What the embedder orders or asks goes to the painter of the web view, with what it
/// said.
pub proof fn orders_reach_the_painter<P>(
    paint: &Paint,
    view: WebViewId,
    a: P,
    b: P,
    rect: Option<P>,
    id: PainterId,
    r: PaintCommand<P>,
)
    ensures
        call_ensures(Paint::remove_webview::<P>, (paint, view), r) ==> r == (
        PaintCommand::<P>::Painter {
            painter: view.painter,
            op: PainterOp::RemoveWebView { webview_id: view },
        }),
        call_ensures(Paint::add_webview::<P>, (paint, view, a, b), r) ==> r == (
        PaintCommand::<P>::Painter {
            painter: view.painter,
            op: PainterOp::AddWebView { webview: a, viewport_details: b },
        }),
        call_ensures(Paint::show_webview::<P>, (paint, view), r)
            ==> r == (PaintCommand::<P>::Painter {
            painter: view.painter,
            op: PainterOp::SetWebViewHidden { webview_id: view, hidden: false },
        }),
        call_ensures(Paint::hide_webview::<P>, (paint, view), r)
            ==> r == (PaintCommand::<P>::Painter {
            painter: view.painter,
            op: PainterOp::SetWebViewHidden { webview_id: view, hidden: true },
        }),
        call_ensures(Paint::page_zoom::<P>, (paint, view), r) ==> r == (PaintCommand::<P>::Painter {
            painter: view.painter,
            op: PainterOp::PageZoom { webview_id: view },
        }),
        call_ensures(Paint::pinch_zoom::<P>, (paint, view), r)
            ==> r == (PaintCommand::<P>::Painter {
            painter: view.painter,
            op: PainterOp::PinchZoom { webview_id: view },
        }),
        call_ensures(Paint::render::<P>, (paint, view), r) ==> r == (PaintCommand::<P>::Painter {
            painter: view.painter,
            op: PainterOp::Render,
        }),
        call_ensures(Paint::device_pixels_per_page_pixel::<P>, (paint, view), r) ==> r == (
        PaintCommand::<P>::Painter {
            painter: view.painter,
            op: PainterOp::DevicePixelsPerPagePixel { webview_id: view },
        }),
        call_ensures(Paint::request_screenshot::<P>, (paint, view, rect, a), r) ==> r == (
        PaintCommand::<P>::Painter {
            painter: view.painter,
            op: PainterOp::RequestScreenshot { webview_id: view, rect, callback: a },
        }),
        call_ensures(Paint::rendering_context_size::<P>, (paint, id), r) ==> r == (
        PaintCommand::<P>::Painter { painter: id, op: PainterOp::RenderingContextSize }),
{
}

/// There is one command, for that painter, exactly while the embedder is not going down.
pub open spec fn unless_going_down<P>(
    r: Option<PaintCommand<P>>,
    paint: &Paint,
    states: &ShutdownStates,
    painter: PainterId,
    op: PainterOp<P>,
) -> bool {
    &&& r is Some <==> stands(paint, states, ShutdownState::NotShuttingDown)
    &&& r matches Some(command) ==> command == (PaintCommand::<P>::Painter { painter, op })
}

/// What the embedder sets or hands on goes to the painter of the web view, with what it
/// said, exactly while the embedder is not going down.
pub proof fn settings_reach_the_painter<P>(
    paint: &Paint,
    states: &ShutdownStates,
    view: WebViewId,
    a: P,
    b: P,
    width: u32,
    height: u32,
    r: Option<PaintCommand<P>>,
)
    ensures
        call_ensures(Paint::set_hidpi_scale_factor::<P>, (paint, states, view, a), r)
            ==> unless_going_down(
            r,
            paint,
            states,
            view.painter,
            PainterOp::SetHidpiScaleFactor { webview_id: view, new_scale_factor: a },
        ),
        call_ensures(
            Paint::resize_rendering_context::<P>,
            (paint, states, view, width, height),
            r,
        ) ==> unless_going_down(
            r,
            paint,
            states,
            view.painter,
            PainterOp::ResizeRenderingContext { width, height },
        ),
        call_ensures(Paint::set_page_zoom::<P>, (paint, states, view, a), r) ==> unless_going_down(
            r,
            paint,
            states,
            view.painter,
            PainterOp::SetPageZoom { webview_id: view, new_zoom: a },
        ),
        call_ensures(Paint::notify_input_event::<P>, (paint, states, view, a), r)
            ==> unless_going_down(
            r,
            paint,
            states,
            view.painter,
            PainterOp::NotifyInputEvent { webview_id: view, event: a },
        ),
        call_ensures(Paint::notify_scroll_event::<P>, (paint, states, view, a, b), r)
            ==> unless_going_down(
            r,
            paint,
            states,
            view.painter,
            PainterOp::NotifyScrollEvent { webview_id: view, scroll: a, point: b },
        ),
        call_ensures(Paint::adjust_pinch_zoom::<P>, (paint, states, view, a, b), r)
            ==> unless_going_down(
            r,
            paint,
            states,
            view.painter,
            PainterOp::AdjustPinchZoom { webview_id: view, pinch_zoom_delta: a, center: b },
        ),
{
}

/// The painter of a web view hears that an event was handled, if it is there.
pub proof fn handled_events_are_told<P>(
    paint: &Paint,
    view: WebViewId,
    event: u64,
    result: P,
    r: Vec<PaintCommand<P>>,
)
    requires
        call_ensures(Paint::notify_input_event_handled::<P>, (paint, view, event, result), r),
    ensures
        comes_to(
            r@,
            paint,
            view.painter,
            PainterOp::NotifyInputEventHandled {
                webview_id: view,
                input_event_id: event,
                result,
            },
        ),
{
    lemma_views(r@);
}

/// A capture is saved where there is a path for it, and else not at all.
pub proof fn captures_need_a_path<P>(
    paint: &Paint,
    view: WebViewId,
    path: Option<P>,
    r: Option<PaintCommand<P>>,
)
    requires
        call_ensures(Paint::capture_webrender::<P>, (paint, view, path), r),
    ensures
        path is None <==> r is None,
        path matches Some(p) ==> r == Some(
            PaintCommand::Painter { painter: view.painter, op: PainterOp::SaveCapture { path: p } },
        ),
{
}

/// What goes to all painters goes to each of them, once and in their order; in a turn
/// of the loop the XR devices, if there are any, come first, and after the end there is
/// no turn.
pub proof fn all_painters_hear<P>(
    paint: &Paint,
    states: &ShutdownStates,
    option: WebRenderDebugOption,
    told: Vec<PaintCommand<P>>,
    turn: Option<Vec<PaintCommand<P>>>,
)
    ensures
        call_ensures(Paint::toggle_webrender_debug::<P>, (paint, option), told) ==> told@.len()
            == paint.painters().len() && forall|i: int|
            0 <= i < told@.len() ==> #[trigger] told@[i] == (PaintCommand::<P>::Painter {
                painter: paint.painters()[i].painter_id,
                op: PainterOp::ToggleWebRenderDebug { option },
            }),
        call_ensures(Paint::perform_updates::<P>, (paint, states), turn) ==> {
            &&& turn is None <==> stands(paint, states, ShutdownState::FinishedShuttingDown)
            &&& turn matches Some(commands) ==> {
                let first: int = if paint.handles().webxr_main_thread is Some {
                    1
                } else {
                    0
                };
                &&& commands@.len() == paint.painters().len() + first
                &&& first == 1 ==> commands@[0] == PaintCommand::<P>::RunOneXrFrame
                &&& forall|i: int|
                    0 <= i < paint.painters().len() ==> commands@[first + i] == (PaintCommand::<
                        P,
                    >::Painter {
                        painter: (#[trigger] paint.painters()[i]).painter_id,
                        op: PainterOp::PerformUpdates,
                    })
            }
        },
{
}

proof fn lemma_flatten_fold(named: Seq<Vec<WebViewId>>)
    ensures
        named.map_values(|ids: Vec<WebViewId>| ids@).flatten() == named.fold_left(
            Seq::<WebViewId>::empty(),
            |all: Seq<WebViewId>, ids: Vec<WebViewId>| all + ids@,
        ),
    decreases named.len(),
{
    let lists = named.map_values(|ids: Vec<WebViewId>| ids@);
    if named.len() > 0 {
        lemma_flatten_fold(named.drop_last());
        assert(lists =~= named.drop_last().map_values(|ids: Vec<WebViewId>| ids@).push(
            named.last()@,
        ));
        named.drop_last().map_values(|ids: Vec<WebViewId>| ids@).lemma_flatten_push(named.last()@);
    } else {
        assert(lists =~= Seq::empty());
        assert(lists.flatten() =~= Seq::empty());
    }
}

/// The web views that are to be painted again are those of the first painter, then
/// those of the next, and so on.
pub proof fn repaints_are_joined(
    paint: &Paint,
    named: &Vec<Vec<WebViewId>>,
    r: Vec<WebViewId>,
)
    requires
        call_ensures(Paint::webviews_needing_repaint, (paint, named), r),
    ensures
        r@ == named@.fold_left(
            Seq::<WebViewId>::empty(),
            |all: Seq<WebViewId>, ids: Vec<WebViewId>| all + ids@,
        ),
{
    lemma_flatten_fold(named@);
}

proof fn lemma_total_fold(amounts: Seq<usize>)
    ensures
        total(amounts) == amounts.fold_left(0int, |sum: int, n: usize| sum + n),
    decreases amounts.len(),
{
    if amounts.len() > 0 {
        lemma_total_fold(amounts.drop_last());
    }
}

proof fn lemma_fields_fold(reports: Seq<MemoryReport>)
    ensures
        total(fonts_of(reports))
            == reports.fold_left(0int, |sum: int, r: MemoryReport| sum + r.fonts),
        total(images_of(reports)) == reports.fold_left(
            0int,
            |sum: int, r: MemoryReport| sum + r.images,
        ),
        total(display_lists_of(reports)) == reports.fold_left(
            0int,
            |sum: int, r: MemoryReport| sum + r.display_list,
        ),
    decreases reports.len(),
{
    if reports.len() > 0 {
        let rest = reports.drop_last();
        lemma_fields_fold(rest);
        assert(fonts_of(reports) =~= fonts_of(rest).push(reports.last().fonts));
        assert(images_of(reports) =~= images_of(rest).push(reports.last().images));
        assert(display_lists_of(reports) =~= display_lists_of(rest).push(
            reports.last().display_list,
        ));
        assert(fonts_of(reports).drop_last() =~= fonts_of(rest));
        assert(images_of(reports).drop_last() =~= images_of(rest));
        assert(display_lists_of(reports).drop_last() =~= display_lists_of(rest));
    }
}

/// A line of a report has that path and that size.
pub open spec fn line_says(line: Report, group: &str, item: &str, size: int) -> bool {
    &&& line.path@.len() == 2
    &&& line.path@[0]@ == group@
    &&& line.path@[1]@ == item@
    &&& line.kind == ReportKind::ExplicitJemallocHeapSize
    &&& line.size == size
}

/// A memory report has four lines: what all painters together use for fonts, images and
/// display lists, and for scroll trees.
pub proof fn memory_is_reported_in_sum(
    paint: &Paint,
    reports: &Vec<MemoryReport>,
    scroll_trees: &Vec<usize>,
    r: Vec<Report>,
)
    requires
        call_ensures(Paint::collect_memory_report, (paint, reports, scroll_trees), r),
    ensures
        r@.len() == 4,
        line_says(
            r@[0],
            "webrender",
            "fonts",
            reports@.fold_left(0int, |sum: int, r: MemoryReport| sum + r.fonts),
        ),
        line_says(
            r@[1],
            "webrender",
            "images",
            reports@.fold_left(0int, |sum: int, r: MemoryReport| sum + r.images),
        ),
        line_says(
            r@[2],
            "webrender",
            "display-list",
            reports@.fold_left(0int, |sum: int, r: MemoryReport| sum + r.display_list),
        ),
        line_says(
            r@[3],
            "paint",
            "scroll-tree",
            scroll_trees@.fold_left(0int, |sum: int, n: usize| sum + n),
        ),
{
    lemma_fields_fold(reports@);
    lemma_total_fold(scroll_trees@);
}

/// Sums fit exactly if each of them can be counted.
pub proof fn sums_that_fit_are_recognised(
    reports: &Vec<MemoryReport>,
    scroll_trees: &Vec<usize>,
    r: bool,
)
    requires
        call_ensures(memory_totals_fit, (reports, scroll_trees), r),
    ensures
        r <==> {
            &&& reports@.fold_left(0int, |sum: int, r: MemoryReport| sum + r.fonts) <= usize::MAX
            &&& reports@.fold_left(0int, |sum: int, r: MemoryReport| sum + r.images) <= usize::MAX
            &&& reports@.fold_left(0int, |sum: int, r: MemoryReport| sum + r.display_list)
                <= usize::MAX
            &&& scroll_trees@.fold_left(0int, |sum: int, n: usize| sum + n) <= usize::MAX
        },
{
    lemma_fields_fold(reports@);
    lemma_total_fold(scroll_trees@);
}

/// The number that ASCII digits stand for.
pub open spec fn number_of(digits: Seq<u8>) -> int {
    digits.fold_left(0int, |n: int, digit: u8| 10 * n + (digit - 48))
}

proof fn lemma_decimal(n: nat)
    ensures
        number_of(decimal(n)) == n,
        decimal(n).len() > 0,
        forall|i: int| 0 <= i < decimal(n).len() ==> 48 <= #[trigger] decimal(n)[i] <= 57,
        decimal(n).len() > 1 ==> decimal(n)[0] != 48,
    decreases n,
{
    let value = |n: int, digit: u8| 10 * n + (digit - 48);
    if n < 10 {
        let digit = (48 + n) as u8;
        assert(decimal(n) =~= seq![digit]);
        assert(seq![digit].drop_last() =~= Seq::<u8>::empty());
        reveal_with_fuel(Seq::fold_left, 3);
    } else {
        lemma_decimal(n / 10);
        let rest = decimal(n / 10);
        let digit = (48 + n % 10) as u8;
        assert(decimal(n) == rest.push(digit));
        assert(decimal(n).drop_last() =~= rest);
        assert(decimal(n).last() == digit);
        assert(decimal(n)[0] == rest[0]);
        if rest.len() == 1 {
            assert(rest[0] != 48) by {
                if rest[0] == 48 {
                    assert(rest =~= seq![48u8]);
                    lemma_zero(rest);
                }
            }
        }
    }
}

proof fn lemma_zero(digits: Seq<u8>)
    requires
        digits == seq![48u8],
    ensures
        number_of(digits) == 0,
{
    assert(digits.drop_last() =~= Seq::<u8>::empty());
    reveal_with_fuel(Seq::fold_left, 3);
}

/// A capture is tried in the current directory first, if that is known, then among the
/// temporary files, and then given up; in either it goes to `webrender-captures`, under
/// the seconds since the epoch in decimal, zero before it.
pub proof fn captures_are_tried_in_turn<D>(
    current: Option<D>,
    temp: D,
    seconds: Option<u64>,
    failed: usize,
    r: Option<CapturePath<D>>,
)
    requires
        call_ensures(capture_step::<D>, (current, temp, seconds, failed), r),
    ensures
        current matches Some(dir) ==> {
            &&& failed == 0 ==> r is Some && r->0.dir == dir
            &&& failed == 1 ==> r is Some && r->0.dir == temp
            &&& failed > 1 ==> r is None
        },
        current is None ==> {
            &&& failed == 0 ==> r is Some && r->0.dir == temp
            &&& failed > 0 ==> r is None
        },
        r matches Some(path) ==> {
            &&& path.folder@ == "webrender-captures"@
            &&& path.name@.len() > 0
            &&& forall|i: int| 0 <= i < path.name@.len() ==> 48 <= #[trigger] path.name@[i] <= 57
            &&& path.name@.len() > 1 ==> path.name@[0] != 48
            &&& seconds matches Some(s) ==> number_of(path.name@) == s
            &&& seconds is None ==> number_of(path.name@) == 0
        },
{
    lemma_decimal(
        match seconds {
            Some(s) => s as nat,
            None => 0,
        },
    );
}

/// Going down, messages are dropped until none waits; then the WebGL threads exit, with
/// a warning exactly if they do not, and the time profiler exits if it can answer.
pub proof fn last_steps_come_in_turn(
    paint: &Paint,
    done: Option<(FinishStep, bool)>,
    r: FinishStep,
)
    requires
        call_ensures(Paint::finish_shutting_down, (paint, done), r),
    ensures
        done is None ==> r is DropMessage,
        done matches Some((step, came_off)) ==> {
            &&& step is DropMessage ==> (came_off ==> r is DropMessage) && (!came_off ==> r
                is ExitWebGl)
            &&& step is ExitWebGl ==> (came_off ==> r is OpenProfilerReply) && (!came_off ==> r
                is WarnAboutWebGl)
            &&& step is WarnAboutWebGl ==> r is OpenProfilerReply
            &&& step is OpenProfilerReply ==> (came_off ==> r is ExitTimeProfiler) && (!came_off
                ==> r is Finished)
            &&& step is ExitTimeProfiler || step is Finished ==> r is Finished
        },
{
}

/// A message is served while the embedder goes down exactly if someone waits for keys or
/// a pipeline has exited; the keys of a font message are its painter's own exactly if
/// they are in its namespace.
pub proof fn messages_know_their_kind<P>(message: &PaintMessage<P>, served: bool, own: bool)
    ensures
        call_ensures(PaintMessage::<P>::served_while_shutting_down, (message,), served) ==> (served
            <==> (*message is PipelineExited || *message is GenerateImageKey || *message
            is GenerateImageKeysForPipeline || *message is GenerateFontKeys)),
        call_ensures(PaintMessage::<P>::has_own_keys, (message,), own) ==> {
            &&& *message matches PaintMessage::AddFont { painter_id, font_key, .. } ==> (own
                <==> painter_id.0 == font_key.namespace)
            &&& *message matches PaintMessage::AddSystemFont { painter_id, font_key, .. } ==> (own
                <==> painter_id.0 == font_key.namespace)
            &&& *message matches PaintMessage::AddFontInstance {
                painter_id,
                font_instance_key,
                font_key,
                ..
            } ==> (own <==> painter_id.0 == font_key.namespace && painter_id.0
                == font_instance_key.namespace)
            &&& !(*message is AddFont) && !(*message is AddSystemFont) && !(*message
                is AddFontInstance) ==> own
        },
{
}

/// Views and keys name their painter.
pub proof fn names_tell_the_painter(
    view: WebViewId,
    font: FontKey,
    instance: FontInstanceKey,
    id: PainterId,
)
    ensures
        call_ensures(WebViewId::painter_id, (&view,), id) ==> id == view.painter,
        call_ensures(FontKey::painter_id, (&font,), id) ==> id.0 == font.namespace,
        call_ensures(FontInstanceKey::painter_id, (&instance,), id) ==> id.0 == instance.namespace,
{
}

/// Each reason to repaint has a bit of its own.
pub proof fn reasons_have_bits_of_their_own(
    screenshot: RepaintReason,
    animation: RepaintReason,
    frame: RepaintReason,
    resize: RepaintReason,
    flinging: RepaintReason,
    caret: RepaintReason,
    none: RepaintReason,
)
    requires
        call_ensures(RepaintReason::ready_for_screenshot, (), screenshot),
        call_ensures(RepaintReason::changed_animation_state, (), animation),
        call_ensures(RepaintReason::new_web_render_frame, (), frame),
        call_ensures(RepaintReason::resize, (), resize),
        call_ensures(RepaintReason::started_flinging, (), flinging),
        call_ensures(RepaintReason::blinking_caret, (), caret),
        call_ensures(<RepaintReason as Default>::default, (), none),
    ensures
        screenshot@ == 1,
        animation@ == 2 * screenshot@,
        frame@ == 2 * animation@,
        resize@ == 2 * frame@,
        flinging@ == 2 * resize@,
        caret@ == 2 * flinging@,
        none@ == 0,
{
}

/// Reasons add up bit by bit, and are there exactly if all of their bits are.
pub proof fn reasons_add_up(
    reasons: &mut RepaintReason,
    other: RepaintReason,
)
    requires
        call_ensures(RepaintReason::insert, (reasons, other), ()),
    ensures
        final(reasons)@ == old(reasons)@ | other@,
        final(reasons)@ & other@ == other@,
        final(reasons)@ & old(reasons)@ == old(reasons)@,
{
    let a = old(reasons)@;
    let b = other@;
    assert((a | b) & b == b) by (bit_vector);
    assert((a | b) & a == a) by (bit_vector);
}

/// Reasons are there exactly if all of their bits are, and none are if no bit is.
pub proof fn reasons_are_read_by_bit(
    reasons: &RepaintReason,
    other: RepaintReason,
    bits: u8,
    empty: bool,
    there: bool,
)
    ensures
        call_ensures(RepaintReason::bits, (reasons,), bits) ==> bits == reasons@,
        call_ensures(RepaintReason::is_empty, (reasons,), empty) ==> (empty <==> reasons@ == 0),
        call_ensures(RepaintReason::contains, (reasons, other), there) ==> (there <==> reasons@
            & other@ == other@),
{
}

} // verus!
