//! Which commands a message comes down to.

use vstd::prelude::*;

use super::commands::{CommandView, PainterOp};
use super::ids::{
    null_font_instance_key, null_font_key, null_image_key, FontInstanceKey, FontKey, ImageKey,
    PainterId,
};
use super::messages::{PaintMessage, ShutdownState};

verus! {

/// A painter, and the rendering context that it paints to, by its handle.
#[derive(Copy, Clone, Debug, PartialEq, Eq, Structural)]
pub struct PainterEntry {
    pub painter_id: PainterId,
    pub rendering_context: u64,
}

/// Some painter is known as `id`.
pub open spec fn registered(painters: Seq<PainterEntry>, id: PainterId) -> bool {
    exists|i: int| 0 <= i < painters.len() && (#[trigger] painters[i]).painter_id == id
}

/// The painter at `i` is known as `id`, and none before it is.
pub open spec fn is_first_known(painters: Seq<PainterEntry>, id: PainterId, i: int) -> bool {
    &&& 0 <= i < painters.len()
    &&& painters[i].painter_id == id
    &&& forall|j: int| 0 <= j < i ==> (#[trigger] painters[j]).painter_id != id
}

/// A list of `count` keys that stand for no image of `painter`.
pub open spec fn null_image_keys(painter: PainterId, count: usize) -> Seq<ImageKey> {
    Seq::new(count as nat, |i: int| null_image_key(painter))
}

/// A list of `count` keys that stand for no font of `painter`.
pub open spec fn null_font_keys(painter: PainterId, count: usize) -> Seq<FontKey> {
    Seq::new(count as nat, |i: int| null_font_key(painter))
}

/// A list of `count` keys that stand for no font instance of `painter`.
pub open spec fn null_font_instance_keys(painter: PainterId, count: usize) -> Seq<
    FontInstanceKey,
> {
    Seq::new(count as nat, |i: int| null_font_instance_key(painter))
}

/// A command for `painter`, if there is such a painter.
pub open spec fn for_painter<P>(
    painters: Seq<PainterEntry>,
    painter: PainterId,
    op: PainterOp<P>,
) -> Seq<CommandView<P>> {
    if registered(painters, painter) {
        seq![CommandView::Painter { painter, op }]
    } else {
        Seq::empty()
    }
}

/// The painter that a message is for, and what it is to do; none for a message that
/// is not for one painter alone.
pub open spec fn painter_op<P>(message: PaintMessage<P>) -> Option<(PainterId, PainterOp<P>)> {
    match message {
        PaintMessage::ChangeRunningAnimationsState(webview_id, pipeline_id, state) => Some(
            (
                webview_id.painter,
                PainterOp::ChangeRunningAnimationsState { webview_id, pipeline_id, state },
            ),
        ),
        PaintMessage::SetFrameTreeForWebView(webview_id, frame_tree) => Some(
            (webview_id.painter, PainterOp::SetFrameTreeForWebView { frame_tree }),
        ),
        PaintMessage::SetThrottled(webview_id, pipeline_id, throttled) => Some(
            (webview_id.painter, PainterOp::SetThrottled { webview_id, pipeline_id, throttled }),
        ),
        PaintMessage::PipelineExited(webview_id, pipeline_id, source) => Some(
            (
                webview_id.painter,
                PainterOp::NotifyPipelineExited { webview_id, pipeline_id, source },
            ),
        ),
        PaintMessage::SendInitialTransaction(webview_id, pipeline_id) => Some(
            (
                webview_id.painter,
                PainterOp::SendInitialPipelineTransaction { webview_id, pipeline_id },
            ),
        ),
        PaintMessage::ScrollNodeByDelta { webview_id, pipeline_id, offset, scroll_id } => Some(
            (
                webview_id.painter,
                PainterOp::ScrollNodeByDelta { webview_id, pipeline_id, offset, scroll_id },
            ),
        ),
        PaintMessage::ScrollViewportByDelta(webview_id, delta) => Some(
            (webview_id.painter, PainterOp::ScrollViewportByDelta { webview_id, delta }),
        ),
        PaintMessage::UpdateEpoch { webview_id, pipeline_id, epoch } => Some(
            (webview_id.painter, PainterOp::UpdateEpoch { webview_id, pipeline_id, epoch }),
        ),
        PaintMessage::SendDisplayList { webview_id, descriptor, info_receiver, data_receiver } =>
            Some(
            (
                webview_id.painter,
                PainterOp::HandleNewDisplayList {
                    webview_id,
                    descriptor,
                    info_receiver,
                    data_receiver,
                },
            ),
        ),
        PaintMessage::UpdateImages(painter_id, updates) => Some(
            (painter_id, PainterOp::UpdateImages { updates }),
        ),
        PaintMessage::DelayNewFrameForCanvas {
            webview_id,
            pipeline_id,
            canvas_epoch,
            image_keys,
        } => Some(
            (
                webview_id.painter,
                PainterOp::DelayNewFramesForCanvas { pipeline_id, canvas_epoch, image_keys },
            ),
        ),
        PaintMessage::AddFont { painter_id, font_key, data, index } => Some(
            (painter_id, PainterOp::AddFont { font_key, data, index }),
        ),
        PaintMessage::AddSystemFont { painter_id, font_key, native_handle } => Some(
            (painter_id, PainterOp::AddSystemFont { font_key, native_handle }),
        ),
        PaintMessage::AddFontInstance {
            painter_id,
            font_instance_key,
            font_key,
            size,
            flags,
            variations,
        } => Some(
            (
                painter_id,
                PainterOp::AddFontInstance { font_instance_key, font_key, size, flags, variations },
            ),
        ),
        PaintMessage::RemoveFonts { painter_id, keys, instance_keys } => Some(
            (painter_id, PainterOp::RemoveFonts { keys, instance_keys }),
        ),
        PaintMessage::Viewport(webview_id, viewport_description) => Some(
            (
                webview_id.painter,
                PainterOp::SetViewportDescription { webview_id, viewport_description },
            ),
        ),
        PaintMessage::ScreenshotReadinessReponse(webview_id, pipelines_and_epochs) => Some(
            (
                webview_id.painter,
                PainterOp::HandleScreenshotReadinessReply { webview_id, pipelines_and_epochs },
            ),
        ),
        PaintMessage::SendLCPCandidate { lcp_candidate, webview_id, pipeline_id, epoch } => Some(
            (
                webview_id.painter,
                PainterOp::AppendLcpCandidate { lcp_candidate, webview_id, pipeline_id, epoch },
            ),
        ),
        PaintMessage::EnableLCPCalculation(webview_id) => Some(
            (webview_id.painter, PainterOp::EnableLcpCalculation { webview_id }),
        ),
        _ => None,
    }
}

/// The commands that serve a message. A request for keys of an unknown painter is
/// answered with keys that stand for nothing; any other message for an unknown
/// painter comes to nothing.
pub open spec fn serving<P>(
    painters: Seq<PainterEntry>,
    image_key_batch_size: usize,
    message: PaintMessage<P>,
) -> Seq<CommandView<P>> {
    match message {
        PaintMessage::CollectMemoryReport(reply) => seq![
            CommandView::CollectMemoryReport { reply },
        ],
        PaintMessage::GenerateFrame(painter_ids) => painter_ids@.filter(
            |id: PainterId| registered(painters, id),
        ).map_values(
            |painter: PainterId|
                CommandView::Painter { painter, op: PainterOp::GenerateFrameForScript },
        ),
        PaintMessage::GenerateImageKey(webview_id, reply) => {
            let painter = webview_id.painter;
            seq![
                if registered(painters, painter) {
                    CommandView::GenerateImageKey { painter, reply }
                } else {
                    CommandView::SendImageKey { key: null_image_key(painter), reply }
                },
            ]
        },
        PaintMessage::GenerateImageKeysForPipeline(webview_id, pipeline_id) => {
            let painter = webview_id.painter;
            let count = image_key_batch_size;
            seq![
                if registered(painters, painter) {
                    CommandView::GenerateImageKeysForPipeline { painter, pipeline_id, count }
                } else {
                    CommandView::SendImageKeysForPipeline {
                        pipeline_id,
                        keys: null_image_keys(painter, count),
                    }
                },
            ]
        },
        PaintMessage::GenerateFontKeys {
            number_of_font_keys,
            number_of_font_instance_keys,
            result_sender,
            painter_id,
        } => seq![
            if registered(painters, painter_id) {
                CommandView::GenerateFontKeys {
                    painter: painter_id,
                    number_of_font_keys,
                    number_of_font_instance_keys,
                    reply: result_sender,
                }
            } else {
                CommandView::SendFontKeys {
                    font_keys: null_font_keys(painter_id, number_of_font_keys),
                    font_instance_keys: null_font_instance_keys(
                        painter_id,
                        number_of_font_instance_keys,
                    ),
                    reply: result_sender,
                }
            },
        ],
        _ => match painter_op(message) {
            Some((painter, op)) => for_painter(painters, painter, op),
            None => Seq::empty(),
        },
    }
}

/// The commands that a message comes down to: none once the embedder has gone down,
/// and while it goes down only those of the messages that are still served.
pub open spec fn handling<P>(
    painters: Seq<PainterEntry>,
    state: ShutdownState,
    image_key_batch_size: usize,
    message: PaintMessage<P>,
) -> Seq<CommandView<P>> {
    match state {
        ShutdownState::NotShuttingDown => serving(painters, image_key_batch_size, message),
        ShutdownState::ShuttingDown => if message.is_served_while_shutting_down() {
            serving(painters, image_key_batch_size, message)
        } else {
            Seq::empty()
        },
        ShutdownState::FinishedShuttingDown => Seq::empty(),
    }
}

} // verus!
