use vstd::prelude::*;

use super::ids::{FontInstanceKey, FontKey, PainterId, PipelineId, WebViewId};

verus! {

/// Whether the embedder is going down.
#[derive(Copy, Clone, Debug, PartialEq, Eq, Structural)]
pub enum ShutdownState {
    NotShuttingDown,
    ShuttingDown,
    FinishedShuttingDown,
}

/// What the paint service is told. `P` is whatever travels with a message that only
/// its painter, or whoever awaits the answer, looks into.
#[derive(Debug)]
pub enum PaintMessage<P> {
    /// Someone wants to know how much memory is in use.
    CollectMemoryReport(P),
    ChangeRunningAnimationsState(WebViewId, PipelineId, P),
    SetFrameTreeForWebView(WebViewId, P),
    SetThrottled(WebViewId, PipelineId, bool),
    PipelineExited(WebViewId, PipelineId, P),
    /// A document of the painter has a new frame; the flag says whether it is to be
    /// painted.
    NewWebRenderFrameReady(PainterId, u64, bool),
    SendInitialTransaction(WebViewId, PipelineId),
    ScrollNodeByDelta { webview_id: WebViewId, pipeline_id: PipelineId, offset: P, scroll_id: P },
    ScrollViewportByDelta(WebViewId, P),
    UpdateEpoch { webview_id: WebViewId, pipeline_id: PipelineId, epoch: u32 },
    SendDisplayList { webview_id: WebViewId, descriptor: P, info_receiver: P, data_receiver: P },
    GenerateFrame(Vec<PainterId>),
    GenerateImageKey(WebViewId, P),
    GenerateImageKeysForPipeline(WebViewId, PipelineId),
    UpdateImages(PainterId, P),
    DelayNewFrameForCanvas {
        webview_id: WebViewId,
        pipeline_id: PipelineId,
        canvas_epoch: u32,
        image_keys: P,
    },
    AddFont { painter_id: PainterId, font_key: FontKey, data: P, index: u32 },
    AddSystemFont { painter_id: PainterId, font_key: FontKey, native_handle: P },
    AddFontInstance {
        painter_id: PainterId,
        font_instance_key: FontInstanceKey,
        font_key: FontKey,
        size: P,
        flags: P,
        variations: P,
    },
    RemoveFonts { painter_id: PainterId, keys: P, instance_keys: P },
    GenerateFontKeys {
        number_of_font_keys: usize,
        number_of_font_instance_keys: usize,
        result_sender: P,
        painter_id: PainterId,
    },
    Viewport(WebViewId, P),
    ScreenshotReadinessReponse(WebViewId, P),
    SendLCPCandidate {
        lcp_candidate: P,
        webview_id: WebViewId,
        pipeline_id: PipelineId,
        epoch: u32,
    },
    EnableLCPCalculation(WebViewId),
}

impl<P> PaintMessage<P> {
    /// Someone waits for what the message asks for, or a pipeline that is already
    /// gone has to be let go: such messages are served while the embedder goes down.
    pub open spec fn is_served_while_shutting_down(&self) -> bool {
        ||| *self is PipelineExited
        ||| *self is GenerateImageKey
        ||| *self is GenerateImageKeysForPipeline
        ||| *self is GenerateFontKeys
    }

    /// Whether the message is served while the embedder goes down.
    pub fn served_while_shutting_down(&self) -> (r: bool)
        ensures
            r == self.is_served_while_shutting_down(),
    {
        match self {
            PaintMessage::PipelineExited(..) => true,
            PaintMessage::GenerateImageKey(..) => true,
            PaintMessage::GenerateImageKeysForPipeline(..) => true,
            PaintMessage::GenerateFontKeys { .. } => true,
            _ => false,
        }
    }

    /// The keys of a font message belong to the painter that it names.
    pub open spec fn names_own_keys(&self) -> bool {
        match self {
            PaintMessage::AddFont { painter_id, font_key, .. } => *painter_id == font_key.owner(),
            PaintMessage::AddSystemFont { painter_id, font_key, .. } => *painter_id
                == font_key.owner(),
            PaintMessage::AddFontInstance { painter_id, font_instance_key, font_key, .. } => {
                *painter_id == font_key.owner() && *painter_id == font_instance_key.owner()
            },
            _ => true,
        }
    }

    /// Whether the keys of a font message belong to the painter that it names.
    pub fn has_own_keys(&self) -> (r: bool)
        ensures
            r == self.names_own_keys(),
    {
        match self {
            PaintMessage::AddFont { painter_id, font_key, .. } => *painter_id
                == font_key.painter_id(),
            PaintMessage::AddSystemFont { painter_id, font_key, .. } => *painter_id
                == font_key.painter_id(),
            PaintMessage::AddFontInstance { painter_id, font_instance_key, font_key, .. } => {
                *painter_id == font_key.painter_id() && *painter_id
                    == font_instance_key.painter_id()
            },
            _ => true,
        }
    }
}

} // verus!
