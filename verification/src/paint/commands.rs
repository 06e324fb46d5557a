use vstd::prelude::*;

use super::ids::{FontInstanceKey, FontKey, ImageKey, PainterId, PipelineId, WebViewId};

verus! {

/// Something of WebRender that can be made visible.
#[derive(Copy, Clone, Debug, PartialEq, Eq, Structural)]
pub enum WebRenderDebugOption {
    Profiler,
    TextureCacheDebug,
    RenderTargetDebug,
}

/// What a painter is to do, or is asked.
#[derive(Debug, PartialEq, Eq)]
pub enum PainterOp<P> {
    ChangeRunningAnimationsState { webview_id: WebViewId, pipeline_id: PipelineId, state: P },
    SetFrameTreeForWebView { frame_tree: P },
    SetThrottled { webview_id: WebViewId, pipeline_id: PipelineId, throttled: bool },
    NotifyPipelineExited { webview_id: WebViewId, pipeline_id: PipelineId, source: P },
    SendInitialPipelineTransaction { webview_id: WebViewId, pipeline_id: PipelineId },
    ScrollNodeByDelta { webview_id: WebViewId, pipeline_id: PipelineId, offset: P, scroll_id: P },
    ScrollViewportByDelta { webview_id: WebViewId, delta: P },
    UpdateEpoch { webview_id: WebViewId, pipeline_id: PipelineId, epoch: u32 },
    HandleNewDisplayList {
        webview_id: WebViewId,
        descriptor: P,
        info_receiver: P,
        data_receiver: P,
    },
    GenerateFrameForScript,
    UpdateImages { updates: P },
    DelayNewFramesForCanvas { pipeline_id: PipelineId, canvas_epoch: u32, image_keys: P },
    AddFont { font_key: FontKey, data: P, index: u32 },
    AddSystemFont { font_key: FontKey, native_handle: P },
    AddFontInstance {
        font_instance_key: FontInstanceKey,
        font_key: FontKey,
        size: P,
        flags: P,
        variations: P,
    },
    RemoveFonts { keys: P, instance_keys: P },
    SetViewportDescription { webview_id: WebViewId, viewport_description: P },
    HandleScreenshotReadinessReply { webview_id: WebViewId, pipelines_and_epochs: P },
    AppendLcpCandidate {
        lcp_candidate: P,
        webview_id: WebViewId,
        pipeline_id: PipelineId,
        epoch: u32,
    },
    EnableLcpCalculation { webview_id: WebViewId },
    DecrementPendingFrames,
    HandleNewWebRenderFrameReady { repaint_needed: bool },
    RemoveWebView { webview_id: WebViewId },
    AddWebView { webview: P, viewport_details: P },
    SetWebViewHidden { webview_id: WebViewId, hidden: bool },
    SetHidpiScaleFactor { webview_id: WebViewId, new_scale_factor: P },
    ResizeRenderingContext { width: u32, height: u32 },
    SetPageZoom { webview_id: WebViewId, new_zoom: P },
    PageZoom { webview_id: WebViewId },
    Render,
    PerformUpdates,
    ToggleWebRenderDebug { option: WebRenderDebugOption },
    SaveCapture { path: P },
    NotifyInputEvent { webview_id: WebViewId, event: P },
    NotifyScrollEvent { webview_id: WebViewId, scroll: P, point: P },
    AdjustPinchZoom { webview_id: WebViewId, pinch_zoom_delta: P, center: P },
    PinchZoom { webview_id: WebViewId },
    DevicePixelsPerPagePixel { webview_id: WebViewId },
    RequestScreenshot { webview_id: WebViewId, rect: Option<P>, callback: P },
    NotifyInputEventHandled { webview_id: WebViewId, input_event_id: u64, result: P },
    RenderingContextSize,
}

/// What the paint service wants done, in order.
#[derive(Debug, PartialEq, Eq)]
pub enum PaintCommand<P> {
    /// A painter is to do something, or is asked something.
    Painter { painter: PainterId, op: PainterOp<P> },
    /// All painters are asked for their memory; the report goes to `reply`.
    CollectMemoryReport { reply: P },
    /// A painter makes a key, which goes to `reply`.
    GenerateImageKey { painter: PainterId, reply: P },
    /// A key goes to `reply`.
    SendImageKey { key: ImageKey, reply: P },
    /// A painter makes `count` keys, which go to the pipeline.
    GenerateImageKeysForPipeline { painter: PainterId, pipeline_id: PipelineId, count: usize },
    /// Keys go to the pipeline.
    SendImageKeysForPipeline { pipeline_id: PipelineId, keys: Vec<ImageKey> },
    /// A painter makes that many keys of both kinds, which go to `reply`.
    GenerateFontKeys {
        painter: PainterId,
        number_of_font_keys: usize,
        number_of_font_instance_keys: usize,
        reply: P,
    },
    /// Keys of both kinds go to `reply`.
    SendFontKeys {
        font_keys: Vec<FontKey>,
        font_instance_keys: Vec<FontInstanceKey>,
        reply: P,
    },
    /// The XR devices advance by a frame.
    RunOneXrFrame,
}

/// A [`PaintCommand`] with its lists of keys as sequences.
pub enum CommandView<P> {
    Painter { painter: PainterId, op: PainterOp<P> },
    CollectMemoryReport { reply: P },
    GenerateImageKey { painter: PainterId, reply: P },
    SendImageKey { key: ImageKey, reply: P },
    GenerateImageKeysForPipeline { painter: PainterId, pipeline_id: PipelineId, count: usize },
    SendImageKeysForPipeline { pipeline_id: PipelineId, keys: Seq<ImageKey> },
    GenerateFontKeys {
        painter: PainterId,
        number_of_font_keys: usize,
        number_of_font_instance_keys: usize,
        reply: P,
    },
    SendFontKeys {
        font_keys: Seq<FontKey>,
        font_instance_keys: Seq<FontInstanceKey>,
        reply: P,
    },
    RunOneXrFrame,
}

impl<P> View for PaintCommand<P> {
    type V = CommandView<P>;

    open spec fn view(&self) -> CommandView<P> {
        match *self {
            PaintCommand::Painter { painter, op } => CommandView::Painter { painter, op },
            PaintCommand::CollectMemoryReport { reply } => CommandView::CollectMemoryReport {
                reply,
            },
            PaintCommand::GenerateImageKey { painter, reply } => CommandView::GenerateImageKey {
                painter,
                reply,
            },
            PaintCommand::SendImageKey { key, reply } => CommandView::SendImageKey { key, reply },
            PaintCommand::GenerateImageKeysForPipeline { painter, pipeline_id, count } =>
                CommandView::GenerateImageKeysForPipeline { painter, pipeline_id, count },
            PaintCommand::SendImageKeysForPipeline { pipeline_id, keys } =>
                CommandView::SendImageKeysForPipeline { pipeline_id, keys: keys@ },
            PaintCommand::GenerateFontKeys {
                painter,
                number_of_font_keys,
                number_of_font_instance_keys,
                reply,
            } => CommandView::GenerateFontKeys {
                painter,
                number_of_font_keys,
                number_of_font_instance_keys,
                reply,
            },
            PaintCommand::SendFontKeys { font_keys, font_instance_keys, reply } =>
                CommandView::SendFontKeys {
                font_keys: font_keys@,
                font_instance_keys: font_instance_keys@,
                reply,
            },
            PaintCommand::RunOneXrFrame => CommandView::RunOneXrFrame,
        }
    }
}

/// Commands with their lists of keys as sequences.
pub open spec fn views<P>(commands: Seq<PaintCommand<P>>) -> Seq<CommandView<P>> {
    commands.map_values(|c: PaintCommand<P>| c@)
}

} // verus!
