use std::collections::HashMap;

use vstd::pervasive::unreached;
use vstd::prelude::*;

use super::commands::{views, CommandView, PaintCommand, PainterOp, WebRenderDebugOption};
use super::ids::{
    new_font_instance_key, new_font_key, new_image_key, FontInstanceKey, FontKey, ImageKey,
    PainterId, PipelineId, WebViewId,
};
use super::messages::{PaintMessage, ShutdownState};
use super::routing::{
    for_painter, handling, is_first_known, null_font_instance_keys, null_font_keys,
    null_image_keys, registered, serving, PainterEntry,
};
use super::shutdown::{ShutdownStates, StateId};
use crate::seqs::lemma_filter_take;

verus! {

/// The connection and the adapter that a painter draws with, by their handles.
#[derive(Copy, Clone, Debug, PartialEq, Eq, Structural)]
pub struct PainterSurfmanDetails {
    pub connection: u64,
    pub adapter: u64,
}

/// What the paint service is made of, by handles.
pub struct InitialPaintState {
    /// Whether the embedder is going down, which the service shares with it.
    pub shutdown_state: StateId,
    pub receiver: u64,
    pub webgl_threads: u64,
    pub webrender_external_image_id_manager: u64,
    /// The XR devices, where XR is supported.
    pub webxr_main_thread: Option<u64>,
    /// Whether pages may use XR devices.
    pub dom_webxr_enabled: bool,
}

/// The paint service.
pub struct Paint {
    painters: Vec<PainterEntry>,
    shutdown_state: StateId,
    painter_surfman_details_map: HashMap<u32, PainterSurfmanDetails>,
    paint_receiver: u64,
    webgl_threads: u64,
    webrender_external_image_id_manager: u64,
    webxr_main_thread: Option<u64>,
    webgpu_image_map: Option<u64>,
}

impl Paint {
    /// The painters, in the order in which they were registered.
    pub closed spec fn painters(&self) -> Seq<PainterEntry> {
        self.painters@
    }

    /// The shutdown state that the service shares with the embedder.
    pub closed spec fn shared_state(&self) -> StateId {
        self.shutdown_state
    }

    /// The state that the service shares is among `states`.
    pub open spec fn shares(&self, states: Seq<ShutdownState>) -> bool {
        self.shared_state() < states.len()
    }

    /// Whether the embedder is going down, by what the shared states are now.
    pub open spec fn state(&self, states: Seq<ShutdownState>) -> ShutdownState {
        states[self.shared_state() as int]
    }

    /// What each painter draws with, by the number of its name.
    pub closed spec fn surfman_details(&self) -> Map<u32, PainterSurfmanDetails> {
        self.painter_surfman_details_map@
    }

    /// Where the first painter known as `painter_id` stands.
    fn find_painter(&self, painter_id: PainterId) -> (r: Option<usize>)
        ensures
            r is Some <==> registered(self.painters(), painter_id),
            r matches Some(i) ==> is_first_known(self.painters(), painter_id, i as int),
    {
        let mut i: usize = 0;
        while i < self.painters.len()
            invariant
                i <= self.painters.len(),
                forall|j: int|
                    0 <= j < i ==> (#[trigger] self.painters@[j]).painter_id != painter_id,
            decreases self.painters.len() - i,
        {
            if self.painters[i].painter_id == painter_id {
                return Some(i);
            }
            i = i + 1;
        }
        None
    }

    /// The painter known as `painter_id`, if there is one.
    pub fn maybe_painter(&self, painter_id: PainterId) -> (r: Option<PainterEntry>)
        ensures
            r is Some <==> registered(self.painters(), painter_id),
            r matches Some(entry) ==> exists|i: int| #[trigger]
                is_first_known(self.painters(), painter_id, i) && entry == self.painters()[i],
    {
        match self.find_painter(painter_id) {
            Some(i) => Some(self.painters[i]),
            None => None,
        }
    }

    /// Whether the embedder is going down, by what it last set.
    pub fn shutdown_state(&self, states: &ShutdownStates) -> (r: ShutdownState)
        requires
            self.shares(states@),
        ensures
            r == self.state(states@),
    {
        states.get(self.shutdown_state)
    }

    /// A command for the painter known as `painter_id`, if there is one.
    fn to_painter<P>(&self, painter_id: PainterId, op: PainterOp<P>) -> (r: Vec<PaintCommand<P>>)
        ensures
            views(r@) == for_painter(self.painters(), painter_id, op),
    {
        let mut commands: Vec<PaintCommand<P>> = Vec::new();
        if self.maybe_painter(painter_id).is_some() {
            commands.push(PaintCommand::Painter { painter: painter_id, op });
        }
        assert(views(commands@) =~= for_painter(self.painters(), painter_id, op));
        commands
    }

    /// Answers a request for an image key.
    fn handle_generate_image_key<P>(&self, webview_id: WebViewId, result_sender: P) -> (r:
        PaintCommand<P>)
        ensures
            seq![r@] == serving(
                self.painters(),
                0,
                PaintMessage::GenerateImageKey(webview_id, result_sender),
            ),
    {
        let painter = webview_id.painter_id();
        match self.maybe_painter(painter) {
            Some(_) => PaintCommand::GenerateImageKey { painter, reply: result_sender },
            None => PaintCommand::SendImageKey {
                key: new_image_key(painter.0, 0),
                reply: result_sender,
            },
        }
    }

    /// Provides a pipeline with image keys.
    fn handle_generate_image_keys_for_pipeline<P>(
        &self,
        webview_id: WebViewId,
        pipeline_id: PipelineId,
        image_key_batch_size: usize,
    ) -> (r: PaintCommand<P>)
        ensures
            seq![r@] == serving(
                self.painters(),
                image_key_batch_size,
                PaintMessage::<P>::GenerateImageKeysForPipeline(webview_id, pipeline_id),
            ),
    {
        let painter = webview_id.painter_id();
        match self.maybe_painter(painter) {
            Some(_) => PaintCommand::GenerateImageKeysForPipeline {
                painter,
                pipeline_id,
                count: image_key_batch_size,
            },
            None => {
                let mut keys: Vec<ImageKey> = Vec::new();
                for i in 0..image_key_batch_size
                    invariant
                        keys@ == null_image_keys(painter, i),
                {
                    keys.push(new_image_key(painter.0, 0));
                    assert(keys@ =~= null_image_keys(painter, (i + 1) as usize));
                }
                PaintCommand::SendImageKeysForPipeline { pipeline_id, keys }
            },
        }
    }

    /// Answers a request for font keys.
    fn handle_generate_font_keys<P>(
        &self,
        number_of_font_keys: usize,
        number_of_font_instance_keys: usize,
        result_sender: P,
        painter_id: PainterId,
    ) -> (r: PaintCommand<P>)
        ensures
            seq![r@] == serving(
                self.painters(),
                0,
                PaintMessage::GenerateFontKeys {
                    number_of_font_keys,
                    number_of_font_instance_keys,
                    result_sender,
                    painter_id,
                },
            ),
    {
        match self.maybe_painter(painter_id) {
            Some(_) => PaintCommand::GenerateFontKeys {
                painter: painter_id,
                number_of_font_keys,
                number_of_font_instance_keys,
                reply: result_sender,
            },
            None => {
                let mut font_keys: Vec<FontKey> = Vec::new();
                for i in 0..number_of_font_keys
                    invariant
                        font_keys@ == null_font_keys(painter_id, i),
                {
                    font_keys.push(new_font_key(painter_id.0, 0));
                    assert(font_keys@ =~= null_font_keys(painter_id, (i + 1) as usize));
                }
                let mut font_instance_keys: Vec<FontInstanceKey> = Vec::new();
                for i in 0..number_of_font_instance_keys
                    invariant
                        font_instance_keys@ == null_font_instance_keys(painter_id, i),
                {
                    font_instance_keys.push(new_font_instance_key(painter_id.0, 0));
                    assert(font_instance_keys@ =~= null_font_instance_keys(
                        painter_id,
                        (i + 1) as usize,
                    ));
                }
                PaintCommand::SendFontKeys { font_keys, font_instance_keys, reply: result_sender }
            },
        }
    }

    /// The frames that a script wants painted.
    fn generate_frames<P>(&self, painter_ids: Vec<PainterId>) -> (r: Vec<PaintCommand<P>>)
        ensures
            views(r@) == serving(self.painters(), 0, PaintMessage::<P>::GenerateFrame(painter_ids)),
    {
        let mut commands: Vec<PaintCommand<P>> = Vec::new();
        let ghost known = |id: PainterId| registered(self.painters(), id);
        let ghost make = |painter: PainterId|
            CommandView::<P>::Painter { painter, op: PainterOp::GenerateFrameForScript };
        let mut i: usize = 0;
        assert(views(commands@) =~= painter_ids@.take(0).filter(known).map_values(make));
        while i < painter_ids.len()
            invariant
                i <= painter_ids.len(),
                known == (|id: PainterId| registered(self.painters(), id)),
                make == (|painter: PainterId|
                    CommandView::<P>::Painter { painter, op: PainterOp::GenerateFrameForScript }),
                views(commands@) == painter_ids@.take(i as int).filter(known).map_values(make),
            decreases painter_ids.len() - i,
        {
            let painter = painter_ids[i];
            let ghost before = commands@;
            let ghost kept = painter_ids@.take(i as int).filter(known);
            proof {
                lemma_filter_take(painter_ids@, known, i as int);
            }
            if self.maybe_painter(painter).is_some() {
                commands.push(
                    PaintCommand::Painter { painter, op: PainterOp::GenerateFrameForScript },
                );
            }
            i = i + 1;
            proof {
                assert(kept.push(painter).map_values(make) =~= kept.map_values(make).push(
                    make(painter),
                ));
                assert(known(painter) ==> views(commands@) =~= views(before).push(make(painter)));
                assert(!known(painter) ==> commands@ == before);
            }
        }
        assert(painter_ids@.take(painter_ids@.len() as int) =~= painter_ids@);
        commands
    }

    /// Handles a message, unless the embedder is going down and the message is no
    /// longer of use. A message on a new frame is not handled here: it is taken out
    /// by [`Self::handle_messages`].
    pub fn handle_browser_message<P>(
        &self,
        states: &ShutdownStates,
        msg: PaintMessage<P>,
        image_key_batch_size: usize,
    ) -> (r: Vec<PaintCommand<P>>)
        requires
            self.shares(states@),
            self.state(states@) == ShutdownState::NotShuttingDown ==> !(msg
                is NewWebRenderFrameReady),
        ensures
            views(r@) == handling(self.painters(), self.state(states@), image_key_batch_size, msg),
    {
        match self.shutdown_state(states) {
            ShutdownState::NotShuttingDown => {},
            ShutdownState::ShuttingDown => {
                return self.handle_browser_message_while_shutting_down(msg, image_key_batch_size);
            },
            ShutdownState::FinishedShuttingDown => {
                let none: Vec<PaintCommand<P>> = Vec::new();
                assert(views(none@) =~= Seq::empty());
                return none;
            },
        }
        match msg {
            PaintMessage::CollectMemoryReport(reply) => one(
                PaintCommand::CollectMemoryReport { reply },
            ),
            PaintMessage::ChangeRunningAnimationsState(webview_id, pipeline_id, state) => {
                self.to_painter(
                    webview_id.painter_id(),
                    PainterOp::ChangeRunningAnimationsState { webview_id, pipeline_id, state },
                )
            },
            PaintMessage::SetFrameTreeForWebView(webview_id, frame_tree) => self.to_painter(
                webview_id.painter_id(),
                PainterOp::SetFrameTreeForWebView { frame_tree },
            ),
            PaintMessage::SetThrottled(webview_id, pipeline_id, throttled) => self.to_painter(
                webview_id.painter_id(),
                PainterOp::SetThrottled { webview_id, pipeline_id, throttled },
            ),
            PaintMessage::PipelineExited(webview_id, pipeline_id, source) => self.to_painter(
                webview_id.painter_id(),
                PainterOp::NotifyPipelineExited { webview_id, pipeline_id, source },
            ),
            PaintMessage::NewWebRenderFrameReady(..) => unreached(),
            PaintMessage::SendInitialTransaction(webview_id, pipeline_id) => self.to_painter(
                webview_id.painter_id(),
                PainterOp::SendInitialPipelineTransaction { webview_id, pipeline_id },
            ),
            PaintMessage::ScrollNodeByDelta { webview_id, pipeline_id, offset, scroll_id } => {
                self.to_painter(
                    webview_id.painter_id(),
                    PainterOp::ScrollNodeByDelta { webview_id, pipeline_id, offset, scroll_id },
                )
            },
            PaintMessage::ScrollViewportByDelta(webview_id, delta) => self.to_painter(
                webview_id.painter_id(),
                PainterOp::ScrollViewportByDelta { webview_id, delta },
            ),
            PaintMessage::UpdateEpoch { webview_id, pipeline_id, epoch } => self.to_painter(
                webview_id.painter_id(),
                PainterOp::UpdateEpoch { webview_id, pipeline_id, epoch },
            ),
            PaintMessage::SendDisplayList {
                webview_id,
                descriptor,
                info_receiver,
                data_receiver,
            } => self.to_painter(
                webview_id.painter_id(),
                PainterOp::HandleNewDisplayList {
                    webview_id,
                    descriptor,
                    info_receiver,
                    data_receiver,
                },
            ),
            PaintMessage::GenerateFrame(painter_ids) => self.generate_frames(painter_ids),
            PaintMessage::GenerateImageKey(webview_id, result_sender) => one(
                self.handle_generate_image_key(webview_id, result_sender),
            ),
            PaintMessage::GenerateImageKeysForPipeline(webview_id, pipeline_id) => one(
                self.handle_generate_image_keys_for_pipeline(
                    webview_id,
                    pipeline_id,
                    image_key_batch_size,
                ),
            ),
            PaintMessage::UpdateImages(painter_id, updates) => self.to_painter(
                painter_id,
                PainterOp::UpdateImages { updates },
            ),
            PaintMessage::DelayNewFrameForCanvas {
                webview_id,
                pipeline_id,
                canvas_epoch,
                image_keys,
            } => self.to_painter(
                webview_id.painter_id(),
                PainterOp::DelayNewFramesForCanvas { pipeline_id, canvas_epoch, image_keys },
            ),
            PaintMessage::AddFont { painter_id, font_key, data, index } => self.to_painter(
                painter_id,
                PainterOp::AddFont { font_key, data, index },
            ),
            PaintMessage::AddSystemFont { painter_id, font_key, native_handle } => self.to_painter(
                painter_id,
                PainterOp::AddSystemFont { font_key, native_handle },
            ),
            PaintMessage::AddFontInstance {
                painter_id,
                font_instance_key,
                font_key,
                size,
                flags,
                variations,
            } => self.to_painter(
                painter_id,
                PainterOp::AddFontInstance { font_instance_key, font_key, size, flags, variations },
            ),
            PaintMessage::RemoveFonts { painter_id, keys, instance_keys } => self.to_painter(
                painter_id,
                PainterOp::RemoveFonts { keys, instance_keys },
            ),
            PaintMessage::GenerateFontKeys {
                number_of_font_keys,
                number_of_font_instance_keys,
                result_sender,
                painter_id,
            } => one(
                self.handle_generate_font_keys(
                    number_of_font_keys,
                    number_of_font_instance_keys,
                    result_sender,
                    painter_id,
                ),
            ),
            PaintMessage::Viewport(webview_id, viewport_description) => self.to_painter(
                webview_id.painter_id(),
                PainterOp::SetViewportDescription { webview_id, viewport_description },
            ),
            PaintMessage::ScreenshotReadinessReponse(webview_id, pipelines_and_epochs) => {
                self.to_painter(
                    webview_id.painter_id(),
                    PainterOp::HandleScreenshotReadinessReply { webview_id, pipelines_and_epochs },
                )
            },
            PaintMessage::SendLCPCandidate { lcp_candidate, webview_id, pipeline_id, epoch } => {
                self.to_painter(
                    webview_id.painter_id(),
                    PainterOp::AppendLcpCandidate { lcp_candidate, webview_id, pipeline_id, epoch },
                )
            },
            PaintMessage::EnableLCPCalculation(webview_id) => self.to_painter(
                webview_id.painter_id(),
                PainterOp::EnableLcpCalculation { webview_id },
            ),
        }
    }

    /// Handles a message while the embedder goes down: requests for keys are still
    /// answered and exited pipelines still let go, and nothing else is done.
    fn handle_browser_message_while_shutting_down<P>(
        &self,
        msg: PaintMessage<P>,
        image_key_batch_size: usize,
    ) -> (r: Vec<PaintCommand<P>>)
        ensures
            views(r@) == handling(
                self.painters(),
                ShutdownState::ShuttingDown,
                image_key_batch_size,
                msg,
            ),
    {
        match msg {
            PaintMessage::PipelineExited(webview_id, pipeline_id, source) => self.to_painter(
                webview_id.painter_id(),
                PainterOp::NotifyPipelineExited { webview_id, pipeline_id, source },
            ),
            PaintMessage::GenerateImageKey(webview_id, result_sender) => one(
                self.handle_generate_image_key(webview_id, result_sender),
            ),
            PaintMessage::GenerateImageKeysForPipeline(webview_id, pipeline_id) => one(
                self.handle_generate_image_keys_for_pipeline(
                    webview_id,
                    pipeline_id,
                    image_key_batch_size,
                ),
            ),
            PaintMessage::GenerateFontKeys {
                number_of_font_keys,
                number_of_font_instance_keys,
                result_sender,
                painter_id,
            } => one(
                self.handle_generate_font_keys(
                    number_of_font_keys,
                    number_of_font_instance_keys,
                    result_sender,
                    painter_id,
                ),
            ),
            _ => {
                let none: Vec<PaintCommand<P>> = Vec::new();
                assert(views(none@) =~= Seq::empty());
                none
            },
        }
    }
}

impl InitialPaintState {
    /// Whether the XR devices are to be registered with the XR registry.
    pub fn registers_webxr(&self) -> (r: bool)
        ensures
            r == (self.webxr_main_thread is Some && self.dom_webxr_enabled),
    {
        self.webxr_main_thread.is_some() && self.dom_webxr_enabled
    }
}

/// Each painter has something to draw with, and nothing is kept for one that is gone.
pub open spec fn details_match(
    painters: Seq<PainterEntry>,
    details: Map<u32, PainterSurfmanDetails>,
) -> bool {
    forall|id: u32| #[trigger] details.contains_key(id) <==> registered(painters, PainterId(id))
}

/// The painter that was first registered for a rendering context.
pub open spec fn painter_for_context(
    painters: Seq<PainterEntry>,
    rendering_context: u64,
) -> Option<PainterId>
    decreases painters.len(),
{
    if painters.len() == 0 {
        None
    } else {
        match painter_for_context(painters.drop_last(), rendering_context) {
            Some(id) => Some(id),
            None => if painters.last().rendering_context == rendering_context {
                Some(painters.last().painter_id)
            } else {
                None
            },
        }
    }
}

/// The painters without those known as `painter_id`.
pub open spec fn without_painter(painters: Seq<PainterEntry>, painter_id: PainterId) -> Seq<
    PainterEntry,
> {
    painters.filter(|p: PainterEntry| p.painter_id != painter_id)
}

/// A painter that joins is known, and the others stay as known as they were.
proof fn lemma_registered_push(painters: Seq<PainterEntry>, entry: PainterEntry)
    ensures
        forall|id: PainterId| #[trigger]
            registered(painters.push(entry), id) <==> registered(painters, id) || id
                == entry.painter_id,
{
    assert forall|id: PainterId| #[trigger]
        registered(painters.push(entry), id) <==> registered(painters, id) || id
            == entry.painter_id by {
        let after = painters.push(entry);
        if registered(painters, id) {
            let i = choose|i: int|
                0 <= i < painters.len() && (#[trigger] painters[i]).painter_id == id;
            assert(after[i].painter_id == id);
        }
        if id == entry.painter_id {
            assert(after[painters.len() as int].painter_id == id);
        }
        if registered(after, id) {
            let i = choose|i: int| 0 <= i < after.len() && (#[trigger] after[i]).painter_id == id;
            if i < painters.len() {
                assert(painters[i].painter_id == id);
            }
        }
    }
}

/// A painter that leaves is unknown, and the others stay as known as they were.
pub proof fn lemma_registered_without(painters: Seq<PainterEntry>, gone: PainterId)
    ensures
        forall|id: PainterId| #[trigger]
            registered(without_painter(painters, gone), id) <==> registered(painters, id) && id
                != gone,
{
    let keep = |p: PainterEntry| p.painter_id != gone;
    let after = without_painter(painters, gone);
    assert forall|id: PainterId| #[trigger]
        registered(after, id) <==> registered(painters, id) && id != gone by {
        if registered(after, id) {
            let i = choose|i: int| 0 <= i < after.len() && (#[trigger] after[i]).painter_id == id;
            painters.lemma_filter_pred(keep, i);
            painters.lemma_filter_contains_rev(keep, after[i]);
            let j = choose|j: int| 0 <= j < painters.len() && painters[j] == after[i];
            assert(painters[j].painter_id == id);
        }
        if registered(painters, id) && id != gone {
            let i = choose|i: int|
                0 <= i < painters.len() && (#[trigger] painters[i]).painter_id == id;
            painters.lemma_filter_contains(keep, i);
            let j = choose|j: int| 0 <= j < after.len() && after[j] == painters[i];
            assert(after[j].painter_id == id);
        }
    }
}

impl Paint {
    /// What each painter draws with is kept exactly as long as the painter.
    pub open spec fn wf(&self) -> bool {
        details_match(self.painters(), self.surfman_details())
    }

    /// Makes the paint service, without any painter.
    pub fn new(state: InitialPaintState) -> (r: Paint)
        ensures
            r.wf(),
            r.painters() == Seq::<PainterEntry>::empty(),
            r.surfman_details() == Map::<u32, PainterSurfmanDetails>::empty(),
            r.shared_state() == state.shutdown_state,
            r.handles() == (PaintHandles {
                receiver: state.receiver,
                webgl_threads: state.webgl_threads,
                webrender_external_image_id_manager: state.webrender_external_image_id_manager,
                webxr_main_thread: state.webxr_main_thread,
                webgpu_image_map: None,
            }),
    {
        let r = Paint {
            painters: Vec::new(),
            shutdown_state: state.shutdown_state,
            painter_surfman_details_map: HashMap::new(),
            paint_receiver: state.receiver,
            webgl_threads: state.webgl_threads,
            webrender_external_image_id_manager: state.webrender_external_image_id_manager,
            webxr_main_thread: state.webxr_main_thread,
            webgpu_image_map: None,
        };
        r
    }

    /// The handles that the paint service keeps for others.
    pub closed spec fn handles(&self) -> PaintHandles {
        PaintHandles {
            receiver: self.paint_receiver,
            webgl_threads: self.webgl_threads,
            webrender_external_image_id_manager: self.webrender_external_image_id_manager,
            webxr_main_thread: self.webxr_main_thread,
            webgpu_image_map: self.webgpu_image_map,
        }
    }

    /// The painter that already paints to a rendering context. Where there is none,
    /// one is to be made, and then [`Self::painter_created`].
    pub fn register_rendering_context(&self, rendering_context: u64) -> (r: Option<PainterId>)
        ensures
            r == painter_for_context(self.painters(), rendering_context),
    {
        let mut i: usize = 0;
        while i < self.painters.len()
            invariant
                i <= self.painters.len(),
                painter_for_context(self.painters@.take(i as int), rendering_context) is None,
            decreases self.painters.len() - i,
        {
            proof {
                assert(self.painters@.take(i + 1).drop_last() =~= self.painters@.take(i as int));
            }
            if self.painters[i].rendering_context == rendering_context {
                proof {
                    lemma_context_prefix(self.painters@, i + 1, rendering_context);
                }
                return Some(self.painters[i].painter_id);
            }
            i = i + 1;
        }
        assert(self.painters@.take(self.painters@.len() as int) =~= self.painters@);
        None
    }

    /// A painter was made for a rendering context.
    pub fn painter_created(
        &mut self,
        painter_id: PainterId,
        rendering_context: u64,
        details: PainterSurfmanDetails,
    )
        ensures
            final(self).painters() == old(self).painters().push(
                PainterEntry { painter_id, rendering_context },
            ),
            final(self).surfman_details() == old(self).surfman_details().insert(
                painter_id.0,
                details,
            ),
            final(self).shared_state() == old(self).shared_state(),
            final(self).handles() == old(self).handles(),
            old(self).wf() ==> final(self).wf(),
    {
        broadcast use vstd::std_specs::hash::group_hash_axioms;

        self.painter_surfman_details_map.insert(painter_id.0, details);
        self.painters.push(PainterEntry { painter_id, rendering_context });
        proof {
            lemma_registered_push(
                old(self).painters(),
                PainterEntry { painter_id, rendering_context },
            );
        }
    }

    /// Lets a painter go, and with it what it drew with.
    fn remove_painter(&mut self, painter_id: PainterId)
        ensures
            final(self).painters() == without_painter(old(self).painters(), painter_id),
            final(self).surfman_details() == old(self).surfman_details().remove(painter_id.0),
            final(self).shared_state() == old(self).shared_state(),
            final(self).handles() == old(self).handles(),
            old(self).wf() ==> final(self).wf(),
    {
        broadcast use vstd::std_specs::hash::group_hash_axioms;

        let ghost keep = |p: PainterEntry| p.painter_id != painter_id;
        let mut kept: Vec<PainterEntry> = Vec::new();
        let mut i: usize = 0;
        assert(self.painters@.take(0).filter(keep) =~= Seq::empty());
        while i < self.painters.len()
            invariant
                i <= self.painters.len(),
                self.painters@ == old(self).painters@,
                self.painter_surfman_details_map == old(self).painter_surfman_details_map,
                self.shared_state() == old(self).shared_state(),
                self.handles() == old(self).handles(),
                keep == (|p: PainterEntry| p.painter_id != painter_id),
                kept@ == self.painters@.take(i as int).filter(keep),
            decreases self.painters.len() - i,
        {
            proof {
                lemma_filter_take(self.painters@, keep, i as int);
            }
            if self.painters[i].painter_id != painter_id {
                kept.push(self.painters[i]);
            }
            i = i + 1;
        }
        assert(self.painters@.take(self.painters@.len() as int) =~= self.painters@);
        self.painters = kept;
        self.painter_surfman_details_map.remove(&painter_id.0);
        proof {
            lemma_registered_without(old(self).painters(), painter_id);
            if old(self).wf() {
                let before = old(self).surfman_details();
                assert(self.painters() == without_painter(old(self).painters(), painter_id));
                assert(self.surfman_details() == before.remove(painter_id.0));
                assert forall|id: u32| #[trigger]
                    self.surfman_details().contains_key(id) <==> registered(
                        self.painters(),
                        PainterId(id),
                    ) by {
                    assert(before.contains_key(id) <==> registered(
                        old(self).painters(),
                        PainterId(id),
                    ));
                    assert(registered(
                        without_painter(old(self).painters(), painter_id),
                        PainterId(id),
                    ) <==> registered(old(self).painters(), PainterId(id)) && PainterId(id)
                        != painter_id);
                }
            }
        }
    }
}

impl Paint {
    /// The painter known as `painter_id`.
    pub fn painter(&self, painter_id: PainterId) -> (r: PainterEntry)
        requires
            registered(self.painters(), painter_id),
        ensures
            r.painter_id == painter_id,
            exists|i: int| #[trigger]
                is_first_known(self.painters(), painter_id, i) && r == self.painters()[i],
    {
        match self.maybe_painter(painter_id) {
            Some(entry) => entry,
            None => unreached(),
        }
    }

    /// What the painter known as `painter_id` draws with.
    pub fn painter_surfman_details(&self, painter_id: PainterId) -> (r: Option<
        PainterSurfmanDetails,
    >)
        ensures
            r is Some <==> self.surfman_details().contains_key(painter_id.0),
            r matches Some(details) ==> details == self.surfman_details()[painter_id.0],
    {
        broadcast use vstd::std_specs::hash::group_hash_axioms;

        match self.painter_surfman_details_map.get(&painter_id.0) {
            Some(details) => Some(*details),
            None => None,
        }
    }

    /// The painter that was registered first.
    pub fn painter_id(&self) -> (r: PainterId)
        requires
            self.painters().len() > 0,
        ensures
            r == self.painters()[0].painter_id,
    {
        self.painters[0].painter_id
    }

    /// The painters, in the order in which they were registered.
    pub fn painter_ids(&self) -> (r: Vec<PainterId>)
        ensures
            r@ == self.painters().map_values(|p: PainterEntry| p.painter_id),
    {
        let mut ids: Vec<PainterId> = Vec::new();
        let mut i: usize = 0;
        while i < self.painters.len()
            invariant
                i <= self.painters.len(),
                ids@ == self.painters@.take(i as int).map_values(|p: PainterEntry| p.painter_id),
            decreases self.painters.len() - i,
        {
            ids.push(self.painters[i].painter_id);
            i = i + 1;
            assert(ids@ =~= self.painters@.take(i as int).map_values(
                |p: PainterEntry| p.painter_id,
            ));
        }
        assert(self.painters@.take(self.painters@.len() as int) =~= self.painters@);
        ids
    }

    /// Asks the painter how large its rendering context is.
    pub fn rendering_context_size<P>(&self, painter_id: PainterId) -> (r: PaintCommand<P>)
        requires
            registered(self.painters(), painter_id),
        ensures
            r == (PaintCommand::<P>::Painter {
                painter: painter_id,
                op: PainterOp::RenderingContextSize,
            }),
    {
        self.command(painter_id, PainterOp::RenderingContextSize)
    }

    pub fn webgl_threads(&self) -> (r: u64)
        ensures
            r == self.handles().webgl_threads,
    {
        self.webgl_threads
    }

    pub fn webrender_external_image_id_manager(&self) -> (r: u64)
        ensures
            r == self.handles().webrender_external_image_id_manager,
    {
        self.webrender_external_image_id_manager
    }

    /// Whether an XR session is running; `running` is what the XR devices say, where
    /// XR is supported.
    pub fn webxr_running(&self, running: bool) -> (r: bool)
        ensures
            r == (self.handles().webxr_main_thread is Some && running),
    {
        self.webxr_main_thread.is_some() && running
    }

    /// The XR devices, where XR is supported.
    pub fn webxr_main_thread_registry(&self) -> (r: Option<u64>)
        ensures
            r == self.handles().webxr_main_thread,
    {
        self.webxr_main_thread
    }

    /// The images that are shared with the GPU, once they have been set up; `fresh`,
    /// where it is given, sets them up if that is still to be done. Without it, none
    /// says that they are to be made and handed over.
    pub fn webgpu_image_map(&mut self, fresh: Option<u64>) -> (r: Option<u64>)
        ensures
            r == match old(self).handles().webgpu_image_map {
                Some(map) => Some(map),
                None => fresh,
            },
            final(self).handles() == (PaintHandles { webgpu_image_map: r, ..old(self).handles() }),
            final(self).painters() == old(self).painters(),
            final(self).surfman_details() == old(self).surfman_details(),
            final(self).shared_state() == old(self).shared_state(),
    {
        if self.webgpu_image_map.is_none() {
            self.webgpu_image_map = fresh;
        }
        self.webgpu_image_map
    }

    pub fn receiver(&self) -> (r: u64)
        ensures
            r == self.handles().receiver,
    {
        self.paint_receiver
    }

    /// The web views that are to be painted again: those that each painter named, asked
    /// in the order of [`Self::painter_ids`].
    pub fn webviews_needing_repaint(&self, named: &Vec<Vec<WebViewId>>) -> (r: Vec<WebViewId>)
        requires
            named@.len() == self.painters().len(),
        ensures
            r@ == named@.map_values(|ids: Vec<WebViewId>| ids@).flatten(),
    {
        let ghost lists = named@.map_values(|ids: Vec<WebViewId>| ids@);
        let mut all: Vec<WebViewId> = Vec::new();
        let mut i: usize = 0;
        assert(lists.take(0) =~= Seq::empty());
        assert(lists.take(0).flatten() =~= Seq::empty());
        while i < named.len()
            invariant
                i <= named.len(),
                lists == named@.map_values(|ids: Vec<WebViewId>| ids@),
                all@ == lists.take(i as int).flatten(),
            decreases named.len() - i,
        {
            let ghost before = all@;
            all.extend_from_slice(named[i].as_slice());
            proof {
                assert(all@ =~= before + lists[i as int]);
                assert(lists.take(i + 1) =~= lists.take(i as int).push(lists[i as int]));
                lists.take(i as int).lemma_flatten_push(lists[i as int]);
            }
            i = i + 1;
        }
        assert(lists.take(lists.len() as int) =~= lists);
        all
    }

    /// The painter of a web view is to remove it. Whether the painter is then empty
    /// goes to [`Self::webview_removed`].
    pub fn remove_webview<P>(&self, webview_id: WebViewId) -> (r: PaintCommand<P>)
        requires
            registered(self.painters(), webview_id.painter),
        ensures
            r == (PaintCommand::<P>::Painter {
                painter: webview_id.painter,
                op: PainterOp::RemoveWebView { webview_id },
            }),
    {
        self.command(webview_id.painter_id(), PainterOp::RemoveWebView { webview_id })
    }

    /// The painter of a web view has removed it; a painter that is left empty goes.
    pub fn webview_removed(&mut self, webview_id: WebViewId, painter_is_empty: bool)
        ensures
            final(self).painters() == if painter_is_empty {
                without_painter(old(self).painters(), webview_id.painter)
            } else {
                old(self).painters()
            },
            final(self).surfman_details() == if painter_is_empty {
                old(self).surfman_details().remove(webview_id.painter.0)
            } else {
                old(self).surfman_details()
            },
            final(self).shared_state() == old(self).shared_state(),
            final(self).handles() == old(self).handles(),
            old(self).wf() ==> final(self).wf(),
    {
        if !painter_is_empty {
            return;
        }
        self.remove_painter(webview_id.painter_id());
    }

    /// A command for the painter known as `painter_id`.
    fn command<P>(&self, painter_id: PainterId, op: PainterOp<P>) -> (r: PaintCommand<P>)
        requires
            registered(self.painters(), painter_id),
        ensures
            r == (PaintCommand::Painter { painter: painter_id, op }),
    {
        let entry = self.painter(painter_id);
        PaintCommand::Painter { painter: entry.painter_id, op }
    }

    /// A command for the painter known as `painter_id`, unless the embedder is going
    /// down.
    fn command_unless_shutting_down<P>(
        &self,
        states: &ShutdownStates,
        painter_id: PainterId,
        op: PainterOp<P>,
    ) -> (r: Option<PaintCommand<P>>)
        requires
            self.shares(states@),
            self.state(states@) == ShutdownState::NotShuttingDown ==> registered(
                self.painters(),
                painter_id,
            ),
        ensures
            r == if self.state(states@) == ShutdownState::NotShuttingDown {
                Some(PaintCommand::Painter { painter: painter_id, op })
            } else {
                None
            },
    {
        if self.shutdown_state(states) != ShutdownState::NotShuttingDown {
            return None;
        }
        Some(self.command(painter_id, op))
    }

    /// Hands a new web view to its painter.
    pub fn add_webview<P>(
        &self,
        webview_id: WebViewId,
        webview: P,
        viewport_details: P,
    ) -> (r: PaintCommand<P>)
        requires
            registered(self.painters(), webview_id.painter),
        ensures
            r == (PaintCommand::Painter {
                painter: webview_id.painter,
                op: PainterOp::AddWebView { webview, viewport_details },
            }),
    {
        self.command(webview_id.painter_id(), PainterOp::AddWebView { webview, viewport_details })
    }

    /// Shows a web view; the painter says whether it knows it.
    pub fn show_webview<P>(&self, webview_id: WebViewId) -> (r: PaintCommand<P>)
        requires
            registered(self.painters(), webview_id.painter),
        ensures
            r == (PaintCommand::<P>::Painter {
                painter: webview_id.painter,
                op: PainterOp::SetWebViewHidden { webview_id, hidden: false },
            }),
    {
        self.command(
            webview_id.painter_id(),
            PainterOp::SetWebViewHidden { webview_id, hidden: false },
        )
    }

    /// Hides a web view; the painter says whether it knows it.
    pub fn hide_webview<P>(&self, webview_id: WebViewId) -> (r: PaintCommand<P>)
        requires
            registered(self.painters(), webview_id.painter),
        ensures
            r == (PaintCommand::<P>::Painter {
                painter: webview_id.painter,
                op: PainterOp::SetWebViewHidden { webview_id, hidden: true },
            }),
    {
        self.command(
            webview_id.painter_id(),
            PainterOp::SetWebViewHidden { webview_id, hidden: true },
        )
    }

    /// Sets how many device pixels go to a pixel of a web view.
    pub fn set_hidpi_scale_factor<P>(
        &self,
        states: &ShutdownStates,
        webview_id: WebViewId,
        new_scale_factor: P,
    ) -> (r: Option<PaintCommand<P>>)
        requires
            self.shares(states@),
            self.state(states@) == ShutdownState::NotShuttingDown ==> registered(
                self.painters(),
                webview_id.painter,
            ),
        ensures
            r == if self.state(states@) == ShutdownState::NotShuttingDown {
                Some(
                    PaintCommand::Painter {
                        painter: webview_id.painter,
                        op: PainterOp::SetHidpiScaleFactor { webview_id, new_scale_factor },
                    },
                )
            } else {
                None
            },
    {
        self.command_unless_shutting_down(
            states,
            webview_id.painter_id(),
            PainterOp::SetHidpiScaleFactor { webview_id, new_scale_factor },
        )
    }

    /// Resizes what the painter of a web view paints to.
    pub fn resize_rendering_context<P>(
        &self,
        states: &ShutdownStates,
        webview_id: WebViewId,
        width: u32,
        height: u32,
    ) -> (r: Option<PaintCommand<P>>)
        requires
            self.shares(states@),
            self.state(states@) == ShutdownState::NotShuttingDown ==> registered(
                self.painters(),
                webview_id.painter,
            ),
        ensures
            r == if self.state(states@) == ShutdownState::NotShuttingDown {
                Some(
                    PaintCommand::<P>::Painter {
                        painter: webview_id.painter,
                        op: PainterOp::ResizeRenderingContext { width, height },
                    },
                )
            } else {
                None
            },
    {
        self.command_unless_shutting_down(
            states,
            webview_id.painter_id(),
            PainterOp::ResizeRenderingContext { width, height },
        )
    }

    /// Sets the zoom of a page.
    pub fn set_page_zoom<P>(
        &self,
        states: &ShutdownStates,
        webview_id: WebViewId,
        new_zoom: P,
    ) -> (r: Option<PaintCommand<P>>)
        requires
            self.shares(states@),
            self.state(states@) == ShutdownState::NotShuttingDown ==> registered(
                self.painters(),
                webview_id.painter,
            ),
        ensures
            r == if self.state(states@) == ShutdownState::NotShuttingDown {
                Some(
                    PaintCommand::Painter {
                        painter: webview_id.painter,
                        op: PainterOp::SetPageZoom { webview_id, new_zoom },
                    },
                )
            } else {
                None
            },
    {
        self.command_unless_shutting_down(
            states,
            webview_id.painter_id(),
            PainterOp::SetPageZoom { webview_id, new_zoom },
        )
    }

    /// Asks for the zoom of a page.
    pub fn page_zoom<P>(&self, webview_id: WebViewId) -> (r: PaintCommand<P>)
        requires
            registered(self.painters(), webview_id.painter),
        ensures
            r == (PaintCommand::<P>::Painter {
                painter: webview_id.painter,
                op: PainterOp::PageZoom { webview_id },
            }),
    {
        self.command(webview_id.painter_id(), PainterOp::PageZoom { webview_id })
    }

    /// The painter of a web view is to render.
    pub fn render<P>(&self, webview_id: WebViewId) -> (r: PaintCommand<P>)
        requires
            registered(self.painters(), webview_id.painter),
        ensures
            r == (PaintCommand::<P>::Painter {
                painter: webview_id.painter,
                op: PainterOp::Render,
            }),
    {
        self.command(webview_id.painter_id(), PainterOp::Render)
    }

    /// The painter of a web view is to save what it paints under `path`; without a
    /// path nothing is saved.
    pub fn capture_webrender<P>(&self, webview_id: WebViewId, path: Option<P>) -> (r: Option<
        PaintCommand<P>,
    >)
        requires
            path is Some ==> registered(self.painters(), webview_id.painter),
        ensures
            r == match path {
                Some(path) => Some(
                    PaintCommand::Painter {
                        painter: webview_id.painter,
                        op: PainterOp::SaveCapture { path },
                    },
                ),
                None => None,
            },
    {
        match path {
            Some(path) => Some(
                self.command(webview_id.painter_id(), PainterOp::SaveCapture { path }),
            ),
            None => None,
        }
    }

    /// Hands an input event to the painter of a web view, which says whether it took
    /// it. While the embedder goes down no event is taken.
    pub fn notify_input_event<P>(
        &self,
        states: &ShutdownStates,
        webview_id: WebViewId,
        event: P,
    ) -> (r: Option<PaintCommand<P>>)
        requires
            self.shares(states@),
            self.state(states@) == ShutdownState::NotShuttingDown ==> registered(
                self.painters(),
                webview_id.painter,
            ),
        ensures
            r == if self.state(states@) == ShutdownState::NotShuttingDown {
                Some(
                    PaintCommand::Painter {
                        painter: webview_id.painter,
                        op: PainterOp::NotifyInputEvent { webview_id, event },
                    },
                )
            } else {
                None
            },
    {
        self.command_unless_shutting_down(
            states,
            webview_id.painter_id(),
            PainterOp::NotifyInputEvent { webview_id, event },
        )
    }

    /// Hands a scroll to the painter of a web view.
    pub fn notify_scroll_event<P>(
        &self,
        states: &ShutdownStates,
        webview_id: WebViewId,
        scroll: P,
        point: P,
    ) -> (r: Option<PaintCommand<P>>)
        requires
            self.shares(states@),
            self.state(states@) == ShutdownState::NotShuttingDown ==> registered(
                self.painters(),
                webview_id.painter,
            ),
        ensures
            r == if self.state(states@) == ShutdownState::NotShuttingDown {
                Some(
                    PaintCommand::Painter {
                        painter: webview_id.painter,
                        op: PainterOp::NotifyScrollEvent { webview_id, scroll, point },
                    },
                )
            } else {
                None
            },
    {
        self.command_unless_shutting_down(
            states,
            webview_id.painter_id(),
            PainterOp::NotifyScrollEvent { webview_id, scroll, point },
        )
    }

    /// Changes the pinch zoom of a web view.
    pub fn adjust_pinch_zoom<P>(
        &self,
        states: &ShutdownStates,
        webview_id: WebViewId,
        pinch_zoom_delta: P,
        center: P,
    ) -> (r: Option<PaintCommand<P>>)
        requires
            self.shares(states@),
            self.state(states@) == ShutdownState::NotShuttingDown ==> registered(
                self.painters(),
                webview_id.painter,
            ),
        ensures
            r == if self.state(states@) == ShutdownState::NotShuttingDown {
                Some(
                    PaintCommand::Painter {
                        painter: webview_id.painter,
                        op: PainterOp::AdjustPinchZoom { webview_id, pinch_zoom_delta, center },
                    },
                )
            } else {
                None
            },
    {
        self.command_unless_shutting_down(
            states,
            webview_id.painter_id(),
            PainterOp::AdjustPinchZoom { webview_id, pinch_zoom_delta, center },
        )
    }

    /// Asks for the pinch zoom of a web view.
    pub fn pinch_zoom<P>(&self, webview_id: WebViewId) -> (r: PaintCommand<P>)
        requires
            registered(self.painters(), webview_id.painter),
        ensures
            r == (PaintCommand::<P>::Painter {
                painter: webview_id.painter,
                op: PainterOp::PinchZoom { webview_id },
            }),
    {
        self.command(webview_id.painter_id(), PainterOp::PinchZoom { webview_id })
    }

    /// Asks how many device pixels go to a pixel of a page.
    pub fn device_pixels_per_page_pixel<P>(&self, webview_id: WebViewId) -> (r: PaintCommand<P>)
        requires
            registered(self.painters(), webview_id.painter),
        ensures
            r == (PaintCommand::<P>::Painter {
                painter: webview_id.painter,
                op: PainterOp::DevicePixelsPerPagePixel { webview_id },
            }),
    {
        self.command(webview_id.painter_id(), PainterOp::DevicePixelsPerPagePixel { webview_id })
    }

    /// The painter of a web view is to take a picture of it, or of a part of it.
    pub fn request_screenshot<P>(
        &self,
        webview_id: WebViewId,
        rect: Option<P>,
        callback: P,
    ) -> (r: PaintCommand<P>)
        requires
            registered(self.painters(), webview_id.painter),
        ensures
            r == (PaintCommand::Painter {
                painter: webview_id.painter,
                op: PainterOp::RequestScreenshot { webview_id, rect, callback },
            }),
    {
        self.command(
            webview_id.painter_id(),
            PainterOp::RequestScreenshot { webview_id, rect, callback },
        )
    }

    /// An input event was handled; the painter of the web view is told, if it is
    /// still there.
    pub fn notify_input_event_handled<P>(
        &self,
        webview_id: WebViewId,
        input_event_id: u64,
        result: P,
    ) -> (r: Vec<PaintCommand<P>>)
        ensures
            views(r@) == for_painter(
                self.painters(),
                webview_id.painter,
                PainterOp::NotifyInputEventHandled { webview_id, input_event_id, result },
            ),
    {
        self.to_painter(
            webview_id.painter_id(),
            PainterOp::NotifyInputEventHandled { webview_id, input_event_id, result },
        )
    }

    /// All painters are to show, or no longer to show, something of WebRender.
    pub fn toggle_webrender_debug<P>(&self, option: WebRenderDebugOption) -> (r: Vec<
        PaintCommand<P>,
    >)
        ensures
            r@ == for_each_painter::<P>(
                self.painters(),
                PainterOp::ToggleWebRenderDebug { option },
            ),
    {
        let mut commands: Vec<PaintCommand<P>> = Vec::new();
        let mut i: usize = 0;
        while i < self.painters.len()
            invariant
                i <= self.painters.len(),
                commands@ == for_each_painter::<P>(
                    self.painters@.take(i as int),
                    PainterOp::ToggleWebRenderDebug { option },
                ),
            decreases self.painters.len() - i,
        {
            commands.push(
                PaintCommand::Painter {
                    painter: self.painters[i].painter_id,
                    op: PainterOp::ToggleWebRenderDebug { option },
                },
            );
            i = i + 1;
            assert(commands@ =~= for_each_painter::<P>(
                self.painters@.take(i as int),
                PainterOp::ToggleWebRenderDebug { option },
            ));
        }
        assert(self.painters@.take(self.painters@.len() as int) =~= self.painters@);
        commands
    }

    /// A turn of the event loop: the XR devices, where XR is supported, and then all
    /// painters advance. `None` once the embedder has gone down: the loop then ends.
    /// When all is done, [`Self::updates_performed`] says whether the loop goes on.
    pub fn perform_updates<P>(&self, states: &ShutdownStates) -> (r: Option<Vec<PaintCommand<P>>>)
        requires
            self.shares(states@),
        ensures
            r is None <==> self.state(states@) == ShutdownState::FinishedShuttingDown,
            r matches Some(commands) ==> commands@ == xr_frame::<P>(
                self.handles().webxr_main_thread is Some,
            ) + for_each_painter::<P>(self.painters(), PainterOp::PerformUpdates),
    {
        if self.shutdown_state(states) == ShutdownState::FinishedShuttingDown {
            return None;
        }
        let mut commands: Vec<PaintCommand<P>> = Vec::new();
        if self.webxr_main_thread.is_some() {
            commands.push(PaintCommand::RunOneXrFrame);
        }
        let ghost xr = xr_frame::<P>(self.handles().webxr_main_thread is Some);
        let mut i: usize = 0;
        assert(commands@ =~= xr + for_each_painter::<P>(
            self.painters@.take(0),
            PainterOp::PerformUpdates,
        ));
        while i < self.painters.len()
            invariant
                i <= self.painters.len(),
                commands@ == xr + for_each_painter::<P>(
                    self.painters@.take(i as int),
                    PainterOp::PerformUpdates,
                ),
            decreases self.painters.len() - i,
        {
            commands.push(
                PaintCommand::Painter {
                    painter: self.painters[i].painter_id,
                    op: PainterOp::PerformUpdates,
                },
            );
            i = i + 1;
            assert(commands@ =~= xr + for_each_painter::<P>(
                self.painters@.take(i as int),
                PainterOp::PerformUpdates,
            ));
        }
        assert(self.painters@.take(self.painters@.len() as int) =~= self.painters@);
        Some(commands)
    }

    /// Whether the event loop goes on after a turn.
    pub fn updates_performed(&self, states: &ShutdownStates) -> (r: bool)
        requires
            self.shares(states@),
        ensures
            r == (self.state(states@) != ShutdownState::FinishedShuttingDown),
    {
        self.shutdown_state(states) != ShutdownState::FinishedShuttingDown
    }
}

/// The same command for each painter, in order.
pub open spec fn for_each_painter<P>(painters: Seq<PainterEntry>, op: PainterOp<P>) -> Seq<
    PaintCommand<P>,
> {
    painters.map_values(|p: PainterEntry| PaintCommand::Painter { painter: p.painter_id, op })
}

/// The turn of the XR devices, where XR is supported.
pub open spec fn xr_frame<P>(supported: bool) -> Seq<PaintCommand<P>> {
    if supported {
        seq![PaintCommand::RunOneXrFrame]
    } else {
        Seq::empty()
    }
}

/// The handles that the paint service keeps for others.
pub struct PaintHandles {
    pub receiver: u64,
    pub webgl_threads: u64,
    pub webrender_external_image_id_manager: u64,
    pub webxr_main_thread: Option<u64>,
    pub webgpu_image_map: Option<u64>,
}

/// The first painter for a context is found among the first painters already, if
/// it is there.
proof fn lemma_context_prefix(painters: Seq<PainterEntry>, n: int, rendering_context: u64)
    requires
        0 <= n <= painters.len(),
        painter_for_context(painters.take(n), rendering_context) is Some,
    ensures
        painter_for_context(painters, rendering_context) == painter_for_context(
            painters.take(n),
            rendering_context,
        ),
    decreases painters.len() - n,
{
    if n == painters.len() {
        assert(painters.take(n) =~= painters);
    } else {
        assert(painters.take(n + 1).drop_last() =~= painters.take(n));
        lemma_context_prefix(painters, n + 1, rendering_context);
    }
}

/// A list of one command.
fn one<P>(command: PaintCommand<P>) -> (r: Vec<PaintCommand<P>>)
    ensures
        views(r@) == seq![command@],
{
    let mut commands: Vec<PaintCommand<P>> = Vec::new();
    commands.push(command);
    assert(views(commands@) =~= seq![command@]);
    commands
}

} // verus!
