use netpaint::paint::batch::BatchStep;
use netpaint::paint::capture::capture_step;
use netpaint::paint::commands::{PaintCommand, PainterOp, WebRenderDebugOption};
use netpaint::paint::finish::FinishStep;
use netpaint::paint::ids::{FontInstanceKey, FontKey, ImageKey, PainterId, PipelineId, WebViewId};
use netpaint::paint::memory::{memory_totals_fit, MemoryReport, Report, ReportKind};
use netpaint::paint::messages::{PaintMessage, ShutdownState};
use netpaint::paint::paint::{InitialPaintState, Paint, PainterSurfmanDetails};
use netpaint::paint::repaint::RepaintReason;
use netpaint::paint::shutdown::ShutdownStates;

type Command = PaintCommand<&'static str>;
type Message = PaintMessage<&'static str>;

fn state() -> InitialPaintState {
    InitialPaintState {
        shutdown_state: 0,
        receiver: 1,
        webgl_threads: 2,
        webrender_external_image_id_manager: 3,
        webxr_main_thread: None,
        dom_webxr_enabled: true,
    }
}

fn running() -> ShutdownStates {
    let mut states = ShutdownStates::new();
    assert_eq!(states.share(ShutdownState::NotShuttingDown), 0);
    states
}

fn view(painter: u32) -> WebViewId {
    WebViewId { painter: PainterId(painter), browsing_context: 77 }
}

fn details(n: u64) -> PainterSurfmanDetails {
    PainterSurfmanDetails { connection: n, adapter: n + 1 }
}

fn paint_with(painters: &[u32]) -> Paint {
    let mut paint = Paint::new(state());
    for id in painters {
        paint.painter_created(PainterId(*id), 100 + *id as u64, details(*id as u64));
    }
    paint
}

fn to(painter: u32, op: PainterOp<&'static str>) -> Command {
    PaintCommand::Painter { painter: PainterId(painter), op }
}

#[test]
fn a_rendering_context_is_registered_once() {
    let mut paint = Paint::new(state());
    assert_eq!(paint.register_rendering_context(500), None);
    paint.painter_created(PainterId(4), 500, details(9));
    assert_eq!(paint.register_rendering_context(500), Some(PainterId(4)));
    paint.painter_created(PainterId(5), 501, details(10));
    assert_eq!(paint.register_rendering_context(500), Some(PainterId(4)));
    assert_eq!(paint.register_rendering_context(501), Some(PainterId(5)));
    assert_eq!(paint.painter_id(), PainterId(4));
    assert_eq!(paint.painter_surfman_details(PainterId(5)), Some(details(10)));
    assert_eq!(paint.painter(PainterId(5)).rendering_context, 501);
}

#[test]
fn a_painter_goes_with_its_last_web_view() {
    let mut paint = paint_with(&[1, 2]);
    let command: Command = paint.remove_webview(view(1));
    assert_eq!(command, to(1, PainterOp::RemoveWebView { webview_id: view(1) }));
    paint.webview_removed(view(1), false);
    assert!(paint.maybe_painter(PainterId(1)).is_some());
    paint.webview_removed(view(1), true);
    assert!(paint.maybe_painter(PainterId(1)).is_none());
    assert_eq!(paint.painter_surfman_details(PainterId(1)), None);
    assert!(paint.maybe_painter(PainterId(2)).is_some());
    assert_eq!(paint.painter_surfman_details(PainterId(2)), Some(details(2)));
    assert_eq!(paint.register_rendering_context(101), None);
}

#[test]
fn messages_reach_their_painter() {
    let paint = paint_with(&[1]);
    let pipeline_id = PipelineId(6);
    let webview_id = view(1);
    let font_key = FontKey { namespace: 1, key: 8 };
    let font_instance_key = FontInstanceKey { namespace: 1, key: 9 };
    let cases: Vec<(Message, PainterOp<&'static str>)> = vec![
        (
            PaintMessage::ChangeRunningAnimationsState(webview_id, pipeline_id, "a"),
            PainterOp::ChangeRunningAnimationsState { webview_id, pipeline_id, state: "a" },
        ),
        (
            PaintMessage::SetFrameTreeForWebView(webview_id, "tree"),
            PainterOp::SetFrameTreeForWebView { frame_tree: "tree" },
        ),
        (
            PaintMessage::SetThrottled(webview_id, pipeline_id, true),
            PainterOp::SetThrottled { webview_id, pipeline_id, throttled: true },
        ),
        (
            PaintMessage::PipelineExited(webview_id, pipeline_id, "s"),
            PainterOp::NotifyPipelineExited { webview_id, pipeline_id, source: "s" },
        ),
        (
            PaintMessage::SendInitialTransaction(webview_id, pipeline_id),
            PainterOp::SendInitialPipelineTransaction { webview_id, pipeline_id },
        ),
        (
            PaintMessage::ScrollNodeByDelta { webview_id, pipeline_id, offset: "o", scroll_id: "i" },
            PainterOp::ScrollNodeByDelta { webview_id, pipeline_id, offset: "o", scroll_id: "i" },
        ),
        (
            PaintMessage::ScrollViewportByDelta(webview_id, "d"),
            PainterOp::ScrollViewportByDelta { webview_id, delta: "d" },
        ),
        (
            PaintMessage::UpdateEpoch { webview_id, pipeline_id, epoch: 3 },
            PainterOp::UpdateEpoch { webview_id, pipeline_id, epoch: 3 },
        ),
        (
            PaintMessage::SendDisplayList {
                webview_id,
                descriptor: "x",
                info_receiver: "y",
                data_receiver: "z",
            },
            PainterOp::HandleNewDisplayList {
                webview_id,
                descriptor: "x",
                info_receiver: "y",
                data_receiver: "z",
            },
        ),
        (
            PaintMessage::UpdateImages(PainterId(1), "u"),
            PainterOp::UpdateImages { updates: "u" },
        ),
        (
            PaintMessage::DelayNewFrameForCanvas {
                webview_id,
                pipeline_id,
                canvas_epoch: 2,
                image_keys: "k",
            },
            PainterOp::DelayNewFramesForCanvas { pipeline_id, canvas_epoch: 2, image_keys: "k" },
        ),
        (
            PaintMessage::AddFont { painter_id: PainterId(1), font_key, data: "d", index: 4 },
            PainterOp::AddFont { font_key, data: "d", index: 4 },
        ),
        (
            PaintMessage::AddSystemFont {
                painter_id: PainterId(1),
                font_key,
                native_handle: "n",
            },
            PainterOp::AddSystemFont { font_key, native_handle: "n" },
        ),
        (
            PaintMessage::AddFontInstance {
                painter_id: PainterId(1),
                font_instance_key,
                font_key,
                size: "s",
                flags: "f",
                variations: "v",
            },
            PainterOp::AddFontInstance {
                font_instance_key,
                font_key,
                size: "s",
                flags: "f",
                variations: "v",
            },
        ),
        (
            PaintMessage::RemoveFonts {
                painter_id: PainterId(1),
                keys: "k",
                instance_keys: "i",
            },
            PainterOp::RemoveFonts { keys: "k", instance_keys: "i" },
        ),
        (
            PaintMessage::Viewport(webview_id, "v"),
            PainterOp::SetViewportDescription { webview_id, viewport_description: "v" },
        ),
        (
            PaintMessage::ScreenshotReadinessReponse(webview_id, "p"),
            PainterOp::HandleScreenshotReadinessReply { webview_id, pipelines_and_epochs: "p" },
        ),
        (
            PaintMessage::SendLCPCandidate {
                lcp_candidate: "l",
                webview_id,
                pipeline_id,
                epoch: 5,
            },
            PainterOp::AppendLcpCandidate { lcp_candidate: "l", webview_id, pipeline_id, epoch: 5 },
        ),
        (
            PaintMessage::EnableLCPCalculation(webview_id),
            PainterOp::EnableLcpCalculation { webview_id },
        ),
    ];
    for (message, op) in cases {
        assert!(message.has_own_keys());
        assert_eq!(paint.handle_browser_message(&running(), message, 10), vec![to(1, op)]);
    }
}

#[test]
fn messages_for_unknown_painters_come_to_nothing() {
    let paint = paint_with(&[1]);
    let messages: Vec<Message> = vec![
        PaintMessage::SetFrameTreeForWebView(view(2), "tree"),
        PaintMessage::PipelineExited(view(2), PipelineId(1), "s"),
        PaintMessage::UpdateImages(PainterId(2), "u"),
        PaintMessage::EnableLCPCalculation(view(2)),
        PaintMessage::GenerateFrame(vec![PainterId(2), PainterId(3)]),
    ];
    for message in messages {
        assert_eq!(paint.handle_browser_message(&running(), message, 10), vec![]);
    }
}

#[test]
fn frames_are_generated_for_the_known_painters() {
    let paint = paint_with(&[1, 3]);
    let ids = vec![PainterId(3), PainterId(2), PainterId(1), PainterId(3)];
    let message: Message = PaintMessage::GenerateFrame(ids);
    let frame = |id| to(id, PainterOp::GenerateFrameForScript);
    assert_eq!(
        paint.handle_browser_message(&running(), message, 10),
        vec![frame(3), frame(1), frame(3)]
    );
}

#[test]
fn a_known_painter_makes_its_keys() {
    let paint = paint_with(&[1]);
    let message: Message = PaintMessage::GenerateImageKey(view(1), "r");
    assert_eq!(
        paint.handle_browser_message(&running(), message, 10),
        vec![PaintCommand::GenerateImageKey { painter: PainterId(1), reply: "r" }]
    );
    let message: Message = PaintMessage::GenerateImageKeysForPipeline(view(1), PipelineId(6));
    assert_eq!(
        paint.handle_browser_message(&running(), message, 10),
        vec![PaintCommand::GenerateImageKeysForPipeline {
            painter: PainterId(1),
            pipeline_id: PipelineId(6),
            count: 10
        }]
    );
    let message: Message = PaintMessage::GenerateFontKeys {
        number_of_font_keys: 2,
        number_of_font_instance_keys: 1,
        result_sender: "r",
        painter_id: PainterId(1),
    };
    assert_eq!(
        paint.handle_browser_message(&running(), message, 10),
        vec![PaintCommand::GenerateFontKeys {
            painter: PainterId(1),
            number_of_font_keys: 2,
            number_of_font_instance_keys: 1,
            reply: "r"
        }]
    );
}

#[test]
fn keys_for_an_unknown_painter_stand_for_nothing() {
    let paint = paint_with(&[1]);
    let message: Message = PaintMessage::GenerateImageKey(view(42), "r");
    assert_eq!(
        paint.handle_browser_message(&running(), message, 10),
        vec![PaintCommand::SendImageKey {
            key: ImageKey { namespace: 42, key: 0 },
            reply: "r"
        }]
    );
    let message: Message = PaintMessage::GenerateImageKeysForPipeline(view(42), PipelineId(6));
    assert_eq!(
        paint.handle_browser_message(&running(), message, 3),
        vec![PaintCommand::SendImageKeysForPipeline {
            pipeline_id: PipelineId(6),
            keys: vec![ImageKey { namespace: 42, key: 0 }; 3]
        }]
    );
    let message: Message = PaintMessage::GenerateFontKeys {
        number_of_font_keys: 2,
        number_of_font_instance_keys: 1,
        result_sender: "r",
        painter_id: PainterId(42),
    };
    assert_eq!(
        paint.handle_browser_message(&running(), message, 10),
        vec![PaintCommand::SendFontKeys {
            font_keys: vec![FontKey { namespace: 42, key: 0 }; 2],
            font_instance_keys: vec![FontInstanceKey { namespace: 42, key: 0 }],
            reply: "r"
        }]
    );
}

#[test]
fn only_awaited_messages_are_served_while_going_down() {
    let mut states = running();
    let paint = paint_with(&[1]);
    states.set(0, ShutdownState::ShuttingDown);
    let message: Message = PaintMessage::SetThrottled(view(1), PipelineId(1), true);
    assert_eq!(paint.handle_browser_message(&states, message, 10), vec![]);
    let message: Message = PaintMessage::CollectMemoryReport("r");
    assert_eq!(paint.handle_browser_message(&states, message, 10), vec![]);
    let message: Message = PaintMessage::NewWebRenderFrameReady(PainterId(1), 0, true);
    assert_eq!(paint.handle_browser_message(&states, message, 10), vec![]);
    let message: Message = PaintMessage::PipelineExited(view(1), PipelineId(1), "s");
    assert_eq!(paint.handle_browser_message(&states, message, 10).len(), 1);
    let message: Message = PaintMessage::GenerateImageKey(view(2), "r");
    assert_eq!(paint.handle_browser_message(&states, message, 10).len(), 1);
    let message: Message = PaintMessage::GenerateImageKeysForPipeline(view(1), PipelineId(1));
    assert_eq!(paint.handle_browser_message(&states, message, 10).len(), 1);
    let message: Message = PaintMessage::GenerateFontKeys {
        number_of_font_keys: 1,
        number_of_font_instance_keys: 1,
        result_sender: "r",
        painter_id: PainterId(1),
    };
    assert_eq!(paint.handle_browser_message(&states, message, 10).len(), 1);

    states.set(0, ShutdownState::FinishedShuttingDown);
    let message: Message = PaintMessage::GenerateImageKey(view(1), "r");
    assert_eq!(paint.handle_browser_message(&states, message, 10), vec![]);
}

#[test]
fn a_batch_tells_each_painter_of_its_frames_once() {
    let paint = paint_with(&[1, 2]);
    let messages: Vec<Message> = vec![
        PaintMessage::NewWebRenderFrameReady(PainterId(1), 0, false),
        PaintMessage::SetThrottled(view(1), PipelineId(1), true),
        PaintMessage::NewWebRenderFrameReady(PainterId(2), 0, false),
        PaintMessage::NewWebRenderFrameReady(PainterId(9), 0, true),
        PaintMessage::NewWebRenderFrameReady(PainterId(1), 0, true),
        PaintMessage::EnableLCPCalculation(view(2)),
    ];
    let (commands, mut batch) = paint.handle_messages(messages);
    let off = |id| to(id, PainterOp::DecrementPendingFrames);
    assert_eq!(commands, vec![off(1), off(2), off(1)]);

    let step = paint.next_message(&running(), &mut batch, 10);
    let op = PainterOp::SetThrottled {
        webview_id: view(1),
        pipeline_id: PipelineId(1),
        throttled: true,
    };
    assert_eq!(step, BatchStep::Handle(vec![to(1, op)]));
    let step = paint.next_message(&running(), &mut batch, 10);
    let op = PainterOp::EnableLcpCalculation { webview_id: view(2) };
    assert_eq!(step, BatchStep::Handle(vec![to(2, op)]));

    let BatchStep::Finish(mut told) = paint.next_message(&running(), &mut batch, 10) else {
        panic!("the batch did not finish");
    };
    told.sort_by_key(|c| match c {
        PaintCommand::Painter { painter, .. } => painter.0,
        _ => 0,
    });
    let tell = |id, repaint_needed| {
        to(id, PainterOp::HandleNewWebRenderFrameReady { repaint_needed })
    };
    assert_eq!(told, vec![tell(1, true), tell(2, false)]);
}

#[test]
fn painters_that_left_during_a_batch_are_not_told() {
    let mut paint = paint_with(&[1, 2]);
    let messages: Vec<Message> = vec![
        PaintMessage::NewWebRenderFrameReady(PainterId(1), 0, true),
        PaintMessage::NewWebRenderFrameReady(PainterId(2), 0, true),
    ];
    let (_, mut batch) = paint.handle_messages(messages);
    paint.webview_removed(view(1), true);
    let step = paint.next_message(&running(), &mut batch, 10);
    let op = PainterOp::HandleNewWebRenderFrameReady { repaint_needed: true };
    assert_eq!(step, BatchStep::Finish(vec![to(2, op)]));
}

#[test]
fn a_batch_is_dropped_when_the_embedder_has_gone_down() {
    let mut states = running();
    let paint = paint_with(&[1]);
    let messages: Vec<Message> = vec![
        PaintMessage::EnableLCPCalculation(view(1)),
        PaintMessage::EnableLCPCalculation(view(1)),
        PaintMessage::NewWebRenderFrameReady(PainterId(1), 0, true),
    ];
    let (_, mut batch) = paint.handle_messages(messages);
    assert!(matches!(paint.next_message(&states, &mut batch, 10), BatchStep::Handle(_)));
    states.set(0, ShutdownState::FinishedShuttingDown);
    assert_eq!(paint.next_message(&states, &mut batch, 10), BatchStep::Stop);
}

#[test]
fn a_batch_without_messages_still_tells_after_the_end() {
    let mut states = running();
    let paint = paint_with(&[1]);
    states.set(0, ShutdownState::FinishedShuttingDown);
    let messages: Vec<Message> =
        vec![PaintMessage::NewWebRenderFrameReady(PainterId(1), 0, false)];
    let (commands, mut batch) = paint.handle_messages(messages);
    assert_eq!(commands.len(), 1);
    let step = paint.next_message(&states, &mut batch, 10);
    let op = PainterOp::HandleNewWebRenderFrameReady { repaint_needed: false };
    assert_eq!(step, BatchStep::Finish(vec![to(1, op)]));
}

#[test]
fn settings_reach_the_painter_unless_going_down() {
    let mut states = running();
    let paint = paint_with(&[1]);
    let v = view(1);
    let at = |states: &ShutdownStates| -> Vec<Option<Command>> {
        vec![
            paint.set_hidpi_scale_factor(states, v, "2"),
            paint.resize_rendering_context(states, v, 640, 480),
            paint.set_page_zoom(states, v, "1.5"),
            paint.notify_input_event(states, v, "e"),
            paint.notify_scroll_event(states, v, "s", "p"),
            paint.adjust_pinch_zoom(states, v, "d", "c"),
        ]
    };
    assert_eq!(
        at(&states),
        vec![
            Some(to(1, PainterOp::SetHidpiScaleFactor { webview_id: v, new_scale_factor: "2" })),
            Some(to(1, PainterOp::ResizeRenderingContext { width: 640, height: 480 })),
            Some(to(1, PainterOp::SetPageZoom { webview_id: v, new_zoom: "1.5" })),
            Some(to(1, PainterOp::NotifyInputEvent { webview_id: v, event: "e" })),
            Some(to(
                1,
                PainterOp::NotifyScrollEvent { webview_id: v, scroll: "s", point: "p" }
            )),
            Some(to(
                1,
                PainterOp::AdjustPinchZoom { webview_id: v, pinch_zoom_delta: "d", center: "c" }
            )),
        ]
    );
    states.set(0, ShutdownState::ShuttingDown);
    assert_eq!(paint.shutdown_state(&states), ShutdownState::ShuttingDown);
    assert!(at(&states).iter().all(|c| c.is_none()));
}

#[test]
fn questions_and_orders_reach_the_painter() {
    let paint = paint_with(&[1, 2]);
    let v = view(2);
    let commands: Vec<Command> = vec![
        paint.add_webview(v, "w", "d"),
        paint.show_webview(v),
        paint.hide_webview(v),
        paint.page_zoom(v),
        paint.render(v),
        paint.pinch_zoom(v),
        paint.device_pixels_per_page_pixel(v),
        paint.request_screenshot(v, Some("r"), "c"),
        paint.rendering_context_size(PainterId(2)),
    ];
    assert_eq!(
        commands,
        vec![
            to(2, PainterOp::AddWebView { webview: "w", viewport_details: "d" }),
            to(2, PainterOp::SetWebViewHidden { webview_id: v, hidden: false }),
            to(2, PainterOp::SetWebViewHidden { webview_id: v, hidden: true }),
            to(2, PainterOp::PageZoom { webview_id: v }),
            to(2, PainterOp::Render),
            to(2, PainterOp::PinchZoom { webview_id: v }),
            to(2, PainterOp::DevicePixelsPerPagePixel { webview_id: v }),
            to(
                2,
                PainterOp::RequestScreenshot { webview_id: v, rect: Some("r"), callback: "c" }
            ),
            to(2, PainterOp::RenderingContextSize),
        ]
    );
    let handled: Vec<Command> = paint.notify_input_event_handled(v, 8, "ok");
    let op = PainterOp::NotifyInputEventHandled { webview_id: v, input_event_id: 8, result: "ok" };
    assert_eq!(handled, vec![to(2, op)]);
    let unknown: Vec<Command> = paint.notify_input_event_handled(view(3), 8, "ok");
    assert_eq!(unknown, vec![]);
}

#[test]
fn a_capture_needs_a_path() {
    let paint = paint_with(&[1]);
    assert_eq!(
        paint.capture_webrender(view(1), Some("/tmp/1")),
        Some(to(1, PainterOp::SaveCapture { path: "/tmp/1" }))
    );
    let none: Option<Command> = paint.capture_webrender(view(9), None);
    assert_eq!(none, None);
}

#[test]
fn a_turn_advances_the_devices_and_all_painters() {
    let mut states = running();
    let mut with_xr = state();
    with_xr.webxr_main_thread = Some(55);
    assert!(with_xr.registers_webxr());
    let mut paint = Paint::new(with_xr);
    paint.painter_created(PainterId(1), 1, details(1));
    paint.painter_created(PainterId(2), 2, details(2));
    let commands: Option<Vec<Command>> = paint.perform_updates(&states);
    assert_eq!(
        commands.unwrap(),
        vec![
            PaintCommand::RunOneXrFrame,
            to(1, PainterOp::PerformUpdates),
            to(2, PainterOp::PerformUpdates)
        ]
    );
    assert!(paint.updates_performed(&states));
    assert!(paint.webxr_running(true));
    assert!(!paint.webxr_running(false));
    assert_eq!(paint.webxr_main_thread_registry(), Some(55));

    states.set(0, ShutdownState::FinishedShuttingDown);
    let commands: Option<Vec<Command>> = paint.perform_updates(&states);
    assert!(commands.is_none());
    assert!(!paint.updates_performed(&states));
}

#[test]
fn without_devices_no_session_runs() {
    assert!(!state().registers_webxr());
    let paint = paint_with(&[1]);
    assert!(!paint.webxr_running(true));
    assert_eq!(paint.webxr_main_thread_registry(), None);
    let commands: Option<Vec<Command>> = paint.perform_updates(&running());
    assert_eq!(commands.unwrap(), vec![to(1, PainterOp::PerformUpdates)]);
}

#[test]
fn debug_options_go_to_all_painters() {
    let paint = paint_with(&[3, 1]);
    let commands: Vec<Command> = paint.toggle_webrender_debug(WebRenderDebugOption::Profiler);
    let op = || PainterOp::ToggleWebRenderDebug { option: WebRenderDebugOption::Profiler };
    assert_eq!(commands, vec![to(3, op()), to(1, op())]);
}

#[test]
fn handles_are_handed_out() {
    let mut paint = paint_with(&[]);
    assert_eq!(paint.receiver(), 1);
    assert_eq!(paint.webgl_threads(), 2);
    assert_eq!(paint.webrender_external_image_id_manager(), 3);
    assert_eq!(paint.webgpu_image_map(None), None);
    assert_eq!(paint.webgpu_image_map(Some(70)), Some(70));
    assert_eq!(paint.webgpu_image_map(None), Some(70));
    assert_eq!(paint.webgpu_image_map(Some(71)), Some(70));
}

#[test]
fn painters_are_listed_in_the_order_of_their_registration() {
    let mut paint = paint_with(&[3, 1, 2]);
    assert_eq!(paint.painter_ids(), vec![PainterId(3), PainterId(1), PainterId(2)]);
    paint.webview_removed(view(1), true);
    assert_eq!(paint.painter_ids(), vec![PainterId(3), PainterId(2)]);
}

#[test]
fn a_context_keeps_its_painter_through_any_changes() {
    let mut paint = paint_with(&[1, 2]);
    paint.painter_created(PainterId(9), 900, details(9));
    paint.webview_removed(view(1), true);
    paint.painter_created(PainterId(4), 104, details(4));
    paint.webview_removed(view(2), true);
    assert_eq!(paint.register_rendering_context(900), Some(PainterId(9)));
    paint.webview_removed(view(9), true);
    assert_eq!(paint.register_rendering_context(900), None);
    assert_eq!(paint.register_rendering_context(104), Some(PainterId(4)));
}

#[test]
fn captures_prefer_the_current_directory() {
    let step = |current, failed| capture_step(current, "/tmp", Some(1700000042), failed);
    let path = step(Some("/home"), 0).unwrap();
    assert_eq!(path.dir, "/home");
    assert_eq!(path.folder, "webrender-captures");
    assert_eq!(path.name, b"1700000042");
    assert_eq!(step(Some("/home"), 1).unwrap().dir, "/tmp");
    assert!(step(Some("/home"), 2).is_none());
    assert_eq!(step(None, 0).unwrap().dir, "/tmp");
    assert!(step(None, 1).is_none());
}

#[test]
fn captures_are_named_after_the_seconds() {
    let name = |seconds| capture_step(None, (), seconds, 0).unwrap().name;
    assert_eq!(name(None), b"0");
    assert_eq!(name(Some(0)), b"0");
    assert_eq!(name(Some(9)), b"9");
    assert_eq!(name(Some(10)), b"10");
    assert_eq!(name(Some(u64::MAX)), b"18446744073709551615");
}

#[test]
fn the_next_message_can_be_looked_at() {
    let paint = paint_with(&[1]);
    let messages: Vec<Message> = vec![
        PaintMessage::NewWebRenderFrameReady(PainterId(1), 0, true),
        PaintMessage::EnableLCPCalculation(view(1)),
        PaintMessage::GenerateImageKey(view(1), "r"),
    ];
    let (_, mut batch) = paint.handle_messages(messages);
    let next = batch.peek().unwrap();
    assert!(matches!(next, PaintMessage::EnableLCPCalculation(_)));
    assert!(!next.served_while_shutting_down());
    paint.next_message(&running(), &mut batch, 1);
    assert!(batch.peek().unwrap().served_while_shutting_down());
    paint.next_message(&running(), &mut batch, 1);
    assert!(batch.peek().is_none());
}

#[test]
fn repaints_are_named_painter_by_painter() {
    let paint = paint_with(&[1, 2]);
    let named = vec![vec![view(1)], vec![view(2), view(2)]];
    assert_eq!(paint.webviews_needing_repaint(&named), vec![view(1), view(2), view(2)]);
}

fn line(report: &Report) -> (Vec<&str>, usize) {
    assert_eq!(report.kind, ReportKind::ExplicitJemallocHeapSize);
    (report.path.iter().map(|part| part.as_str()).collect(), report.size)
}

#[test]
fn memory_is_added_up_over_all_painters() {
    let reports = vec![
        MemoryReport { fonts: 1, images: 20, display_list: 300 },
        MemoryReport { fonts: 4, images: 50, display_list: 600 },
    ];
    let scroll_trees = vec![7, 8];
    assert!(memory_totals_fit(&reports, &scroll_trees));
    let paint = paint_with(&[1, 2]);
    let lines = paint.collect_memory_report(&reports, &scroll_trees);
    assert_eq!(lines.len(), 4);
    assert_eq!(line(&lines[0]), (vec!["webrender", "fonts"], 5));
    assert_eq!(line(&lines[1]), (vec!["webrender", "images"], 70));
    assert_eq!(line(&lines[2]), (vec!["webrender", "display-list"], 900));
    assert_eq!(line(&lines[3]), (vec!["paint", "scroll-tree"], 15));
}

#[test]
fn memory_of_no_painter_is_nothing() {
    let lines = paint_with(&[]).collect_memory_report(&vec![], &vec![]);
    assert!(lines.iter().all(|l| l.size == 0));
}

#[test]
fn memory_that_cannot_be_counted_is_noticed() {
    let most = MemoryReport { fonts: usize::MAX, images: 0, display_list: 0 };
    let one = MemoryReport { fonts: 1, images: 0, display_list: 0 };
    assert!(memory_totals_fit(&vec![most], &vec![]));
    assert!(!memory_totals_fit(&vec![most, one], &vec![]));
    assert!(!memory_totals_fit(&vec![], &vec![usize::MAX, 1]));
}

#[test]
fn a_memory_request_is_passed_on() {
    let paint = paint_with(&[1]);
    let message: Message = PaintMessage::CollectMemoryReport("r");
    assert_eq!(
        paint.handle_browser_message(&running(), message, 10),
        vec![PaintCommand::CollectMemoryReport { reply: "r" }]
    );
}

#[test]
fn keys_of_another_painter_are_noticed() {
    let message: Message = PaintMessage::AddFont {
        painter_id: PainterId(1),
        font_key: FontKey { namespace: 2, key: 1 },
        data: "d",
        index: 0,
    };
    assert!(!message.has_own_keys());
    let message: Message = PaintMessage::AddFontInstance {
        painter_id: PainterId(1),
        font_instance_key: FontInstanceKey { namespace: 2, key: 1 },
        font_key: FontKey { namespace: 1, key: 1 },
        size: "s",
        flags: "f",
        variations: "v",
    };
    assert!(!message.has_own_keys());
}

#[test]
fn reasons_to_repaint_add_up() {
    let mut reasons = RepaintReason::default();
    assert!(reasons.is_empty());
    reasons.insert(RepaintReason::resize());
    reasons.insert(RepaintReason::blinking_caret());
    assert_eq!(reasons.bits(), 40);
    assert!(reasons.contains(RepaintReason::resize()));
    assert!(!reasons.contains(RepaintReason::started_flinging()));
    let all = [
        RepaintReason::ready_for_screenshot(),
        RepaintReason::changed_animation_state(),
        RepaintReason::new_web_render_frame(),
        RepaintReason::resize(),
        RepaintReason::started_flinging(),
        RepaintReason::blinking_caret(),
    ];
    for (i, reason) in all.iter().enumerate() {
        assert_eq!(reason.bits(), 1 << i);
        reasons.insert(*reason);
    }
    assert_eq!(reasons.bits(), 63);
}

#[test]
fn the_last_steps_come_in_order() {
    let paint = paint_with(&[]);
    let mut step = paint.finish_shutting_down(None);
    let mut steps = vec![step];
    for came_off in [true, false, false, true, true, true] {
        step = paint.finish_shutting_down(Some((step, came_off)));
        steps.push(step);
    }
    assert_eq!(
        steps,
        vec![
            FinishStep::DropMessage,
            FinishStep::DropMessage,
            FinishStep::ExitWebGl,
            FinishStep::WarnAboutWebGl,
            FinishStep::OpenProfilerReply,
            FinishStep::ExitTimeProfiler,
            FinishStep::Finished
        ]
    );
    assert_eq!(
        paint.finish_shutting_down(Some((FinishStep::ExitWebGl, true))),
        FinishStep::OpenProfilerReply
    );
    assert_eq!(
        paint.finish_shutting_down(Some((FinishStep::OpenProfilerReply, false))),
        FinishStep::Finished
    );
}

#[test]
fn the_shutdown_state_is_shared() {
    let mut states = running();
    let other = states.share(ShutdownState::NotShuttingDown);
    let paint = paint_with(&[]);
    states.set(other, ShutdownState::FinishedShuttingDown);
    assert_eq!(paint.shutdown_state(&states), ShutdownState::NotShuttingDown);
    states.set(0, ShutdownState::ShuttingDown);
    assert_eq!(paint.shutdown_state(&states), ShutdownState::ShuttingDown);
    states.set(0, ShutdownState::FinishedShuttingDown);
    assert_eq!(paint.shutdown_state(&states), ShutdownState::FinishedShuttingDown);
    assert_eq!(states.get(other), ShutdownState::FinishedShuttingDown);
    assert!(states.contains(other));
    assert!(!states.contains(2));
}
