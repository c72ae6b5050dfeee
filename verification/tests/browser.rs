use dpi::{PhysicalPosition, PhysicalSize, Position, Size};
use url::Url;
use verso::embedder::{get_embedder_message_webview_id, EmbedderMsg};
use verso::ids::{document_number, DocumentId, PipelineId, WebViewId};
use verso::messages::{
    PositionType, SizeType, Theme, ToControllerMessage, ToVersoMessage, VersoviewSettings,
    WebResourceRequestResponse, WebResponse, WindowLevel,
};
use verso::servo_messages::{ControlFlow, ServoStep};
use verso::verso::{CompositorReport, CompositorStatus, ShutdownState, Verso};
use verso::webview_messages::{
    answer_query, ConstellationMsg, Fullscreen, WebviewStep, WindowCommand, WindowFact, WindowQuery,
};
use verso::window::{Tab, WebResourceReply, WebResourceResponseMsg, Window};
use verso::window_events::{Platform, RedrawStep, WindowEvent, WindowEventStep};

type Message = ToVersoMessage<()>;
type Step = WebviewStep<&'static str, ()>;

const PAGE: WebViewId = WebViewId { namespace: 1, index: 10 };
const PANEL: WebViewId = WebViewId { namespace: 1, index: 11 };
const STRANGER: WebViewId = WebViewId { namespace: 2, index: 10 };
const DOCUMENT: DocumentId = DocumentId { namespace: 3, id: 42 };

fn address(s: &str) -> Url {
    Url::parse(s).unwrap()
}

fn status() -> CompositorStatus {
    CompositorStatus {
        shutdown_state: ShutdownState::NotShuttingDown,
        is_animating: false,
        needs_repaint: false,
        current_window: 42,
    }
}

fn finished() -> CompositorStatus {
    CompositorStatus { shutdown_state: ShutdownState::FinishedShuttingDown, ..status() }
}

fn report(status: CompositorStatus) -> CompositorReport {
    CompositorReport { status, closed: Vec::new() }
}

fn tab() -> Tab {
    Tab {
        id: PAGE,
        history: vec![address("https://one.example/"), address("https://two.example/")],
        current_idx: 1,
    }
}

fn browser() -> Verso<&'static str> {
    let window = Window::new(vec![PAGE, PANEL], Some(tab()));
    Verso::new(42, window, DOCUMENT, status(), true, address("https://start.example/"))
}

fn send(verso: &mut Verso<&'static str>, message: Message) -> Step {
    verso.handle_incoming_webview_message(message)
}

#[test]
fn webview_of_a_message() {
    assert_eq!(get_embedder_message_webview_id(&EmbedderMsg::Status(PAGE)), Some(PAGE));
    assert_eq!(get_embedder_message_webview_id(&EmbedderMsg::Panic(PANEL)), Some(PANEL));
    assert_eq!(get_embedder_message_webview_id(&EmbedderMsg::ShowFormControl(PAGE)), Some(PAGE));
    assert_eq!(
        get_embedder_message_webview_id(&EmbedderMsg::WebResourceRequested(Some(PAGE))),
        Some(PAGE)
    );
    assert_eq!(get_embedder_message_webview_id(&EmbedderMsg::WebResourceRequested(None)), None);
    assert_eq!(
        get_embedder_message_webview_id(&EmbedderMsg::ShowNotification(Some(PANEL))),
        Some(PANEL)
    );
    assert_eq!(get_embedder_message_webview_id(&EmbedderMsg::ShowNotification(None)), None);
    assert_eq!(get_embedder_message_webview_id(&EmbedderMsg::WebViewBlurred), None);
    assert_eq!(get_embedder_message_webview_id(&EmbedderMsg::ReportProfile), None);
    assert_eq!(get_embedder_message_webview_id(&EmbedderMsg::OnDevtoolsStarted(Ok(1))), None);
    assert_eq!(
        get_embedder_message_webview_id(&EmbedderMsg::RequestDevtoolsConnection),
        None
    );
    assert_eq!(get_embedder_message_webview_id(&EmbedderMsg::ShutdownComplete), None);
    assert_eq!(
        get_embedder_message_webview_id(&EmbedderMsg::FinishJavaScriptEvaluation),
        None
    );
}

#[test]
fn pipelines_are_two_little_endian_words() {
    let bytes = [0x78, 0x56, 0x34, 0x12, 0x04, 0x03, 0x02, 0x01];
    let id = PipelineId { namespace: 0x1234_5678, index: 0x0102_0304 };
    assert_eq!(PipelineId::decode(&bytes), Some(id));
    let longer = [0x78, 0x56, 0x34, 0x12, 0x04, 0x03, 0x02, 0x01, 0xff];
    assert_eq!(PipelineId::decode(&longer), Some(id));
    assert_eq!(PipelineId::decode(&bytes[..7]), None);
    assert_eq!(PipelineId::decode(&[]), None);
    assert_eq!(PipelineId::decode(&[1, 0, 0, 0, 0, 0, 0, 0]), None);
    let encoded = bincode::serialize(&(7u32, 9u32)).unwrap();
    assert_eq!(PipelineId::decode(&encoded), Some(PipelineId { namespace: 7, index: 9 }));
}

#[test]
fn document_numbers_are_low_halves() {
    assert_eq!(document_number(42), 42);
    assert_eq!(document_number(0x1_0000_0000), 0);
    assert_eq!(document_number(0xffff_ffff_0000_0005), 5);
}

#[test]
fn navigation_goes_to_the_shown_page() {
    let mut v = browser();
    let to = address("https://to.example/");
    assert!(matches!(
        send(&mut v, Message::NavigateTo(to.clone())),
        Step::Constellation(ConstellationMsg::LoadUrl(PAGE, u)) if u == to
    ));
    assert!(matches!(
        send(&mut v, Message::Reload),
        Step::Constellation(ConstellationMsg::Reload(PAGE))
    ));
    assert!(matches!(
        send(&mut v, Message::ExecuteScript("f()".to_string())),
        Step::ExecuteScript(PAGE, s) if s == "f()"
    ));
    v.refresh_window(42, vec![PANEL], None);
    assert!(matches!(send(&mut v, Message::Reload), Step::Nothing));
    assert!(matches!(send(&mut v, Message::NavigateTo(to)), Step::Nothing));
    assert!(matches!(send(&mut v, Message::ExecuteScript(String::new())), Step::Nothing));
}

#[test]
fn navigation_word_reaches_its_pipeline() {
    let mut v = browser();
    let id = vec![1, 0, 0, 0, 2, 1, 0, 0];
    assert!(matches!(
        send(&mut v, Message::OnNavigationStartingResponse(id, false)),
        Step::Constellation(ConstellationMsg::AllowNavigationResponse(
            PipelineId { namespace: 1, index: 0x102 },
            false
        ))
    ));
}

#[test]
fn window_commands() {
    let mut v = browser();
    let size: Size = PhysicalSize::new(8u32, 9u32).into();
    let position: Position = PhysicalPosition::new(1i32, -2i32).into();
    assert!(matches!(
        send(&mut v, Message::SetTitle("x".to_string())),
        Step::Command(42, WindowCommand::SetTitle(t)) if t == "x"
    ));
    assert!(matches!(
        send(&mut v, Message::SetSize(size)),
        Step::Command(42, WindowCommand::RequestInnerSize(s)) if s == size
    ));
    assert!(matches!(
        send(&mut v, Message::SetPosition(position)),
        Step::Command(42, WindowCommand::SetOuterPosition(p)) if p == position
    ));
    assert!(matches!(
        send(&mut v, Message::SetMaximized(true)),
        Step::Command(42, WindowCommand::SetMaximized(true))
    ));
    assert!(matches!(
        send(&mut v, Message::SetMinimized(true)),
        Step::Command(42, WindowCommand::SetMinimized(true))
    ));
    assert!(matches!(
        send(&mut v, Message::SetFullscreen(true)),
        Step::Command(42, WindowCommand::SetFullscreen(Some(Fullscreen::Borderless)))
    ));
    assert!(matches!(
        send(&mut v, Message::SetFullscreen(false)),
        Step::Command(42, WindowCommand::SetFullscreen(None))
    ));
    assert!(matches!(
        send(&mut v, Message::SetVisible(false)),
        Step::Command(42, WindowCommand::SetVisible(false))
    ));
    assert!(matches!(
        send(&mut v, Message::SetWindowLevel(WindowLevel::AlwaysOnBottom)),
        Step::Command(42, WindowCommand::SetWindowLevel(WindowLevel::AlwaysOnBottom))
    ));
    assert!(matches!(
        send(&mut v, Message::SetTheme(None)),
        Step::Command(42, WindowCommand::SetTheme(None))
    ));
    assert!(matches!(
        send(&mut v, Message::StartDragging),
        Step::Command(42, WindowCommand::DragWindow)
    ));
    assert!(matches!(
        send(&mut v, Message::Focus),
        Step::Command(42, WindowCommand::FocusWindow)
    ));
}

#[test]
fn questions_become_queries() {
    let mut v = browser();
    let asked = [
        (Message::GetTitle(5), WindowQuery::Title),
        (Message::GetSize(5, SizeType::Inner), WindowQuery::Size(SizeType::Inner)),
        (Message::GetSize(5, SizeType::Outer), WindowQuery::Size(SizeType::Outer)),
        (
            Message::GetPosition(5, PositionType::Outer),
            WindowQuery::Position(PositionType::Outer),
        ),
        (Message::GetMinimized(5), WindowQuery::Minimized),
        (Message::GetMaximized(5), WindowQuery::Maximized),
        (Message::GetFullscreen(5), WindowQuery::Fullscreen),
        (Message::GetVisible(5), WindowQuery::Visible),
        (Message::GetScaleFactor(5), WindowQuery::ScaleFactor),
        (Message::GetTheme(5), WindowQuery::Theme),
    ];
    for (message, expected) in asked {
        match send(&mut v, message) {
            Step::Query { window, id, query } => assert_eq!((window, id, query), (42, 5, expected)),
            _ => panic!("no query"),
        }
    }
}

#[test]
fn answers_from_facts() {
    type Answer = ToControllerMessage<()>;
    assert!(matches!(
        answer_query(5, WindowFact::Title("t".to_string())),
        Answer::GetTitleResponse(5, t) if t == "t"
    ));
    assert!(matches!(
        answer_query(5, WindowFact::Size(PhysicalSize::new(1, 2))),
        Answer::GetSizeResponse(5, s) if s == PhysicalSize::new(1, 2)
    ));
    assert!(matches!(
        answer_query(5, WindowFact::Position(None)),
        Answer::GetPositionResponse(5, None)
    ));
    assert!(matches!(
        answer_query(5, WindowFact::Minimized(None)),
        Answer::GetMinimizedResponse(5, false)
    ));
    assert!(matches!(
        answer_query(5, WindowFact::Minimized(Some(true))),
        Answer::GetMinimizedResponse(5, true)
    ));
    assert!(matches!(
        answer_query(5, WindowFact::Maximized(true)),
        Answer::GetMaximizedResponse(5, true)
    ));
    assert!(matches!(
        answer_query(5, WindowFact::Fullscreen(Some(Fullscreen::Borderless))),
        Answer::GetFullscreenResponse(5, true)
    ));
    assert!(matches!(
        answer_query(5, WindowFact::Fullscreen(None)),
        Answer::GetFullscreenResponse(5, false)
    ));
    assert!(matches!(
        answer_query(5, WindowFact::Visible(None)),
        Answer::GetVisibleResponse(5, true)
    ));
    assert!(matches!(
        answer_query(5, WindowFact::Visible(Some(false))),
        Answer::GetVisibleResponse(5, false)
    ));
    assert!(matches!(
        answer_query(5, WindowFact::ScaleFactor(2.0f64.to_bits())),
        Answer::GetScaleFactorResponse(5, b) if f64::from_bits(b) == 2.0
    ));
    assert!(matches!(
        answer_query(5, WindowFact::Theme(None)),
        Answer::GetThemeResponse(5, Theme::Light)
    ));
    assert!(matches!(
        answer_query(5, WindowFact::Theme(Some(Theme::Dark))),
        Answer::GetThemeResponse(5, Theme::Dark)
    ));
}

#[test]
fn address_is_that_of_the_history() {
    let mut v = browser();
    assert!(matches!(
        send(&mut v, Message::GetCurrentUrl(6)),
        Step::Controller(ToControllerMessage::GetCurrentUrlResponse(6, u))
            if u.as_str() == "https://two.example/"
    ));
    v.refresh_window(42, vec![PAGE], Some(Tab { current_idx: 0, ..tab() }));
    assert!(matches!(
        send(&mut v, Message::GetCurrentUrl(7)),
        Step::Controller(ToControllerMessage::GetCurrentUrlResponse(7, u))
            if u.as_str() == "https://one.example/"
    ));
}

#[test]
fn settings_are_refused_later() {
    let mut v = browser();
    let settings = VersoviewSettings { url: None, attributes: () };
    assert!(matches!(send(&mut v, Message::SetConfig(settings)), Step::LateConfig));
}

#[test]
fn host_that_listens_hears_of_close_requests() {
    let mut v = browser();
    assert_eq!(
        v.handle_window_event(Platform::Linux, 42, WindowEvent::CloseRequested),
        WindowEventStep::StartShuttingDown
    );
    assert!(matches!(send(&mut v, Message::ListenToOnCloseRequested), Step::Nothing));
    assert_eq!(
        v.handle_window_event(Platform::Linux, 42, WindowEvent::CloseRequested),
        WindowEventStep::ReportCloseRequest
    );
    type V = Verso<&'static str>;
    assert_eq!(
        V::close_request_reported(Platform::Linux, true),
        WindowEventStep::HandleServoMessages
    );
    assert_eq!(
        V::close_request_reported(Platform::Linux, false),
        WindowEventStep::StartShuttingDown
    );
    let window = Window::new(vec![PAGE], Some(tab()));
    let mut v: V =
        Verso::new(42, window, DOCUMENT, status(), false, address("https://start.example/"));
    send(&mut v, Message::ListenToOnCloseRequested);
    assert!(!v.has_controller());
    assert_eq!(
        v.handle_window_event(Platform::Linux, 42, WindowEvent::CloseRequested),
        WindowEventStep::StartShuttingDown
    );
}

#[test]
fn navigation_listening_is_noted() {
    let mut v = browser();
    assert!(matches!(send(&mut v, Message::ListenToOnNavigationStarting), Step::Nothing));
    let listeners = &v.window(42).unwrap().event_listeners;
    assert!(listeners.on_navigation_starting);
    assert!(!listeners.on_close_requested);
    assert!(listeners.on_web_resource_requested.is_none());
}

fn hold(v: &mut Verso<&'static str>, id: u128, sender: &'static str) -> Option<&'static str> {
    let window = v.window_mut(42).unwrap();
    window.hold_request(id, address("https://res.example/x"), sender)
}

fn word(id: u128, response: Option<WebResponse>) -> Message {
    Message::WebResourceRequestResponse(WebResourceRequestResponse { id, response })
}

#[test]
fn intercepted_request_is_answered_once() {
    let mut v = browser();
    assert_eq!(hold(&mut v, 1, "early"), Some("early"));
    assert!(matches!(send(&mut v, word(1, None)), Step::Nothing));
    send(&mut v, Message::ListenToWebResourceRequests);
    assert_eq!(hold(&mut v, 1, "a"), None);
    assert_eq!(hold(&mut v, 2, "b"), None);
    let response = WebResponse {
        status: 203,
        headers: vec![("x-y".to_string(), vec![1, 2])],
        body: vec![7, 8],
    };
    let reply = match send(&mut v, word(1, Some(response))) {
        Step::Reply { sender: "a", reply } => reply,
        _ => panic!("no reply"),
    };
    let (start, rest) = reply.next().unwrap();
    match start {
        WebResourceResponseMsg::Start { url, headers, status } => {
            assert_eq!(url.as_str(), "https://res.example/x");
            assert_eq!(headers, vec![("x-y".to_string(), vec![1, 2])]);
            assert_eq!(status, 203);
        }
        _ => panic!("no start"),
    }
    let (body, rest) = rest.after_send(true).next().unwrap();
    assert!(matches!(body, WebResourceResponseMsg::SendBodyData(b) if b == vec![7, 8]));
    let (end, rest) = rest.after_send(true).next().unwrap();
    assert!(matches!(end, WebResourceResponseMsg::FinishLoad));
    assert!(rest.next().is_none());
    assert!(matches!(send(&mut v, word(1, None)), Step::Nothing));
    let declined = match send(&mut v, word(2, None)) {
        Step::Reply { sender: "b", reply } => reply,
        _ => panic!("no reply"),
    };
    let (only, rest) = declined.next().unwrap();
    assert!(matches!(only, WebResourceResponseMsg::DoNotIntercept));
    assert!(rest.next().is_none());
}

#[test]
fn reply_stops_at_the_first_failure() {
    let response = WebResponse { status: 200, headers: Vec::new(), body: vec![1] };
    let reply = WebResourceReply::new(address("https://r.example/"), Some(response));
    let (_, rest) = reply.next().unwrap();
    assert!(rest.after_send(false).next().is_none());
}

#[test]
fn listening_anew_forgets_what_waited() {
    let mut v = browser();
    send(&mut v, Message::ListenToWebResourceRequests);
    hold(&mut v, 1, "a");
    send(&mut v, Message::ListenToWebResourceRequests);
    assert!(matches!(send(&mut v, word(1, None)), Step::Nothing));
}

#[test]
fn messages_without_windows() {
    let mut v = browser();
    v.observe_report(CompositorReport { status: status(), closed: vec![42] });
    assert!(v.has_no_windows());
    assert!(v.window_ids().is_empty());
    assert!(v.window_mut(42).is_none());
    assert!(v.first_window().is_none());
    assert!(matches!(send(&mut v, Message::GetTitle(1)), Step::Nothing));
    assert!(matches!(send(&mut v, Message::GetCurrentUrl(1)), Step::Nothing));
    assert!(matches!(send(&mut v, Message::SetVisible(true)), Step::Nothing));
    assert!(matches!(send(&mut v, Message::Reload), Step::Nothing));
    assert!(matches!(send(&mut v, Message::ListenToOnCloseRequested), Step::Nothing));
    assert!(matches!(send(&mut v, Message::Exit), Step::StartShuttingDown));
}

#[test]
fn events_are_followed_by_messages_as_the_platform_has_it() {
    type V = Verso<&'static str>;
    let v = browser();
    for platform in [Platform::Linux, Platform::Apple, Platform::Windows] {
        assert_eq!(
            v.handle_window_event(platform, 42, WindowEvent::Resized),
            WindowEventStep::Delegate
        );
    }
    assert_eq!(
        v.handle_window_event(Platform::Other, 42, WindowEvent::Resized),
        WindowEventStep::Done
    );
    let follow = WindowEventStep::HandleServoMessages;
    let done = WindowEventStep::Done;
    assert_eq!(V::event_handled(Platform::Linux, WindowEvent::Resized, true), done);
    assert_eq!(V::event_handled(Platform::Linux, WindowEvent::Other, true), follow);
    assert_eq!(V::event_handled(Platform::Apple, WindowEvent::RedrawRequested, true), done);
    assert_eq!(V::event_handled(Platform::Apple, WindowEvent::RedrawRequested, false), follow);
    assert_eq!(V::event_handled(Platform::Apple, WindowEvent::Resized, true), follow);
    assert_eq!(V::event_handled(Platform::Windows, WindowEvent::Resized, true), follow);
}

#[test]
fn events_on_unknown_windows_are_passed_over() {
    let v = browser();
    assert_eq!(
        v.handle_window_event(Platform::Linux, 43, WindowEvent::CloseRequested),
        WindowEventStep::HandleServoMessages
    );
    assert_eq!(
        v.handle_window_event(Platform::Linux, 43, WindowEvent::Resized),
        WindowEventStep::Done
    );
}

#[test]
fn redraw_of_the_current_window() {
    type V = Verso<&'static str>;
    let mut v = browser();
    assert_eq!(v.request_redraw(), RedrawStep::RequestRedraw(42));
    assert_eq!(V::window_redraw_requested(Some(true)), RedrawStep::Nothing);
    assert_eq!(V::window_redraw_requested(None), RedrawStep::Nothing);
    assert_eq!(V::window_redraw_requested(Some(false)), RedrawStep::HandleServoMessages);
    v.observe_status(CompositorStatus { current_window: 1, ..status() });
    assert_eq!(v.request_redraw(), RedrawStep::HandleServoMessages);
}

#[test]
fn quiet_turn_waits() {
    let mut v = browser();
    assert!(matches!(v.handle_servo_messages(), ServoStep::ReceiveCompositorMessages));
    assert!(matches!(v.compositor_received(report(status())), ServoStep::PollEmbedder));
    assert!(matches!(v.embedder_polled(None), ServoStep::PerformUpdates));
    assert!(matches!(
        v.updates_performed(report(status())),
        ServoStep::SetControlFlow(ControlFlow::Wait)
    ));
    assert!(!v.is_animating());
}

#[test]
fn no_message_is_taken_after_a_finished_shutdown() {
    let mut v = browser();
    assert!(matches!(v.handle_servo_messages(), ServoStep::ReceiveCompositorMessages));
    assert!(matches!(v.compositor_received(report(finished())), ServoStep::PerformUpdates));
    assert!(matches!(v.updates_performed(report(finished())), ServoStep::Exit));
    let mut v = browser();
    let under_way =
        CompositorStatus { shutdown_state: ShutdownState::ShuttingDown, ..status() };
    assert!(matches!(v.compositor_received(report(under_way)), ServoStep::PollEmbedder));
}

#[test]
fn animation_polls_and_repaint_redraws() {
    let mut v = browser();
    let lively = CompositorStatus { is_animating: true, needs_repaint: true, ..status() };
    assert!(matches!(v.updates_performed(report(lively)), ServoStep::RequestRedraw(42)));
    assert!(v.is_animating());
    assert!(matches!(v.redraw_requested(), ServoStep::SetControlFlow(ControlFlow::Poll)));
    let elsewhere = CompositorStatus { current_window: 9, ..lively };
    assert!(matches!(
        v.updates_performed(report(elsewhere)),
        ServoStep::SetControlFlow(ControlFlow::Poll)
    ));
}

#[test]
fn messages_go_to_the_window_that_has_the_webview() {
    let mut v = browser();
    assert!(matches!(
        v.embedder_polled(Some(EmbedderMsg::ChangePageTitle(PANEL))),
        ServoStep::DeliverToWindow { window: 42, webview: PANEL }
    ));
    assert!(matches!(
        v.embedder_polled(Some(EmbedderMsg::ChangePageTitle(STRANGER))),
        ServoStep::PollEmbedder
    ));
    assert!(matches!(
        v.window_handled_message(42, false, status()),
        ServoStep::PollEmbedder
    ));
    match v.window_handled_message(42, true, status()) {
        ServoStep::OpenWindow { opener, url } => {
            assert_eq!(opener, 42);
            assert_eq!(url.as_str(), "https://start.example/");
        }
        _ => panic!("no window"),
    }
    let window = Window::new(vec![STRANGER], None);
    assert!(matches!(
        v.window_opened(42, 50, window, status()),
        ServoStep::PollEmbedder
    ));
    assert_eq!(v.document(50), Some(DOCUMENT));
    assert_eq!(v.document(51), None);
    assert!(matches!(
        v.embedder_polled(Some(EmbedderMsg::ChangePageTitle(STRANGER))),
        ServoStep::DeliverToWindow { window: 50, webview: STRANGER }
    ));
}

#[test]
fn messages_without_a_webview() {
    let mut v = browser();
    assert!(matches!(
        v.embedder_polled(Some(EmbedderMsg::OnDevtoolsStarted(Ok(6000)))),
        ServoStep::ReportDevtools(Ok(6000))
    ));
    assert!(matches!(
        v.embedder_polled(Some(EmbedderMsg::OnDevtoolsStarted(Err(())))),
        ServoStep::ReportDevtools(Err(()))
    ));
    assert!(matches!(v.message_handled(), ServoStep::PollEmbedder));
    assert!(matches!(
        v.embedder_polled(Some(EmbedderMsg::RequestDevtoolsConnection)),
        ServoStep::AllowDevtools
    ));
    assert!(matches!(
        v.embedder_polled(Some(EmbedderMsg::WebViewBlurred)),
        ServoStep::PollEmbedder
    ));
    assert!(matches!(
        v.embedder_polled(Some(EmbedderMsg::ShowNotification(None))),
        ServoStep::PollEmbedder
    ));
    assert!(matches!(
        v.embedder_polled(Some(EmbedderMsg::ShutdownComplete)),
        ServoStep::FinishShuttingDown
    ));
    assert!(matches!(v.shutdown_finished(finished()), ServoStep::PerformUpdates));
}

#[test]
fn finished_shutdown_leaves_for_good() {
    let mut v = browser();
    assert!(matches!(v.updates_performed(report(finished())), ServoStep::Exit));
    assert!(v.compositor().is_none());
    assert!(!v.is_animating());
    assert!(matches!(v.handle_servo_messages(), ServoStep::NoCompositor));
    assert_eq!(v.request_redraw(), RedrawStep::Nothing);
    assert!(matches!(send(&mut v, Message::Exit), Step::Nothing));
    assert_eq!(
        v.handle_window_event(Platform::Linux, 42, WindowEvent::CloseRequested),
        WindowEventStep::HandleServoMessages
    );
}

#[test]
fn last_window_closed_shuts_down() {
    let mut v = browser();
    let closing = CompositorReport { status: status(), closed: vec![7, 42, 42] };
    assert!(matches!(v.updates_performed(closing), ServoStep::StartShuttingDown));
    let under_way =
        CompositorStatus { shutdown_state: ShutdownState::ShuttingDown, ..status() };
    assert!(matches!(
        v.shutdown_started(under_way),
        ServoStep::SetControlFlow(ControlFlow::Wait)
    ));
    assert!(matches!(v.redraw_requested(), ServoStep::StartShuttingDown));
    assert!(matches!(v.shutdown_started(finished()), ServoStep::Exit));
    assert!(v.compositor().is_none());
}

#[test]
fn refresh_keeps_listeners_and_passes_over_strangers() {
    let mut v = browser();
    send(&mut v, Message::ListenToOnCloseRequested);
    v.refresh_window(42, vec![STRANGER], None);
    v.refresh_window(1, vec![PAGE], None);
    assert_eq!(v.window_ids(), vec![42]);
    let window = v.window(42).unwrap();
    assert!(window.has_webview(STRANGER));
    assert!(!window.has_webview(PAGE));
    assert!(window.event_listeners.on_close_requested);
    assert_eq!(v.document(42), Some(DOCUMENT));
}

#[test]
fn message_at_a_chosen_window() {
    let mut v = browser();
    v.window_opened(42, 50, Window::new(vec![STRANGER], None), status());
    let step: Step = v.handle_webview_message_at(Some(50), Message::ListenToOnCloseRequested);
    assert!(matches!(step, Step::Nothing));
    assert!(v.window(50).unwrap().event_listeners.on_close_requested);
    assert!(!v.window(42).unwrap().event_listeners.on_close_requested);
    let step: Step = v.handle_webview_message_at(Some(50), Message::Focus);
    assert!(matches!(step, Step::Command(50, WindowCommand::FocusWindow)));
}

#[test]
fn messages_reach_the_same_window_again() {
    let mut v = browser();
    for id in 100..130 {
        v.window_opened(42, id, Window::new(Vec::new(), None), status());
    }
    v.observe_report(CompositorReport { status: status(), closed: (100..118).collect() });
    let before = v.window_ids();
    assert_eq!(before.len(), 13);
    let first = v.first_window().unwrap();
    for id in before.clone() {
        v.refresh_window(id, vec![STRANGER], None);
        v.handle_webview_message_at::<(), ()>(Some(id), Message::ListenToOnNavigationStarting);
    }
    send(&mut v, Message::ListenToOnCloseRequested);
    send(&mut v, Message::ListenToWebResourceRequests);
    assert_eq!(v.window_ids(), before);
    assert_eq!(v.first_window(), Some(first));
    for id in before {
        let listeners = &v.window(id).unwrap().event_listeners;
        assert_eq!(listeners.on_close_requested, id == first);
        assert_eq!(listeners.on_web_resource_requested.is_some(), id == first);
        assert_eq!(v.document(id), Some(DOCUMENT));
    }
}

#[test]
fn what_can_be_handled() {
    let v = browser();
    let first = v.first_window();
    assert!(v.can_handle_message(first, &Message::GetTitle(1)));
    assert!(v.can_handle_message(first, &Message::GetCurrentUrl(1)));
    let pipeline = Message::OnNavigationStartingResponse(vec![1, 0, 0, 0, 2, 0, 0, 0], true);
    assert!(v.can_handle_message(first, &pipeline));
    let zero = Message::OnNavigationStartingResponse(vec![1, 0, 0, 0, 0, 0, 0, 0], true);
    assert!(!v.can_handle_message(first, &zero));
    let short = Message::OnNavigationStartingResponse(vec![1, 0, 0, 0, 2], true);
    assert!(!v.can_handle_message(first, &short));
    let mut v: Verso<&'static str> = Verso::new(
        42,
        Window::new(vec![PAGE], Some(Tab { current_idx: 2, ..tab() })),
        DOCUMENT,
        status(),
        true,
        address("https://start.example/"),
    );
    assert!(!v.window(42).unwrap().shows_address());
    assert!(!v.can_handle_message(Some(42), &Message::GetCurrentUrl(1)));
    assert!(v.can_handle_message(Some(42), &Message::GetTheme(1)));
    v.refresh_window(42, vec![PAGE], None);
    assert!(!v.can_handle_message(Some(42), &Message::GetCurrentUrl(1)));
    let mut alone: Verso<&'static str> = Verso::new(
        42,
        Window::new(vec![PAGE], Some(tab())),
        DOCUMENT,
        status(),
        false,
        address("https://start.example/"),
    );
    assert!(!alone.can_handle_message(Some(42), &Message::GetVisible(1)));
    assert!(!alone.can_handle_message(Some(42), &Message::GetCurrentUrl(1)));
    assert!(alone.can_handle_message(Some(42), &Message::Focus));
    alone.observe_report(CompositorReport { status: status(), closed: vec![42] });
    assert!(alone.can_handle_message(None, &Message::GetVisible(1)));
    assert!(alone.can_handle_message(None, &Message::GetCurrentUrl(1)));
}
