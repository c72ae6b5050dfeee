use dpi::{PhysicalPosition, PhysicalSize, Position, Size};
use url::Url;
use verso::controller::{
    brings_sender, ipc_channel_argument, navigation_response, web_resource_response,
    ControllerAction, Handles, QuestionKind, ResponseListener, VersoviewController,
};
use verso::messages::{
    PositionType, SizeType, Theme, ToControllerMessage, ToVersoMessage, VersoviewSettings,
    WebResourceRequest, WebResponse, WindowLevel,
};

struct Numbers;

impl Handles for Numbers {
    type Attributes = &'static str;
    type Sender = u8;
    type CloseCallback = u16;
    type NavigationCallback = u16;
    type WebResourceCallback = u16;
    type TitleWaiter = u32;
    type SizeWaiter = u32;
    type PositionWaiter = u32;
    type FlagWaiter = u32;
    type ScaleFactorWaiter = u32;
    type ThemeWaiter = u32;
    type UrlWaiter = u32;
}

type Controller = VersoviewController<Numbers>;

fn address(s: &str) -> Url {
    Url::parse(s).unwrap()
}

fn controller() -> Controller {
    let hello = ToControllerMessage::SetToVersoSender(7u8);
    Controller::new(address("https://example.com/"), "plain", hello).0
}

#[test]
fn created_from_the_sender_with_the_settings() {
    let settings = VersoviewSettings {
        url: Some(address("https://old.example/")),
        attributes: "wide",
    };
    let (c, sender, first) = Controller::create(
        address("https://new.example/"),
        settings,
        ToControllerMessage::SetToVersoSender(9u8),
    );
    assert_eq!(sender, 9);
    match first {
        ToVersoMessage::SetConfig(s) => {
            assert_eq!(s.url, Some(address("https://new.example/")));
            assert_eq!(s.attributes, "wide");
        }
        _ => panic!("not the settings"),
    }
    assert!(c.event_listeners.on_close_requested.is_none());
    assert!(c.event_listeners.title_response.waiting.is_empty());
}

#[test]
fn new_uses_the_default_attributes() {
    let (_, sender, first) = Controller::new(
        address("https://example.com/"),
        "default",
        ToControllerMessage::SetToVersoSender(1u8),
    );
    assert_eq!(sender, 1);
    assert!(matches!(
        first,
        ToVersoMessage::SetConfig(VersoviewSettings { url: Some(_), attributes: "default" })
    ));
}

#[test]
fn only_a_sender_is_a_first_message() {
    assert!(brings_sender(&ToControllerMessage::SetToVersoSender(1u8)));
    assert!(!brings_sender(&ToControllerMessage::<u8>::OnCloseRequested));
    assert!(!brings_sender(&ToControllerMessage::<u8>::GetVisibleResponse(1, true)));
}

#[test]
fn argument_names_the_channel() {
    assert_eq!(ipc_channel_argument("/tmp/rust.XY"), "--ipc-channel=/tmp/rust.XY");
    assert_eq!(ipc_channel_argument(""), "--ipc-channel=");
}

#[test]
fn browser_is_told_once_to_listen() {
    let mut c = controller();
    assert!(matches!(c.on_close_requested(1), Some(ToVersoMessage::ListenToOnCloseRequested)));
    assert!(c.on_close_requested(2).is_none());
    assert!(matches!(
        c.on_navigation_starting(3),
        Some(ToVersoMessage::ListenToOnNavigationStarting)
    ));
    assert!(c.on_navigation_starting(4).is_none());
    assert!(matches!(
        c.on_web_resource_requested(5),
        Some(ToVersoMessage::ListenToWebResourceRequests)
    ));
    assert!(c.on_web_resource_requested(6).is_none());
}

#[test]
fn last_callback_is_called() {
    let mut c = controller();
    assert!(matches!(
        c.handle_message(ToControllerMessage::OnCloseRequested),
        ControllerAction::Nothing
    ));
    c.on_close_requested(1);
    c.on_close_requested(2);
    assert!(matches!(
        c.handle_message(ToControllerMessage::OnCloseRequested),
        ControllerAction::CloseRequested(2)
    ));
    c.on_navigation_starting(3);
    let question =
        ToControllerMessage::OnNavigationStarting(vec![1, 2, 3], address("https://a.example/"));
    match c.handle_message(question) {
        ControllerAction::NavigationStarting(callback, id, url) => {
            assert_eq!((*callback, id, url.as_str()), (3, vec![1, 2, 3], "https://a.example/"));
        }
        _ => panic!("no call"),
    }
    c.on_web_resource_requested(4);
    let request = http::Request::builder().uri("https://b.example/x").body(vec![9u8]).unwrap();
    let message =
        ToControllerMessage::OnWebResourceRequested(WebResourceRequest { id: 77, request });
    match c.handle_message(message) {
        ControllerAction::WebResourceRequested(callback, id, request) => {
            assert_eq!((*callback, id), (4, 77));
            assert_eq!(request.uri(), "https://b.example/x");
            assert_eq!(request.body(), &vec![9u8]);
        }
        _ => panic!("no call"),
    }
}

#[test]
fn nobody_listening_means_nothing_to_do() {
    let c = controller();
    let question =
        ToControllerMessage::OnNavigationStarting(vec![1], address("https://a.example/"));
    assert!(matches!(c.handle_message(question), ControllerAction::Nothing));
    let request = http::Request::builder().uri("/x").body(Vec::new()).unwrap();
    let message =
        ToControllerMessage::OnWebResourceRequested(WebResourceRequest { id: 1, request });
    assert!(matches!(c.handle_message(message), ControllerAction::Nothing));
}

#[test]
fn words_of_the_callbacks() {
    match navigation_response::<()>(vec![1, 2], true) {
        ToVersoMessage::OnNavigationStartingResponse(id, allow) => {
            assert_eq!((id, allow), (vec![1, 2], true));
        }
        _ => panic!("another message"),
    }
    let response = WebResponse { status: 404, headers: Vec::new(), body: vec![1] };
    match web_resource_response::<()>(5, Some(response)) {
        ToVersoMessage::WebResourceRequestResponse(word) => {
            assert_eq!(word.id, 5);
            assert_eq!(word.response.unwrap().status, 404);
        }
        _ => panic!("another message"),
    }
}

#[test]
fn question_names_are_random() {
    let mut c = controller();
    let (a, first) = c.get_title(1);
    let (b, second) = c.get_title(2);
    assert_ne!(a, b);
    assert!(matches!(first, ToVersoMessage::GetTitle(id) if id == a));
    assert!(matches!(second, ToVersoMessage::GetTitle(id) if id == b));
    assert_eq!(a >> 76 & 0xf, 4);
    assert_eq!(a >> 62 & 0x3, 2);
    assert_eq!(uuid::Uuid::from_u128(b).get_version_num(), 4);
}

#[test]
fn answers_reach_who_asked() {
    let mut c = controller();
    let (title, _) = c.get_title(1);
    let (other_title, _) = c.get_title(2);
    let (size, _) = c.get_inner_size(3);
    let (position, _) = c.get_outer_position(4);
    let (scale, _) = c.get_scale_factor(5);
    let (theme, _) = c.get_theme(6);
    let (url, _) = c.get_current_url(7);
    assert!(matches!(
        c.handle_message(ToControllerMessage::GetTitleResponse(title, "T".to_string())),
        ControllerAction::Title(1, t) if t == "T"
    ));
    assert!(matches!(
        c.handle_message(ToControllerMessage::GetTitleResponse(other_title, "U".to_string())),
        ControllerAction::Title(2, t) if t == "U"
    ));
    assert!(matches!(
        c.handle_message(ToControllerMessage::GetSizeResponse(size, PhysicalSize::new(3, 4))),
        ControllerAction::Size(3, s) if s == PhysicalSize::new(3, 4)
    ));
    let at = Some(PhysicalPosition::new(-1, 2));
    assert!(matches!(
        c.handle_message(ToControllerMessage::GetPositionResponse(position, at)),
        ControllerAction::Position(4, p) if p == at
    ));
    assert!(matches!(
        c.handle_message(ToControllerMessage::GetPositionResponse(position, None)),
        ControllerAction::Position(4, None)
    ));
    let bits = 1.25f64.to_bits();
    assert!(matches!(
        c.handle_message(ToControllerMessage::GetScaleFactorResponse(scale, bits)),
        ControllerAction::ScaleFactor(5, b) if f64::from_bits(b) == 1.25
    ));
    assert!(matches!(
        c.handle_message(ToControllerMessage::GetThemeResponse(theme, Theme::Dark)),
        ControllerAction::Theme(6, Theme::Dark)
    ));
    let page = address("https://page.example/");
    assert!(matches!(
        c.handle_message(ToControllerMessage::GetCurrentUrlResponse(url, page.clone())),
        ControllerAction::CurrentUrl(7, u) if u == page
    ));
}

#[test]
fn flags_do_not_mix() {
    let mut c = controller();
    let (maximized, m1) = c.is_maximized(1);
    let (minimized, m2) = c.is_minimized(2);
    let (fullscreen, m3) = c.is_fullscreen(3);
    let (visible, m4) = c.is_visible(4);
    assert!(matches!(m1, ToVersoMessage::GetMaximized(id) if id == maximized));
    assert!(matches!(m2, ToVersoMessage::GetMinimized(id) if id == minimized));
    assert!(matches!(m3, ToVersoMessage::GetFullscreen(id) if id == fullscreen));
    assert!(matches!(m4, ToVersoMessage::GetVisible(id) if id == visible));
    assert!(matches!(
        c.handle_message(ToControllerMessage::GetMaximizedResponse(maximized, true)),
        ControllerAction::Flag(1, true)
    ));
    assert!(matches!(
        c.handle_message(ToControllerMessage::GetMinimizedResponse(minimized, false)),
        ControllerAction::Flag(2, false)
    ));
    assert!(matches!(
        c.handle_message(ToControllerMessage::GetFullscreenResponse(fullscreen, true)),
        ControllerAction::Flag(3, true)
    ));
    assert!(matches!(
        c.handle_message(ToControllerMessage::GetVisibleResponse(visible, false)),
        ControllerAction::Flag(4, false)
    ));
    assert!(matches!(
        c.handle_message(ToControllerMessage::GetVisibleResponse(maximized, false)),
        ControllerAction::Nothing
    ));
}

#[test]
fn answers_may_come_again() {
    let mut c = controller();
    let (id, _) = c.get_theme(6);
    for _ in 0..2 {
        assert!(matches!(
            c.handle_message(ToControllerMessage::GetThemeResponse(id, Theme::Light)),
            ControllerAction::Theme(6, Theme::Light)
        ));
    }
}

#[test]
fn unsent_question_leaves_no_trace() {
    let mut c = controller();
    let (kept, _) = c.get_title(1);
    let (dropped, _) = c.get_title(2);
    c.question_failed(QuestionKind::Title, dropped);
    assert!(matches!(
        c.handle_message(ToControllerMessage::GetTitleResponse(dropped, String::new())),
        ControllerAction::Nothing
    ));
    assert!(matches!(
        c.handle_message(ToControllerMessage::GetTitleResponse(kept, String::new())),
        ControllerAction::Title(1, _)
    ));
}

#[test]
fn failed_questions_keep_to_their_kind() {
    let mut c = controller();
    let l = &mut c.event_listeners;
    l.title_response.register(5, 0);
    l.size_response.register(5, 1);
    l.position_response.register(5, 2);
    l.maximized_response.register(5, 3);
    l.minimized_response.register(5, 4);
    l.fullscreen_response.register(5, 5);
    l.visible_response.register(5, 6);
    l.scale_factor_response.register(5, 7);
    l.theme_response.register(5, 8);
    l.get_url_response.register(5, 9);
    let kinds = [
        QuestionKind::Title,
        QuestionKind::Size,
        QuestionKind::Position,
        QuestionKind::Maximized,
        QuestionKind::Minimized,
        QuestionKind::Fullscreen,
        QuestionKind::Visible,
        QuestionKind::ScaleFactor,
        QuestionKind::Theme,
        QuestionKind::CurrentUrl,
    ];
    for (failed, kind) in kinds.into_iter().enumerate() {
        c.question_failed(kind, 6);
        c.question_failed(kind, 5);
        let l = &c.event_listeners;
        let waiting = [
            l.title_response.waiter(5).is_some(),
            l.size_response.waiter(5).is_some(),
            l.position_response.waiter(5).is_some(),
            l.maximized_response.waiter(5).is_some(),
            l.minimized_response.waiter(5).is_some(),
            l.fullscreen_response.waiter(5).is_some(),
            l.visible_response.waiter(5).is_some(),
            l.scale_factor_response.waiter(5).is_some(),
            l.theme_response.waiter(5).is_some(),
            l.get_url_response.waiter(5).is_some(),
        ];
        for (i, waits) in waiting.into_iter().enumerate() {
            assert_eq!(waits, i > failed);
        }
    }
}

#[test]
fn later_waiter_takes_the_name() {
    let mut listener = ResponseListener::new();
    listener.register(5, 'a');
    listener.register(5, 'b');
    assert_eq!(listener.waiter(5), Some(&'b'));
    assert_eq!(listener.waiter(6), None);
    listener.send_failed(6);
    assert_eq!(listener.waiter(5), Some(&'b'));
    listener.send_failed(5);
    assert_eq!(listener.waiter(5), None);
}

#[test]
fn second_sender_is_refused() {
    let c = controller();
    assert!(matches!(
        c.handle_message(ToControllerMessage::SetToVersoSender(3)),
        ControllerAction::LateSender
    ));
}

#[test]
fn commands_become_messages() {
    let c = controller();
    assert!(matches!(c.exit(), ToVersoMessage::Exit));
    assert!(matches!(c.reload(), ToVersoMessage::Reload));
    assert!(matches!(
        c.execute_script("1+1".to_string()),
        ToVersoMessage::ExecuteScript(s) if s == "1+1"
    ));
    let to = address("https://to.example/");
    assert!(matches!(c.navigate(to.clone()), ToVersoMessage::NavigateTo(u) if u == to));
    assert!(matches!(c.set_title("t".to_string()), ToVersoMessage::SetTitle(t) if t == "t"));
    let size: Size = PhysicalSize::new(10u32, 20u32).into();
    assert!(matches!(c.set_size(size), ToVersoMessage::SetSize(s) if s == size));
    let position: Position = PhysicalPosition::new(-10i32, 20i32).into();
    assert!(matches!(
        c.set_position(position),
        ToVersoMessage::SetPosition(p) if p == position
    ));
    assert!(matches!(c.set_maximized(true), ToVersoMessage::SetMaximized(true)));
    assert!(matches!(c.set_minimized(false), ToVersoMessage::SetMinimized(false)));
    assert!(matches!(c.set_fullscreen(true), ToVersoMessage::SetFullscreen(true)));
    assert!(matches!(c.set_visible(false), ToVersoMessage::SetVisible(false)));
    assert!(matches!(
        c.set_window_level(WindowLevel::AlwaysOnTop),
        ToVersoMessage::SetWindowLevel(WindowLevel::AlwaysOnTop)
    ));
    assert!(matches!(
        c.set_theme(Some(Theme::Dark)),
        ToVersoMessage::SetTheme(Some(Theme::Dark))
    ));
    assert!(matches!(c.start_dragging(), ToVersoMessage::StartDragging));
    assert!(matches!(c.focus(), ToVersoMessage::Focus));
}

#[test]
fn sizes_and_positions_ask_for_their_type() {
    let mut c = controller();
    assert!(matches!(c.get_inner_size(1).1, ToVersoMessage::GetSize(_, SizeType::Inner)));
    assert!(matches!(c.get_outer_size(1).1, ToVersoMessage::GetSize(_, SizeType::Outer)));
    assert!(matches!(
        c.get_inner_position(1).1,
        ToVersoMessage::GetPosition(_, PositionType::Inner)
    ));
    assert!(matches!(
        c.get_outer_position(1).1,
        ToVersoMessage::GetPosition(_, PositionType::Outer)
    ));
    assert_eq!(c.event_listeners.size_response.waiting.len(), 2);
    assert_eq!(c.event_listeners.position_response.waiting.len(), 2);
}
