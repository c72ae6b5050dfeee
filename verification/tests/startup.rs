use url::Url;
use verso::controller::{Handles, VersoviewController};
use verso::ids::DocumentId;
use verso::messages::{ToControllerMessage, ToVersoMessage};
use verso::startup::{
    brings_settings, connection_lost, first_message, forward_message, initial_settings,
    plan_preparation, plan_startup, try_connect_ipc_and_get_config, CompositorMsg, ConfigSource,
    EventLoopProxyMessage, RenderNotifier, StartupOptions, StartupStep,
};

struct Plain;

impl Handles for Plain {
    type Attributes = u8;
    type Sender = u8;
    type CloseCallback = ();
    type NavigationCallback = ();
    type WebResourceCallback = ();
    type TitleWaiter = ();
    type SizeWaiter = ();
    type PositionWaiter = ();
    type FlagWaiter = ();
    type ScaleFactorWaiter = ();
    type ThemeWaiter = ();
    type UrlWaiter = ();
}

fn options() -> StartupOptions {
    StartupOptions {
        url: Url::parse("https://start.example/").unwrap(),
        with_panel: false,
        zoom_level: None,
        user_scripts: 0,
        devtools_server_enabled: false,
        devtools_server_port: 6080,
        webdriver_port: None,
        multiprocess: false,
        disable_share_style_cache: true,
        dump_style_statistics: false,
        nonincremental_layout: true,
        webrender_stats: true,
        precache_shaders: false,
        text_antialiasing: true,
        subpixel_text_antialiasing: false,
        texture_swizzling: true,
    }
}

fn devtools(plan: &[StartupStep]) -> Option<u16> {
    let mut found = None;
    for step in plan {
        if let StartupStep::StartDevtools(port) = step {
            found = Some(*port);
        }
    }
    found
}

#[test]
fn settings_come_from_the_host_if_it_has_a_channel() {
    assert!(matches!(
        try_connect_ipc_and_get_config(Some("chan".to_string())),
        ConfigSource::Controller(name) if name == "chan"
    ));
    assert!(matches!(try_connect_ipc_and_get_config(None), ConfigSource::CommandLine));
}

#[test]
fn first_messages_meet() {
    let url = Url::parse("https://given.example/").unwrap();
    let (_, sender, first) =
        VersoviewController::<Plain>::new(url.clone(), 3, first_message(8u8));
    assert_eq!(sender, 8);
    assert!(brings_settings(&first));
    let settings = initial_settings(first);
    assert_eq!(settings.url, Some(url));
    assert_eq!(settings.attributes, 3);
}

#[test]
fn other_first_messages_bring_no_settings() {
    assert!(!brings_settings(&ToVersoMessage::<u8>::Exit));
    assert!(!brings_settings(&ToVersoMessage::<u8>::GetTitle(1)));
    assert!(matches!(first_message(4u8), ToControllerMessage::SetToVersoSender(4)));
}

#[test]
fn lost_connection_counts_as_exit() {
    match connection_lost::<u8>() {
        EventLoopProxyMessage::IpcMessage(message) => {
            assert!(matches!(*message, ToVersoMessage::Exit))
        }
        EventLoopProxyMessage::Wake => panic!("no message"),
    }
    match forward_message(ToVersoMessage::<u8>::Reload) {
        EventLoopProxyMessage::IpcMessage(message) => {
            assert!(matches!(*message, ToVersoMessage::Reload))
        }
        EventLoopProxyMessage::Wake => panic!("no message"),
    }
}

#[test]
fn frames_are_announced() {
    let notifier = RenderNotifier::new("proxy");
    let document = DocumentId { namespace: 1, id: 2 };
    let (proxy, message) = notifier.new_frame_ready(document, true);
    assert_eq!(*proxy, "proxy");
    assert_eq!(message, CompositorMsg::NewWebRenderFrameReady(document, true));
}

#[test]
fn plain_plan_in_order() {
    let mut plan = plan_preparation();
    assert_eq!(plan.len(), 3);
    plan.extend(plan_startup(&options()));
    assert_eq!(plan.len(), 22);
    assert!(matches!(plan[0], StartupStep::InitConfig));
    assert!(matches!(plan[1], StartupStep::InstallPipelineNamespace(0)));
    assert!(matches!(plan[2], StartupStep::OpenWindow));
    assert!(matches!(
        plan[3],
        StartupStep::SetStyleFlags {
            disable_style_sharing_cache: true,
            dump_style_statistics: false,
            nonincremental_layout: true,
        }
    ));
    assert!(matches!(plan[4], StartupStep::InitMedia));
    assert!(matches!(plan[5], StartupStep::StartTimeProfiler));
    assert!(matches!(plan[6], StartupStep::StartMemoryProfiler));
    assert!(matches!(plan[7], StartupStep::CreateCompositorChannel));
    assert!(matches!(plan[8], StartupStep::CreateEmbedderChannel));
    assert!(matches!(
        plan[9],
        StartupStep::StartWebrender {
            profiler_dbg: true,
            precache_full_compile: false,
            enable_aa: true,
            enable_subpixel_aa: false,
            allow_texture_swizzling: true,
        }
    ));
    assert!(matches!(plan[10], StartupStep::AddDocument));
    assert!(matches!(plan[11], StartupStep::InitScriptEngine));
    assert!(matches!(plan[12], StartupStep::HandleWebgpuImages));
    assert!(matches!(plan[13], StartupStep::StartBluetooth));
    assert!(matches!(plan[14], StartupStep::StartResourceThreads));
    assert!(matches!(plan[15], StartupStep::StartFontCache));
    assert!(matches!(plan[16], StartupStep::StartCanvas));
    assert!(matches!(plan[17], StartupStep::StartConstellation));
    assert!(matches!(plan[18], StartupStep::CreateCompositor));
    assert!(matches!(
        &plan[19],
        StartupStep::CreateTab(u) if u.as_str() == "https://start.example/"
    ));
    assert!(matches!(plan[20], StartupStep::OpenClipboard));
    assert!(matches!(plan[21], StartupStep::SetUpLogging));
}

#[test]
fn full_plan() {
    let mut plan = plan_preparation();
    plan.extend(plan_startup(&StartupOptions {
        with_panel: true,
        zoom_level: Some(1.5f32.to_bits()),
        user_scripts: 2,
        devtools_server_enabled: true,
        webdriver_port: Some(7000),
        multiprocess: true,
        ..options()
    }));
    assert_eq!(plan.len(), 26);
    assert!(matches!(plan[9], StartupStep::StartDevtools(6080)));
    assert!(matches!(plan[17], StartupStep::AddUserScript(0)));
    assert!(matches!(plan[18], StartupStep::AddUserScript(1)));
    assert!(matches!(plan[19], StartupStep::StartConstellation));
    assert!(matches!(plan[20], StartupStep::StartWebdriver(7000)));
    assert!(matches!(plan[21], StartupStep::CreateCompositor));
    assert!(matches!(plan[22], StartupStep::Zoom(z) if f32::from_bits(z) == 1.5));
    assert!(matches!(plan[23], StartupStep::CreatePanel(_)));
    assert!(!plan.iter().any(|s| matches!(s, StartupStep::InitScriptEngine)));
}

#[test]
fn devtools_port_is_cut_to_sixteen_bits() {
    let enabled = |port: i64| StartupOptions {
        devtools_server_enabled: true,
        devtools_server_port: port,
        ..options()
    };
    assert_eq!(devtools(&plan_startup(&options())), None);
    assert_eq!(devtools(&plan_startup(&enabled(0))), Some(0));
    assert_eq!(devtools(&plan_startup(&enabled(65536 + 80))), Some(80));
    assert_eq!(devtools(&plan_startup(&enabled(-1))), Some(65535));
}
