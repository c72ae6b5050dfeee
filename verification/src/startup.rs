//! How the browser comes up: whom it takes its settings from, and what it starts
//! in which order.
use url::Url;
use vstd::prelude::*;

use crate::ids::DocumentId;
use crate::messages::{ToControllerMessage, ToVersoMessage, VersoviewSettings};

verus! {

/// Where the settings come from.
#[derive(Debug)]
pub enum ConfigSource {
    /// From the host: connect to the channel of this name, send
    /// [`first_message`] on it, and take them from the message that comes back
    /// ([`initial_settings`]).
    Controller(String),
    /// From the command line.
    CommandLine,
}

/// Decides where the settings come from: from the host if the command line names
/// the channel of one.
pub fn try_connect_ipc_and_get_config(ipc_channel: Option<String>) -> (r: ConfigSource)
    ensures
        r == (match ipc_channel {
            Some(name) => ConfigSource::Controller(name),
            None => ConfigSource::CommandLine,
        }),
{
    match ipc_channel {
        Some(name) => ConfigSource::Controller(name),
        None => ConfigSource::CommandLine,
    }
}

/// The first message to the host: how to reach the browser.
pub fn first_message<S>(sender: S) -> (r: ToControllerMessage<S>)
    ensures
        r == ToControllerMessage::SetToVersoSender(sender),
{
    ToControllerMessage::SetToVersoSender(sender)
}

/// The settings that a host's first message brings, if it is one to begin with.
pub open spec fn settings_in<A>(message: ToVersoMessage<A>) -> Option<VersoviewSettings<A>> {
    match message {
        ToVersoMessage::SetConfig(settings) => Some(settings),
        _ => None,
    }
}

/// Whether a host's first message is one to begin with: it brings settings.
pub fn brings_settings<A>(message: &ToVersoMessage<A>) -> (r: bool)
    ensures
        r == (settings_in(*message) is Some),
{
    match message {
        ToVersoMessage::SetConfig(_) => true,
        _ => false,
    }
}

/// The settings in the first message from the host, which must bring them
/// ([`brings_settings`]).
pub fn initial_settings<A>(message: ToVersoMessage<A>) -> (r: VersoviewSettings<A>)
    requires
        settings_in(message) is Some,
    ensures
        settings_in(message) == Some(r),
{
    let settings = match message {
        ToVersoMessage::SetConfig(settings) => Some(settings),
        _ => None,
    };
    settings.unwrap()
}

/// What wakes the event loop.
#[derive(Debug)]
pub enum EventLoopProxyMessage<A> {
    /// The engine has something to say.
    Wake,
    /// The host has sent a message.
    IpcMessage(Box<ToVersoMessage<A>>),
}

/// The event for a message from the host.
pub fn forward_message<A>(message: ToVersoMessage<A>) -> (r: EventLoopProxyMessage<A>)
    ensures
        r == EventLoopProxyMessage::IpcMessage(Box::new(message)),
{
    EventLoopProxyMessage::IpcMessage(Box::new(message))
}

/// The event for the loss of the connection to the host: as if it had sent an exit.
pub fn connection_lost<A>() -> (r: EventLoopProxyMessage<A>)
    ensures
        r == EventLoopProxyMessage::IpcMessage(Box::new(ToVersoMessage::<A>::Exit)),
{
    forward_message(ToVersoMessage::Exit)
}

/// A message to the compositor.
#[derive(Clone, Copy, Debug, PartialEq, Eq, Structural)]
pub enum CompositorMsg {
    /// A frame of the document is ready, to be rendered or not.
    NewWebRenderFrameReady(DocumentId, bool),
}

/// Tells the compositor of the renderer's frames, by way of `P`.
pub struct RenderNotifier<P> {
    pub compositor_proxy: P,
}

impl<P> RenderNotifier<P> {
    pub fn new(compositor_proxy: P) -> (r: Self)
        ensures
            r.compositor_proxy == compositor_proxy,
    {
        RenderNotifier { compositor_proxy }
    }

    /// What to send, and on what, when a frame is ready.
    pub fn new_frame_ready(&self, document: DocumentId, render: bool) -> (r: (&P, CompositorMsg))
        ensures
            *r.0 == self.compositor_proxy,
            r.1 == CompositorMsg::NewWebRenderFrameReady(document, render),
    {
        (&self.compositor_proxy, CompositorMsg::NewWebRenderFrameReady(document, render))
    }
}

/// What of the settings, the options and the preferences decides how the browser
/// comes up.
#[derive(Debug)]
pub struct StartupOptions {
    /// The address to begin with.
    pub url: Url,
    /// Whether the window has a panel with controls.
    pub with_panel: bool,
    /// The zoom level by the bits of its float.
    pub zoom_level: Option<u32>,
    /// How many user scripts there are.
    pub user_scripts: usize,
    pub devtools_server_enabled: bool,
    pub devtools_server_port: i64,
    pub webdriver_port: Option<u16>,
    pub multiprocess: bool,
    pub disable_share_style_cache: bool,
    pub dump_style_statistics: bool,
    pub nonincremental_layout: bool,
    pub webrender_stats: bool,
    pub precache_shaders: bool,
    pub text_antialiasing: bool,
    pub subpixel_text_antialiasing: bool,
    pub texture_swizzling: bool,
}

/// Something to be set up or started.
#[derive(Debug)]
pub enum StartupStep {
    /// Put the settings into force.
    InitConfig,
    /// Reserve the namespace of this number for web views.
    InstallPipelineNamespace(u32),
    OpenWindow,
    SetStyleFlags {
        disable_style_sharing_cache: bool,
        dump_style_statistics: bool,
        nonincremental_layout: bool,
    },
    /// Media, with a backend that plays nothing.
    InitMedia,
    StartTimeProfiler,
    StartMemoryProfiler,
    CreateCompositorChannel,
    CreateEmbedderChannel,
    /// A server for developer tools, on this port.
    StartDevtools(u16),
    StartWebrender {
        profiler_dbg: bool,
        precache_full_compile: bool,
        enable_aa: bool,
        enable_subpixel_aa: bool,
        allow_texture_swizzling: bool,
    },
    /// A document for the window, under [`crate::ids::document_number`].
    AddDocument,
    /// The script engine, in this process.
    InitScriptEngine,
    HandleWebgpuImages,
    StartBluetooth,
    StartResourceThreads,
    StartFontCache,
    StartCanvas,
    /// Add the user script of this index.
    AddUserScript(usize),
    StartConstellation,
    StartWebdriver(u16),
    CreateCompositor,
    /// Zoom to the level of these float bits.
    Zoom(u32),
    CreatePanel(Url),
    CreateTab(Url),
    OpenClipboard,
    SetUpLogging,
}

/// `step`, if it is wanted.
pub open spec fn wanted(condition: bool, step: StartupStep) -> Seq<StartupStep> {
    if condition {
        seq![step]
    } else {
        seq![]
    }
}

/// The port that the preference stands for: its low sixteen bits.
pub open spec fn devtools_port(preference: i64) -> u16 {
    (preference as int % 0x1_0000) as u16
}

/// The user scripts from 0 up to `n`, in order.
pub open spec fn user_script_steps(n: int) -> Seq<StartupStep> {
    Seq::new(n as nat, |i: int| StartupStep::AddUserScript(i as usize))
}

/// What comes first. The options and the preferences are those that hold after it.
pub open spec fn preparation() -> Seq<StartupStep> {
    seq![
        StartupStep::InitConfig,
        StartupStep::InstallPipelineNamespace(0),
        StartupStep::OpenWindow,
    ]
}

/// What comes after the preparation and before the devtools.
pub open spec fn groundwork(options: StartupOptions) -> Seq<StartupStep> {
    seq![
        StartupStep::SetStyleFlags {
            disable_style_sharing_cache: options.disable_share_style_cache,
            dump_style_statistics: options.dump_style_statistics,
            nonincremental_layout: options.nonincremental_layout,
        },
        StartupStep::InitMedia,
        StartupStep::StartTimeProfiler,
        StartupStep::StartMemoryProfiler,
        StartupStep::CreateCompositorChannel,
        StartupStep::CreateEmbedderChannel,
    ]
}

/// The renderer and the window's document.
pub open spec fn rendering(options: StartupOptions) -> Seq<StartupStep> {
    seq![
        StartupStep::StartWebrender {
            profiler_dbg: options.webrender_stats,
            precache_full_compile: options.precache_shaders,
            enable_aa: options.text_antialiasing,
            enable_subpixel_aa: options.subpixel_text_antialiasing,
            allow_texture_swizzling: options.texture_swizzling,
        },
        StartupStep::AddDocument,
    ]
}

/// The threads that the constellation needs.
pub open spec fn services() -> Seq<StartupStep> {
    seq![
        StartupStep::HandleWebgpuImages,
        StartupStep::StartBluetooth,
        StartupStep::StartResourceThreads,
        StartupStep::StartFontCache,
        StartupStep::StartCanvas,
    ]
}

/// The constellation, what drives it from outside, and the compositor.
pub open spec fn engine(options: StartupOptions) -> Seq<StartupStep> {
    seq![StartupStep::StartConstellation] + wanted(
        options.webdriver_port is Some,
        StartupStep::StartWebdriver(options.webdriver_port->0),
    ) + seq![StartupStep::CreateCompositor] + wanted(
        options.zoom_level is Some,
        StartupStep::Zoom(options.zoom_level->0),
    )
}

/// The first web view, a panel or a tab, and what is left.
pub open spec fn first_view(options: StartupOptions) -> Seq<StartupStep> {
    seq![
        if options.with_panel {
            StartupStep::CreatePanel(options.url)
        } else {
            StartupStep::CreateTab(options.url)
        },
        StartupStep::OpenClipboard,
        StartupStep::SetUpLogging,
    ]
}

/// Everything that is set up or started, in order.
pub open spec fn startup_steps(options: StartupOptions) -> Seq<StartupStep> {
    preparation() + prepared_steps(options)
}

/// Everything that is set up or started after the preparation, in order.
pub open spec fn prepared_steps(options: StartupOptions) -> Seq<StartupStep> {
    groundwork(options) + wanted(
        options.devtools_server_enabled,
        StartupStep::StartDevtools(devtools_port(options.devtools_server_port)),
    ) + rendering(options) + wanted(!options.multiprocess, StartupStep::InitScriptEngine)
        + services() + user_script_steps(options.user_scripts as int) + engine(options)
        + first_view(options)
}

/// Plans what comes first, whatever the options will be.
pub fn plan_preparation() -> (r: Vec<StartupStep>)
    ensures
        r@ == preparation(),
{
    let mut plan: Vec<StartupStep> = Vec::new();
    plan.push(StartupStep::InitConfig);
    plan.push(StartupStep::InstallPipelineNamespace(0));
    plan.push(StartupStep::OpenWindow);
    plan
}

/// Plans how the browser comes up, once what comes first has been done. The options
/// are to be read after that: it puts the settings into force.
pub fn plan_startup(options: &StartupOptions) -> (r: Vec<StartupStep>)
    ensures
        r@ == prepared_steps(*options),
        preparation() + r@ == startup_steps(*options),
{
    let mut plan: Vec<StartupStep> = Vec::new();
    add_groundwork(&mut plan, options);
    assert(plan@ =~= groundwork(*options));
    if options.devtools_server_enabled {
        let port = options.devtools_server_port;
        proof {
            lemma_port_bits(port);
        }
        let port: u16 = #[verifier::truncate]
        (port as u16);
        plan.push(StartupStep::StartDevtools(port));
    }
    assert(plan@ =~= groundwork(*options) + wanted(
        options.devtools_server_enabled,
        StartupStep::StartDevtools(devtools_port(options.devtools_server_port)),
    ));
    let ghost before = plan@;
    add_rendering(&mut plan, options);
    if !options.multiprocess {
        plan.push(StartupStep::InitScriptEngine);
    }
    assert(plan@ =~= before + rendering(*options) + wanted(
        !options.multiprocess,
        StartupStep::InitScriptEngine,
    ));
    add_services(&mut plan);
    add_user_scripts(&mut plan, options.user_scripts);
    add_engine(&mut plan, options);
    add_first_view(&mut plan, options);
    plan
}

fn add_groundwork(plan: &mut Vec<StartupStep>, options: &StartupOptions)
    ensures
        final(plan)@ == old(plan)@ + groundwork(*options),
{
    plan.push(
        StartupStep::SetStyleFlags {
            disable_style_sharing_cache: options.disable_share_style_cache,
            dump_style_statistics: options.dump_style_statistics,
            nonincremental_layout: options.nonincremental_layout,
        },
    );
    plan.push(StartupStep::InitMedia);
    plan.push(StartupStep::StartTimeProfiler);
    plan.push(StartupStep::StartMemoryProfiler);
    plan.push(StartupStep::CreateCompositorChannel);
    plan.push(StartupStep::CreateEmbedderChannel);
}

fn add_rendering(plan: &mut Vec<StartupStep>, options: &StartupOptions)
    ensures
        final(plan)@ == old(plan)@ + rendering(*options),
{
    plan.push(
        StartupStep::StartWebrender {
            profiler_dbg: options.webrender_stats,
            precache_full_compile: options.precache_shaders,
            enable_aa: options.text_antialiasing,
            enable_subpixel_aa: options.subpixel_text_antialiasing,
            allow_texture_swizzling: options.texture_swizzling,
        },
    );
    plan.push(StartupStep::AddDocument);
}

fn add_services(plan: &mut Vec<StartupStep>)
    ensures
        final(plan)@ == old(plan)@ + services(),
{
    plan.push(StartupStep::HandleWebgpuImages);
    plan.push(StartupStep::StartBluetooth);
    plan.push(StartupStep::StartResourceThreads);
    plan.push(StartupStep::StartFontCache);
    plan.push(StartupStep::StartCanvas);
}

fn add_user_scripts(plan: &mut Vec<StartupStep>, count: usize)
    ensures
        final(plan)@ == old(plan)@ + user_script_steps(count as int),
{
    let mut i: usize = 0;
    while i < count
        invariant
            i <= count,
            plan@ == old(plan)@ + user_script_steps(i as int),
        decreases count - i,
    {
        plan.push(StartupStep::AddUserScript(i));
        i = i + 1;
    }
}

fn add_engine(plan: &mut Vec<StartupStep>, options: &StartupOptions)
    ensures
        final(plan)@ == old(plan)@ + engine(*options),
{
    plan.push(StartupStep::StartConstellation);
    if let Some(port) = options.webdriver_port {
        plan.push(StartupStep::StartWebdriver(port));
    }
    plan.push(StartupStep::CreateCompositor);
    if let Some(zoom_level) = options.zoom_level {
        plan.push(StartupStep::Zoom(zoom_level));
    }
}

fn add_first_view(plan: &mut Vec<StartupStep>, options: &StartupOptions)
    ensures
        final(plan)@ == old(plan)@ + first_view(*options),
{
    if options.with_panel {
        plan.push(StartupStep::CreatePanel(options.url.clone()));
    } else {
        plan.push(StartupStep::CreateTab(options.url.clone()));
    }
    plan.push(StartupStep::OpenClipboard);
    plan.push(StartupStep::SetUpLogging);
}

/// Cutting a number down to sixteen bits leaves its remainder by their count.
proof fn lemma_port_bits(port: i64)
    ensures
        port as u16 == port as int % 0x1_0000,
{
    assert(port as u16 == ((port as u64) % 0x1_0000) as u16) by (bit_vector);
    assert(port >= 0 ==> port as u64 == port);
    assert(port < 0 ==> port as u64 == port + 0x1_0000_0000_0000_0000) by (bit_vector);
}

} // verus!
