//! In which order the browser comes up, and with which values.
use vstd::prelude::*;

#[allow(unused_imports)]
use crate::startup::{
    devtools_port, engine, first_view, groundwork, preparation, rendering, services, startup_steps,
    user_script_steps, wanted, StartupOptions, StartupStep,
};

verus! {

/// One if it is so, and else none.
pub open spec fn one_if(condition: bool) -> int {
    if condition {
        1
    } else {
        0
    }
}

/// Where a step stands among all steps, counted from the first: after those before it,
/// of which some are taken only if they are wanted. A step that is not wanted stands
/// nowhere.
pub open spec fn place(options: StartupOptions, step: StartupStep) -> int {
    let devtools = one_if(options.devtools_server_enabled);
    let engine = devtools + one_if(!options.multiprocess);
    let scripts = engine + options.user_scripts;
    let driver = scripts + one_if(options.webdriver_port is Some);
    let zoom = driver + one_if(options.zoom_level is Some);
    match step {
        StartupStep::InitConfig => 0,
        StartupStep::InstallPipelineNamespace(_) => 1,
        StartupStep::OpenWindow => 2,
        StartupStep::SetStyleFlags { .. } => 3,
        StartupStep::InitMedia => 4,
        StartupStep::StartTimeProfiler => 5,
        StartupStep::StartMemoryProfiler => 6,
        StartupStep::CreateCompositorChannel => 7,
        StartupStep::CreateEmbedderChannel => 8,
        StartupStep::StartDevtools(_) => if options.devtools_server_enabled {
            9
        } else {
            -1
        },
        StartupStep::StartWebrender { .. } => 9 + devtools,
        StartupStep::AddDocument => 10 + devtools,
        StartupStep::InitScriptEngine => if options.multiprocess {
            -1
        } else {
            11 + devtools
        },
        StartupStep::HandleWebgpuImages => 11 + engine,
        StartupStep::StartBluetooth => 12 + engine,
        StartupStep::StartResourceThreads => 13 + engine,
        StartupStep::StartFontCache => 14 + engine,
        StartupStep::StartCanvas => 15 + engine,
        StartupStep::AddUserScript(index) => if index < options.user_scripts {
            16 + engine + index
        } else {
            -1
        },
        StartupStep::StartConstellation => 16 + scripts,
        StartupStep::StartWebdriver(_) => if options.webdriver_port is Some {
            17 + scripts
        } else {
            -1
        },
        StartupStep::CreateCompositor => 17 + driver,
        StartupStep::Zoom(_) => if options.zoom_level is Some {
            18 + driver
        } else {
            -1
        },
        StartupStep::CreatePanel(_) => if options.with_panel {
            18 + zoom
        } else {
            -1
        },
        StartupStep::CreateTab(_) => if options.with_panel {
            -1
        } else {
            18 + zoom
        },
        StartupStep::OpenClipboard => 19 + zoom,
        StartupStep::SetUpLogging => 20 + zoom,
    }
}

/// Every step stands in its place, and there are as many steps as places: so each step
/// that is wanted is taken once, in its order, and no other is.
pub proof fn law_every_step_is_in_its_place(options: StartupOptions)
    ensures
        startup_steps(options).len() == 21 + one_if(options.devtools_server_enabled) + one_if(
            !options.multiprocess,
        ) + options.user_scripts + one_if(options.webdriver_port is Some) + one_if(
            options.zoom_level is Some,
        ),
        forall|i: int|
            0 <= i < startup_steps(options).len() ==> #[trigger] place(
                options,
                startup_steps(options)[i],
            ) == i,
{
    assert forall|i: int| 0 <= i < startup_steps(options).len() implies #[trigger] place(
        options,
        startup_steps(options)[i],
    ) == i by {
        lemma_in_place(options, i);
    }
}

/// The step at `i`, by the part of the plan that it is in.
spec fn part_step(options: StartupOptions, i: int) -> StartupStep {
    let devtools = 9 + one_if(options.devtools_server_enabled);
    let renderer = devtools + 2;
    let script_engine = renderer + one_if(!options.multiprocess);
    let threads = script_engine + 5;
    let scripts = threads + options.user_scripts;
    let rest = scripts + engine(options).len();
    if i < 3 {
        preparation()[i]
    } else if i < 9 {
        groundwork(options)[i - 3]
    } else if i < devtools {
        StartupStep::StartDevtools(devtools_port(options.devtools_server_port))
    } else if i < renderer {
        rendering(options)[i - devtools]
    } else if i < script_engine {
        StartupStep::InitScriptEngine
    } else if i < threads {
        services()[i - script_engine]
    } else if i < scripts {
        StartupStep::AddUserScript((i - threads) as usize)
    } else if i < rest {
        engine(options)[i - scripts]
    } else {
        first_view(options)[i - rest]
    }
}

proof fn lemma_parts(options: StartupOptions, i: int)
    requires
        0 <= i < startup_steps(options).len(),
    ensures
        startup_steps(options)[i] == part_step(options, i),
{
    let devtools = wanted(
        options.devtools_server_enabled,
        StartupStep::StartDevtools(devtools_port(options.devtools_server_port)),
    );
    let script_engine = wanted(!options.multiprocess, StartupStep::InitScriptEngine);
    let scripts = user_script_steps(options.user_scripts as int);
    assert(devtools.len() == one_if(options.devtools_server_enabled));
    assert(script_engine.len() == one_if(!options.multiprocess));
    assert(scripts.len() == options.user_scripts);
}

/// The step at `i` of the constellation and what comes with it.
spec fn engine_step(options: StartupOptions, i: int) -> StartupStep {
    let driver = 1 + one_if(options.webdriver_port is Some);
    if i == 0 {
        StartupStep::StartConstellation
    } else if i < driver {
        StartupStep::StartWebdriver(options.webdriver_port->0)
    } else if i == driver {
        StartupStep::CreateCompositor
    } else {
        StartupStep::Zoom(options.zoom_level->0)
    }
}

proof fn lemma_engine(options: StartupOptions, i: int)
    ensures
        engine(options).len() == 2 + one_if(options.webdriver_port is Some) + one_if(
            options.zoom_level is Some,
        ),
        0 <= i < engine(options).len() ==> engine(options)[i] == engine_step(options, i),
{
}

proof fn lemma_in_place(options: StartupOptions, i: int)
    requires
        0 <= i < startup_steps(options).len(),
    ensures
        place(options, startup_steps(options)[i]) == i,
{
    let scripts = 16 + one_if(options.devtools_server_enabled) + one_if(!options.multiprocess)
        + options.user_scripts;
    lemma_parts(options, i);
    lemma_engine(options, i - scripts);
    assert(place(options, part_step(options, i)) == i);
}

/// The step has the values that the options give it.
pub open spec fn has_its_values(options: StartupOptions, step: StartupStep) -> bool {
    match step {
        StartupStep::InstallPipelineNamespace(namespace) => namespace == 0,
        StartupStep::SetStyleFlags {
            disable_style_sharing_cache,
            dump_style_statistics,
            nonincremental_layout,
        } => {
            &&& disable_style_sharing_cache == options.disable_share_style_cache
            &&& dump_style_statistics == options.dump_style_statistics
            &&& nonincremental_layout == options.nonincremental_layout
        },
        StartupStep::StartDevtools(port) => (options.devtools_server_port - port) % 65536 == 0,
        StartupStep::StartWebrender {
            profiler_dbg,
            precache_full_compile,
            enable_aa,
            enable_subpixel_aa,
            allow_texture_swizzling,
        } => {
            &&& profiler_dbg == options.webrender_stats
            &&& precache_full_compile == options.precache_shaders
            &&& enable_aa == options.text_antialiasing
            &&& enable_subpixel_aa == options.subpixel_text_antialiasing
            &&& allow_texture_swizzling == options.texture_swizzling
        },
        StartupStep::StartWebdriver(port) => options.webdriver_port == Some(port),
        StartupStep::Zoom(bits) => options.zoom_level == Some(bits),
        StartupStep::CreatePanel(url) => options.with_panel && url == options.url,
        StartupStep::CreateTab(url) => !options.with_panel && url == options.url,
        _ => true,
    }
}

/// Each step has the values that the options give it: the flags of the style system and
/// of the renderer one by one, the ports, the zoom level, and the address for the panel
/// or the tab. The port of the devtools server differs from the preference by a multiple
/// of the number of ports. Web views get the namespace zero.
pub proof fn law_steps_have_the_values_of_the_options(options: StartupOptions, i: int)
    requires
        0 <= i < startup_steps(options).len(),
    ensures
        has_its_values(options, startup_steps(options)[i]),
{
    law_every_step_is_in_its_place(options);
    lemma_parts(options, i);
    lemma_values(options, i);
}

proof fn lemma_values(options: StartupOptions, i: int)
    requires
        0 <= i < 21 + one_if(options.devtools_server_enabled) + one_if(!options.multiprocess)
            + options.user_scripts + one_if(options.webdriver_port is Some) + one_if(
            options.zoom_level is Some,
        ),
    ensures
        has_its_values(options, part_step(options, i)),
{
    let devtools = 9 + one_if(options.devtools_server_enabled);
    let script_engine = devtools + 2 + one_if(!options.multiprocess);
    let scripts = script_engine + 5 + options.user_scripts;
    lemma_engine(options, i - scripts);
    let rest = scripts + engine(options).len();
    lemma_port_value(options);
    lemma_groundwork_values(options, i - 3);
    lemma_rendering_values(options, i - devtools);
    lemma_services_values(options, i - script_engine);
    lemma_first_view_values(options, i - rest);
}

proof fn lemma_port_value(options: StartupOptions)
    ensures
        has_its_values(
            options,
            StartupStep::StartDevtools(devtools_port(options.devtools_server_port)),
        ),
{
    let port = options.devtools_server_port as int;
    assert((port - port % 65536) % 65536 == 0);
}

proof fn lemma_groundwork_values(options: StartupOptions, i: int)
    ensures
        0 <= i < 6 ==> has_its_values(options, groundwork(options)[i]),
{
}

proof fn lemma_rendering_values(options: StartupOptions, i: int)
    ensures
        0 <= i < 2 ==> has_its_values(options, rendering(options)[i]),
{
}

proof fn lemma_services_values(options: StartupOptions, i: int)
    ensures
        0 <= i < 5 ==> has_its_values(options, services()[i]),
{
}

proof fn lemma_first_view_values(options: StartupOptions, i: int)
    ensures
        0 <= i < 3 ==> has_its_values(options, first_view(options)[i]),
{
}

/// The settings are put into force before anything else, and with the namespace and the
/// window that makes up what is done before the options are read.
pub proof fn law_settings_come_into_force_first()
    ensures
        preparation() == seq![
            StartupStep::InitConfig,
            StartupStep::InstallPipelineNamespace(0),
            StartupStep::OpenWindow,
        ],
{
}

} // verus!
