use vstd::prelude::*;
use crate::config::{ConfigError, LoadOutcome};
use crate::log_level::LogLevel;

verus! {

/// What the loader keeps from the configuration for the rest of the run.
#[derive(Debug)]
pub struct Run {
    /// The loader already ran in this process (the environment marker was set).
    pub already_loaded: bool,
    /// The configured log level.
    pub log_level: LogLevel,
    /// The configured plugins folder name.
    pub plugins_folder_name: String,
}

/// The stages of loading, each named after the report it waits for.
#[derive(Debug)]
pub enum Startup {
    /// Nothing has happened yet.
    Start,
    /// Waits to learn whether the loader already ran in this process.
    AwaitLoadedFlag,
    /// Waits to learn whether the executable's folder was found.
    AwaitExeDir { already_loaded: bool },
    /// Waits for the configuration.
    AwaitConfig { already_loaded: bool },
    /// The configuration file was unusable: waits for the console to be
    /// opened, then reports `error`.
    AwaitFallbackConsole { run: Run, error: ConfigError },
    /// Waits for the error to be reported and the default file written.
    AwaitDefaultWritten { run: Run },
    /// Waits for the console to be opened.
    AwaitConsole { run: Run },
    /// Waits for the replacement library next to the executable.
    AwaitOverride { run: Run },
    /// Waits for the system library, the replacement having failed.
    AwaitSystem { run: Run },
    /// Waits for the export tables to be filled in.
    AwaitInit { run: Run },
    /// Waits for the log level to be published to plugins.
    AwaitLogLevelEnv { plugins_folder_name: String },
    /// Waits for the plugins to be loaded.
    AwaitPlugins,
    /// No executable folder: waits for the console to be opened.
    NoExeDirAwaitConsole,
    /// No executable folder: waits for the system library.
    NoExeDirAwaitSystem,
    /// Waits for the error message to be shown.
    AwaitErrorShown,
    /// Loading is over.
    Done,
}

/// What the caller reports after carrying out the last action.
#[derive(Debug)]
pub enum Event {
    /// Loading begins.
    Begin,
    /// Whether the loader already ran in this process.
    LoadedFlag(bool),
    /// Whether the executable's folder was found.
    ExeDir(bool),
    /// What loading the configuration settled on.
    ConfigLoaded(LoadOutcome),
    /// Whether the requested library was loaded.
    DllLoaded(bool),
    /// The last action was carried out.
    Ack,
}

/// What the caller is to do next.
#[derive(Debug)]
pub enum Action {
    /// Read the "already loaded" environment marker, then set it.
    CheckAndMarkLoaded,
    /// Find the folder of the running executable.
    FindExeDir,
    /// Load the configuration file next to the executable, falling back to the
    /// defaults (and a fresh file) when it cannot be used.
    LoadConfig,
    /// Open the console with this log level.
    EnableConsole(LogLevel),
    /// Report why the configuration file was unusable, then write the default
    /// configuration file in its place.
    WriteDefaultConfig(ConfigError),
    /// Load the replacement library next to the executable.
    LoadOverrideDll,
    /// Load the system library stood in for.
    LoadSystemDll,
    /// Fill in the export tables from the loaded library.
    InitExports,
    /// Tell the user that the system library could not be loaded.
    ShowDinputError,
    /// Publish this log level to plugins through the environment.
    SetLogLevelEnv(LogLevel),
    /// Load the plugins from the folder of this name next to the executable.
    LoadPlugins(String),
    /// Stop.
    Finish,
}

/// The next stage and action, given the current stage and the caller's report.
/// A report that the stage does not wait for ends loading.
pub open spec fn spec_next(s: Startup, e: Event) -> (Startup, Action) {
    match s {
        Startup::Start => match e {
            Event::Begin => (Startup::AwaitLoadedFlag, Action::CheckAndMarkLoaded),
            _ => (Startup::Done, Action::Finish),
        },
        Startup::AwaitLoadedFlag => match e {
            Event::LoadedFlag(b) => (Startup::AwaitExeDir { already_loaded: b }, Action::FindExeDir),
            _ => (Startup::Done, Action::Finish),
        },
        Startup::AwaitExeDir { already_loaded } => match e {
            Event::ExeDir(true) => (Startup::AwaitConfig { already_loaded }, Action::LoadConfig),
            Event::ExeDir(false) => (
                Startup::NoExeDirAwaitConsole,
                Action::EnableConsole(LogLevel::Info),
            ),
            _ => (Startup::Done, Action::Finish),
        },
        Startup::AwaitConfig { already_loaded } => match e {
            Event::ConfigLoaded(out) => {
                let c = out.config;
                let run = Run {
                    already_loaded,
                    log_level: c.log_level,
                    plugins_folder_name: c.plugins_folder_name,
                };
                match out.fallback {
                    Some(error) => (
                        Startup::AwaitFallbackConsole { run, error },
                        Action::EnableConsole(c.log_level),
                    ),
                    None => if c.console {
                        (Startup::AwaitConsole { run }, Action::EnableConsole(c.log_level))
                    } else {
                        (Startup::AwaitOverride { run }, Action::LoadOverrideDll)
                    },
                }
            },
            _ => (Startup::Done, Action::Finish),
        },
        Startup::AwaitFallbackConsole { run, error } => match e {
            Event::Ack => (Startup::AwaitDefaultWritten { run }, Action::WriteDefaultConfig(error)),
            _ => (Startup::Done, Action::Finish),
        },
        Startup::AwaitDefaultWritten { run } => match e {
            Event::Ack => (Startup::AwaitOverride { run }, Action::LoadOverrideDll),
            _ => (Startup::Done, Action::Finish),
        },
        Startup::AwaitConsole { run } => match e {
            Event::Ack => (Startup::AwaitOverride { run }, Action::LoadOverrideDll),
            _ => (Startup::Done, Action::Finish),
        },
        Startup::AwaitOverride { run } => match e {
            Event::DllLoaded(true) => (Startup::AwaitInit { run }, Action::InitExports),
            Event::DllLoaded(false) => (Startup::AwaitSystem { run }, Action::LoadSystemDll),
            _ => (Startup::Done, Action::Finish),
        },
        Startup::AwaitSystem { run } => match e {
            Event::DllLoaded(true) => (Startup::AwaitInit { run }, Action::InitExports),
            Event::DllLoaded(false) => (Startup::AwaitErrorShown, Action::ShowDinputError),
            _ => (Startup::Done, Action::Finish),
        },
        Startup::AwaitInit { run } => match e {
            Event::Ack => if run.already_loaded {
                (Startup::Done, Action::Finish)
            } else {
                (
                    Startup::AwaitLogLevelEnv { plugins_folder_name: run.plugins_folder_name },
                    Action::SetLogLevelEnv(run.log_level),
                )
            },
            _ => (Startup::Done, Action::Finish),
        },
        Startup::AwaitLogLevelEnv { plugins_folder_name } => match e {
            Event::Ack => (Startup::AwaitPlugins, Action::LoadPlugins(plugins_folder_name)),
            _ => (Startup::Done, Action::Finish),
        },
        Startup::AwaitPlugins => (Startup::Done, Action::Finish),
        Startup::NoExeDirAwaitConsole => match e {
            Event::Ack => (Startup::NoExeDirAwaitSystem, Action::LoadSystemDll),
            _ => (Startup::Done, Action::Finish),
        },
        Startup::NoExeDirAwaitSystem => match e {
            Event::DllLoaded(true) => (Startup::Done, Action::Finish),
            Event::DllLoaded(false) => (Startup::AwaitErrorShown, Action::ShowDinputError),
            _ => (Startup::Done, Action::Finish),
        },
        Startup::AwaitErrorShown => (Startup::Done, Action::Finish),
        Startup::Done => (Startup::Done, Action::Finish),
    }
}

impl Startup {
    /// The stage before anything has happened.
    pub fn new() -> (s: Self)
        ensures
            s is Start,
    {
        Startup::Start
    }

    /// Moves to the next stage on the caller's report and says what to do next.
    pub fn step(self, event: Event) -> (r: (Startup, Action))
        ensures
            r == spec_next(self, event),
    {
        match self {
            Startup::Start => match event {
                Event::Begin => (Startup::AwaitLoadedFlag, Action::CheckAndMarkLoaded),
                _ => (Startup::Done, Action::Finish),
            },
            Startup::AwaitLoadedFlag => match event {
                Event::LoadedFlag(b) => (
                    Startup::AwaitExeDir { already_loaded: b },
                    Action::FindExeDir,
                ),
                _ => (Startup::Done, Action::Finish),
            },
            Startup::AwaitExeDir { already_loaded } => match event {
                Event::ExeDir(found) => if found {
                    (Startup::AwaitConfig { already_loaded }, Action::LoadConfig)
                } else {
                    (Startup::NoExeDirAwaitConsole, Action::EnableConsole(LogLevel::default()))
                },
                _ => (Startup::Done, Action::Finish),
            },
            Startup::AwaitConfig { already_loaded } => match event {
                Event::ConfigLoaded(out) => {
                    let LoadOutcome { config, fallback } = out;
                    let console = config.console;
                    let log_level = config.log_level;
                    let run = Run {
                        already_loaded,
                        log_level,
                        plugins_folder_name: config.plugins_folder_name,
                    };
                    match fallback {
                        Some(error) => (
                            Startup::AwaitFallbackConsole { run, error },
                            Action::EnableConsole(log_level),
                        ),
                        None => if console {
                            (Startup::AwaitConsole { run }, Action::EnableConsole(log_level))
                        } else {
                            (Startup::AwaitOverride { run }, Action::LoadOverrideDll)
                        },
                    }
                },
                _ => (Startup::Done, Action::Finish),
            },
            Startup::AwaitFallbackConsole { run, error } => match event {
                Event::Ack => (
                    Startup::AwaitDefaultWritten { run },
                    Action::WriteDefaultConfig(error),
                ),
                _ => (Startup::Done, Action::Finish),
            },
            Startup::AwaitDefaultWritten { run } => match event {
                Event::Ack => (Startup::AwaitOverride { run }, Action::LoadOverrideDll),
                _ => (Startup::Done, Action::Finish),
            },
            Startup::AwaitConsole { run } => match event {
                Event::Ack => (Startup::AwaitOverride { run }, Action::LoadOverrideDll),
                _ => (Startup::Done, Action::Finish),
            },
            Startup::AwaitOverride { run } => match event {
                Event::DllLoaded(loaded) => if loaded {
                    (Startup::AwaitInit { run }, Action::InitExports)
                } else {
                    (Startup::AwaitSystem { run }, Action::LoadSystemDll)
                },
                _ => (Startup::Done, Action::Finish),
            },
            Startup::AwaitSystem { run } => match event {
                Event::DllLoaded(loaded) => if loaded {
                    (Startup::AwaitInit { run }, Action::InitExports)
                } else {
                    (Startup::AwaitErrorShown, Action::ShowDinputError)
                },
                _ => (Startup::Done, Action::Finish),
            },
            Startup::AwaitInit { run } => match event {
                Event::Ack => if run.already_loaded {
                    (Startup::Done, Action::Finish)
                } else {
                    let log_level = run.log_level;
                    (
                        Startup::AwaitLogLevelEnv { plugins_folder_name: run.plugins_folder_name },
                        Action::SetLogLevelEnv(log_level),
                    )
                },
                _ => (Startup::Done, Action::Finish),
            },
            Startup::AwaitLogLevelEnv { plugins_folder_name } => match event {
                Event::Ack => (Startup::AwaitPlugins, Action::LoadPlugins(plugins_folder_name)),
                _ => (Startup::Done, Action::Finish),
            },
            Startup::AwaitPlugins => (Startup::Done, Action::Finish),
            Startup::NoExeDirAwaitConsole => match event {
                Event::Ack => (Startup::NoExeDirAwaitSystem, Action::LoadSystemDll),
                _ => (Startup::Done, Action::Finish),
            },
            Startup::NoExeDirAwaitSystem => match event {
                Event::DllLoaded(loaded) => if loaded {
                    (Startup::Done, Action::Finish)
                } else {
                    (Startup::AwaitErrorShown, Action::ShowDinputError)
                },
                _ => (Startup::Done, Action::Finish),
            },
            Startup::AwaitErrorShown => (Startup::Done, Action::Finish),
            Startup::Done => (Startup::Done, Action::Finish),
        }
    }
}

/// How many steps loading can still take from a stage.
pub open spec fn rank(s: Startup) -> nat {
    match s {
        Startup::Start => 15,
        Startup::AwaitLoadedFlag => 14,
        Startup::AwaitExeDir { .. } => 13,
        Startup::AwaitConfig { .. } => 12,
        Startup::AwaitFallbackConsole { .. } => 11,
        Startup::AwaitDefaultWritten { .. } => 10,
        Startup::AwaitConsole { .. } => 10,
        Startup::AwaitOverride { .. } => 9,
        Startup::AwaitSystem { .. } => 8,
        Startup::AwaitInit { .. } => 7,
        Startup::AwaitLogLevelEnv { .. } => 6,
        Startup::AwaitPlugins => 5,
        Startup::NoExeDirAwaitConsole => 10,
        Startup::NoExeDirAwaitSystem => 8,
        Startup::AwaitErrorShown => 1,
        Startup::Done => 0,
    }
}

/// The actions that loading issues from stage `s` on the reports `evs`, up to
/// the end of loading or of the reports.
pub open spec fn run(s: Startup, evs: Seq<Event>) -> Seq<Action>
    decreases evs.len(),
{
    if evs.len() == 0 || s is Done {
        seq![]
    } else {
        let (t, a) = spec_next(s, evs[0]);
        seq![a] + run(t, evs.drop_first())
    }
}

/// Every step leaves a stage for one closer to the end; once over, loading
/// stays over and only says to stop.
pub proof fn lemma_step_progress(s: Startup, e: Event)
    ensures
        !(s is Done) ==> rank(spec_next(s, e).0) < rank(s),
        s is Done ==> spec_next(s, e).0 is Done && spec_next(s, e).1 is Finish,
{
}

/// Loading ends: from any stage it issues at most as many actions as the
/// stage's rank, so at most fifteen from the start.
pub proof fn lemma_run_bounded(s: Startup, evs: Seq<Event>)
    ensures
        run(s, evs).len() <= rank(s),
    decreases evs.len(),
{
    if evs.len() > 0 && !(s is Done) {
        lemma_step_progress(s, evs[0]);
        lemma_run_bounded(spec_next(s, evs[0]).0, evs.drop_first());
    }
}

/// The export tables are filled in only right after a library was
/// loaded.
pub proof fn lemma_exports_after_load(s: Startup, e: Event)
    ensures
        spec_next(s, e).1 is InitExports ==> e == Event::DllLoaded(true),
{
}

/// When neither the replacement nor the system library could be loaded, the
/// user is told so.
pub proof fn lemma_load_failure_reported(s: Startup)
    ensures
        (s is AwaitSystem || s is NoExeDirAwaitSystem) ==> spec_next(
            s,
            Event::DllLoaded(false),
        ).1 is ShowDinputError,
{
}

/// Stages from which no plugin can be loaded any more.
pub open spec fn plugins_ruled_out(s: Startup) -> bool {
    match s {
        Startup::AwaitExeDir { already_loaded } => already_loaded,
        Startup::AwaitConfig { already_loaded } => already_loaded,
        Startup::AwaitFallbackConsole { run, .. } => run.already_loaded,
        Startup::AwaitDefaultWritten { run } => run.already_loaded,
        Startup::AwaitConsole { run } => run.already_loaded,
        Startup::AwaitOverride { run } => run.already_loaded,
        Startup::AwaitSystem { run } => run.already_loaded,
        Startup::AwaitInit { run } => run.already_loaded,
        Startup::AwaitPlugins => true,
        Startup::NoExeDirAwaitConsole => true,
        Startup::NoExeDirAwaitSystem => true,
        Startup::AwaitErrorShown => true,
        Startup::Done => true,
        _ => false,
    }
}

proof fn lemma_ruled_out_step(s: Startup, e: Event)
    requires
        plugins_ruled_out(s),
    ensures
        !(spec_next(s, e).1 is LoadPlugins),
        plugins_ruled_out(spec_next(s, e).0),
{
}

proof fn lemma_ruled_out_run(s: Startup, evs: Seq<Event>)
    requires
        plugins_ruled_out(s),
    ensures
        forall|i: int| 0 <= i < run(s, evs).len() ==> !(#[trigger] run(s, evs)[i] is LoadPlugins),
    decreases evs.len(),
{
    if evs.len() > 0 && !(s is Done) {
        let (t, a) = spec_next(s, evs[0]);
        lemma_ruled_out_step(s, evs[0]);
        lemma_ruled_out_run(t, evs.drop_first());
        assert forall|i: int| 0 <= i < run(s, evs).len() implies !(#[trigger] run(
            s,
            evs,
        )[i] is LoadPlugins) by {
            if i > 0 {
                assert(run(s, evs)[i] == run(t, evs.drop_first())[i - 1]);
            }
        }
    }
}

/// If the loader already ran in this process, it never loads plugins again,
/// whatever happens after it learns so.
pub proof fn lemma_no_plugins_when_already_loaded(evs: Seq<Event>)
    ensures
        forall|i: int|
            0 <= i < run(Startup::AwaitExeDir { already_loaded: true }, evs).len() ==> !(
            #[trigger] run(Startup::AwaitExeDir { already_loaded: true }, evs)[i] is LoadPlugins),
{
    lemma_ruled_out_run(Startup::AwaitExeDir { already_loaded: true }, evs);
}

/// Plugins are loaded at most once in a run.
pub proof fn lemma_plugins_loaded_once(s: Startup, evs: Seq<Event>)
    ensures
        forall|i: int, j: int|
            0 <= i < j < run(s, evs).len() && #[trigger] run(s, evs)[i] is LoadPlugins ==> !(
            #[trigger] run(s, evs)[j] is LoadPlugins),
    decreases evs.len(),
{
    if evs.len() > 0 && !(s is Done) {
        let (t, a) = spec_next(s, evs[0]);
        let rest = evs.drop_first();
        lemma_plugins_loaded_once(t, rest);
        if a is LoadPlugins {
            assert(t is AwaitPlugins);
            lemma_ruled_out_run(t, rest);
        }
        assert forall|i: int, j: int|
            0 <= i < j < run(s, evs).len() && #[trigger] run(s, evs)[i] is LoadPlugins implies !(
            #[trigger] run(s, evs)[j] is LoadPlugins) by {
            assert(run(s, evs)[j] == run(t, rest)[j - 1]);
            if i > 0 {
                assert(run(s, evs)[i] == run(t, rest)[i - 1]);
            }
        }
    }
}

/// Stages reached before the export tables are filled in.
pub open spec fn before_exports(s: Startup) -> bool {
    !(s is AwaitInit || s is AwaitLogLevelEnv || s is AwaitPlugins)
}

/// From any stage before the export tables are filled in, a plugin load is
/// always preceded by filling them in: plugins never run against the stubs.
pub proof fn lemma_exports_before_plugins(s: Startup, evs: Seq<Event>)
    requires
        before_exports(s),
    ensures
        forall|j: int|
            0 <= j < run(s, evs).len() && #[trigger] run(s, evs)[j] is LoadPlugins ==> exists|
                i: int,
            |
                0 <= i < j && #[trigger] run(s, evs)[i] is InitExports,
    decreases evs.len(),
{
    if evs.len() > 0 && !(s is Done) {
        let (t, a) = spec_next(s, evs[0]);
        let rest = evs.drop_first();
        assert forall|j: int|
            0 <= j < run(s, evs).len() && #[trigger] run(s, evs)[j] is LoadPlugins implies exists|
                i: int,
            |
                0 <= i < j && #[trigger] run(s, evs)[i] is InitExports by {
            assert(run(s, evs)[0] == a);
            assert(!(a is LoadPlugins));
            assert(run(s, evs)[j] == run(t, rest)[j - 1]);
            if before_exports(t) {
                lemma_exports_before_plugins(t, rest);
                let i = choose|i: int| 0 <= i < j - 1 && #[trigger] run(t, rest)[i] is InitExports;
                assert(run(s, evs)[i + 1] == run(t, rest)[i]);
            } else {
                assert(a is InitExports);
            }
        }
    }
}

/// Right after a usable configuration arrives, the console is opened exactly
/// when the configuration asks for it, and with the configured log level;
/// after an unusable one it is opened with the fallback's log level, and the
/// error is reported and the default file written next.
pub proof fn lemma_console_as_configured(already_loaded: bool, out: LoadOutcome)
    ensures
        ({
            let (t, a) = spec_next(Startup::AwaitConfig { already_loaded }, Event::ConfigLoaded(out));
            match out.fallback {
                None => a == (if out.config.console {
                    Action::EnableConsole(out.config.log_level)
                } else {
                    Action::LoadOverrideDll
                }),
                Some(error) => a == Action::EnableConsole(out.config.log_level) && spec_next(
                    t,
                    Event::Ack,
                ).1 == Action::WriteDefaultConfig(error),
            }
        }),
{
}

/// The system library is only asked for once the replacement next to the
/// executable failed to load, or when there is no executable folder to look in.
pub proof fn lemma_override_first(s: Startup, e: Event)
    ensures
        spec_next(s, e).1 is LoadSystemDll ==> (s is AwaitOverride && e == Event::DllLoaded(false))
            || (s is NoExeDirAwaitConsole && e is Ack),
{
}

/// Stages whose plugins folder, if any is still to be loaded, is `folder`.
pub open spec fn plugins_folder_is(s: Startup, folder: Seq<char>) -> bool {
    match s {
        Startup::AwaitFallbackConsole { run, .. } => run.plugins_folder_name@ == folder,
        Startup::AwaitDefaultWritten { run } => run.plugins_folder_name@ == folder,
        Startup::AwaitConsole { run } => run.plugins_folder_name@ == folder,
        Startup::AwaitOverride { run } => run.plugins_folder_name@ == folder,
        Startup::AwaitSystem { run } => run.plugins_folder_name@ == folder,
        Startup::AwaitInit { run } => run.plugins_folder_name@ == folder,
        Startup::AwaitLogLevelEnv { plugins_folder_name } => plugins_folder_name@ == folder,
        Startup::Start => false,
        Startup::AwaitLoadedFlag => false,
        Startup::AwaitExeDir { .. } => false,
        Startup::AwaitConfig { .. } => false,
        _ => true,
    }
}

proof fn lemma_folder_run(s: Startup, folder: Seq<char>, evs: Seq<Event>)
    requires
        plugins_folder_is(s, folder),
    ensures
        forall|i: int|
            0 <= i < run(s, evs).len() && #[trigger] run(s, evs)[i] is LoadPlugins ==> run(
                s,
                evs,
            )[i]->LoadPlugins_0@ == folder,
    decreases evs.len(),
{
    if evs.len() > 0 && !(s is Done) {
        let (t, a) = spec_next(s, evs[0]);
        lemma_folder_run(t, folder, evs.drop_first());
        assert forall|i: int|
            0 <= i < run(s, evs).len() && #[trigger] run(s, evs)[i] is LoadPlugins implies run(
                s,
                evs,
            )[i]->LoadPlugins_0@ == folder by {
            if i > 0 {
                assert(run(s, evs)[i] == run(t, evs.drop_first())[i - 1]);
            }
        }
    }
}

/// Plugins are loaded from the folder that the configuration names.
pub proof fn lemma_plugins_from_configured_folder(
    already_loaded: bool,
    out: LoadOutcome,
    evs: Seq<Event>,
)
    ensures
        ({
            let s = spec_next(Startup::AwaitConfig { already_loaded }, Event::ConfigLoaded(out)).0;
            forall|i: int|
                0 <= i < run(s, evs).len() && #[trigger] run(s, evs)[i] is LoadPlugins ==> run(
                    s,
                    evs,
                )[i]->LoadPlugins_0@ == out.config.plugins_folder_name@
        }),
{
    let s = spec_next(Startup::AwaitConfig { already_loaded }, Event::ConfigLoaded(out)).0;
    lemma_folder_run(s, out.config.plugins_folder_name@, evs);
}

/// Stages from which the console is never opened again.
pub open spec fn console_ruled_out(s: Startup) -> bool {
    !(s is Start || s is AwaitLoadedFlag || s is AwaitExeDir || s is AwaitConfig)
}

proof fn lemma_console_ruled_out_run(s: Startup, evs: Seq<Event>)
    requires
        console_ruled_out(s),
    ensures
        forall|i: int|
            0 <= i < run(s, evs).len() ==> !(#[trigger] run(s, evs)[i] is EnableConsole),
    decreases evs.len(),
{
    if evs.len() > 0 && !(s is Done) {
        let (t, a) = spec_next(s, evs[0]);
        lemma_console_ruled_out_run(t, evs.drop_first());
        assert forall|i: int| 0 <= i < run(s, evs).len() implies !(#[trigger] run(
            s,
            evs,
        )[i] is EnableConsole) by {
            if i > 0 {
                assert(run(s, evs)[i] == run(t, evs.drop_first())[i - 1]);
            }
        }
    }
}

/// The console is opened at most once in a run: opening it twice would set
/// up the log twice.
pub proof fn lemma_console_opened_once(s: Startup, evs: Seq<Event>)
    ensures
        forall|i: int, j: int|
            0 <= i < j < run(s, evs).len() && #[trigger] run(s, evs)[i] is EnableConsole ==> !(
            #[trigger] run(s, evs)[j] is EnableConsole),
    decreases evs.len(),
{
    if evs.len() > 0 && !(s is Done) {
        let (t, a) = spec_next(s, evs[0]);
        let rest = evs.drop_first();
        lemma_console_opened_once(t, rest);
        if a is EnableConsole {
            lemma_console_ruled_out_run(t, rest);
        }
        assert forall|i: int, j: int|
            0 <= i < j < run(s, evs).len() && #[trigger] run(s, evs)[i] is EnableConsole implies !(
            #[trigger] run(s, evs)[j] is EnableConsole) by {
            assert(run(s, evs)[j] == run(t, rest)[j - 1]);
            if i > 0 {
                assert(run(s, evs)[i] == run(t, rest)[i - 1]);
            }
        }
    }
}

/// What the loader keeps for the rest of the run from a configuration.
pub open spec fn run_of(already_loaded: bool, out: LoadOutcome) -> Run {
    Run {
        already_loaded,
        log_level: out.config.log_level,
        plugins_folder_name: out.config.plugins_folder_name,
    }
}

/// Once the configuration arrives, loading goes on to the replacement library
/// with the configured log level and plugins folder, whatever the console
/// setting: after opening the console when the configuration asks for it, and
/// after opening the console and writing the default file when the file was
/// unusable, whatever made it so.
pub proof fn lemma_config_then_override(already_loaded: bool, out: LoadOutcome)
    ensures
        ({
            let (s1, a1) = spec_next(Startup::AwaitConfig { already_loaded }, Event::ConfigLoaded(out));
            let (s2, a2) = spec_next(s1, Event::Ack);
            let (s3, a3) = spec_next(s2, Event::Ack);
            let r = run_of(already_loaded, out);
            match out.fallback {
                None => if out.config.console {
                    &&& a1 == Action::EnableConsole(out.config.log_level)
                    &&& a2 == Action::LoadOverrideDll
                    &&& s2 == Startup::AwaitOverride { run: r }
                } else {
                    &&& a1 == Action::LoadOverrideDll
                    &&& s1 == Startup::AwaitOverride { run: r }
                },
                Some(e) => {
                    &&& a1 == Action::EnableConsole(out.config.log_level)
                    &&& a2 == Action::WriteDefaultConfig(e)
                    &&& a3 == Action::LoadOverrideDll
                    &&& s3 == Startup::AwaitOverride { run: r }
                },
            }
        }),
{
}

/// When the replacement library fails to load, the system library is tried
/// next, whether or not the loader already ran in this process.
pub proof fn lemma_system_after_override_failure(r: Run)
    ensures
        spec_next(Startup::AwaitOverride { run: r }, Event::DllLoaded(false)) == (
            Startup::AwaitSystem { run: r },
            Action::LoadSystemDll,
        ),
{
}

/// The error message is shown only after the system library failed to load.
pub proof fn lemma_error_only_after_system_failure(s: Startup, e: Event)
    ensures
        spec_next(s, e).1 is ShowDinputError ==> (s is AwaitSystem || s is NoExeDirAwaitSystem)
            && e == Event::DllLoaded(false),
{
}

/// Once a library is loaded (the replacement or the system one), the export
/// tables are filled in, whether or not the loader already ran in this
/// process; then, on a first load, the configured log level is published and
/// the plugins are loaded from the configured folder, whatever the level; when
/// the loader already ran, loading stops there.
pub proof fn lemma_loaded_library_leads_to_plugins(r: Run, from_system: bool)
    ensures
        ({
            let s = if from_system {
                Startup::AwaitSystem { run: r }
            } else {
                Startup::AwaitOverride { run: r }
            };
            let (s1, a1) = spec_next(s, Event::DllLoaded(true));
            let (s2, a2) = spec_next(s1, Event::Ack);
            let (s3, a3) = spec_next(s2, Event::Ack);
            let (s4, a4) = spec_next(s3, Event::Ack);
            &&& a1 == Action::InitExports
            &&& !r.already_loaded ==> {
                &&& a2 == Action::SetLogLevelEnv(r.log_level)
                &&& a3 == Action::LoadPlugins(r.plugins_folder_name)
                &&& a4 == Action::Finish
                &&& s4 is Done
            }
            &&& r.already_loaded ==> a2 == Action::Finish && s2 is Done
        }),
{
}

/// Stages whose log level, if it is still to be published, is `level`.
pub open spec fn log_level_is(s: Startup, level: LogLevel) -> bool {
    match s {
        Startup::AwaitFallbackConsole { run, .. } => run.log_level == level,
        Startup::AwaitDefaultWritten { run } => run.log_level == level,
        Startup::AwaitConsole { run } => run.log_level == level,
        Startup::AwaitOverride { run } => run.log_level == level,
        Startup::AwaitSystem { run } => run.log_level == level,
        Startup::AwaitInit { run } => run.log_level == level,
        Startup::Start => false,
        Startup::AwaitLoadedFlag => false,
        Startup::AwaitExeDir { .. } => false,
        Startup::AwaitConfig { .. } => false,
        _ => true,
    }
}

proof fn lemma_log_level_run(s: Startup, level: LogLevel, evs: Seq<Event>)
    requires
        log_level_is(s, level),
    ensures
        forall|i: int|
            0 <= i < run(s, evs).len() && #[trigger] run(s, evs)[i] is SetLogLevelEnv ==> run(
                s,
                evs,
            )[i]->SetLogLevelEnv_0 == level,
    decreases evs.len(),
{
    if evs.len() > 0 && !(s is Done) {
        let (t, a) = spec_next(s, evs[0]);
        lemma_log_level_run(t, level, evs.drop_first());
        assert forall|i: int|
            0 <= i < run(s, evs).len() && #[trigger] run(s, evs)[i] is SetLogLevelEnv implies run(
                s,
                evs,
            )[i]->SetLogLevelEnv_0 == level by {
            if i > 0 {
                assert(run(s, evs)[i] == run(t, evs.drop_first())[i - 1]);
            }
        }
    }
}

/// Plugins are told the log level of the configuration settled on, whatever
/// the console setting.
pub proof fn lemma_plugins_told_configured_level(
    already_loaded: bool,
    out: LoadOutcome,
    evs: Seq<Event>,
)
    ensures
        ({
            let s = spec_next(Startup::AwaitConfig { already_loaded }, Event::ConfigLoaded(out)).0;
            forall|i: int|
                0 <= i < run(s, evs).len() && #[trigger] run(s, evs)[i] is SetLogLevelEnv ==> run(
                    s,
                    evs,
                )[i]->SetLogLevelEnv_0 == out.config.log_level
        }),
{
    let s = spec_next(Startup::AwaitConfig { already_loaded }, Event::ConfigLoaded(out)).0;
    lemma_log_level_run(s, out.config.log_level, evs);
}

/// Loading begins by checking and setting the "already loaded" marker, then
/// looks for the executable's folder. With the folder it asks for the
/// configuration, remembering whether the loader already ran. Without it, it
/// opens the console at the default level and goes straight to the system
/// library: the export tables are not filled and no plugin is loaded, and when
/// that library fails too the error is shown.
pub proof fn lemma_opening_sequence(already_loaded: bool)
    ensures
        ({
            let (s1, a1) = spec_next(Startup::Start, Event::Begin);
            let (s2, a2) = spec_next(s1, Event::LoadedFlag(already_loaded));
            let (s3, a3) = spec_next(s2, Event::ExeDir(true));
            &&& a1 == Action::CheckAndMarkLoaded
            &&& a2 == Action::FindExeDir
            &&& a3 == Action::LoadConfig
            &&& s3 == Startup::AwaitConfig { already_loaded }
        }),
        ({
            let s2 = Startup::AwaitExeDir { already_loaded };
            let (n1, b1) = spec_next(s2, Event::ExeDir(false));
            let (n2, b2) = spec_next(n1, Event::Ack);
            let (ok, c_ok) = spec_next(n2, Event::DllLoaded(true));
            let (bad, c_bad) = spec_next(n2, Event::DllLoaded(false));
            let (end, c_end) = spec_next(bad, Event::Ack);
            &&& b1 == Action::EnableConsole(LogLevel::Info)
            &&& b2 == Action::LoadSystemDll
            &&& c_ok == Action::Finish && ok is Done
            &&& c_bad == Action::ShowDinputError
            &&& c_end == Action::Finish && end is Done
        }),
{
}

/// If the loader already ran in this process, a run from the start never
/// loads plugins, whatever is reported after the marker.
pub proof fn lemma_no_plugins_from_start_when_already_loaded(evs: Seq<Event>)
    ensures
        ({
            let all = seq![Event::Begin, Event::LoadedFlag(true)] + evs;
            forall|i: int|
                0 <= i < run(Startup::Start, all).len() ==> !(#[trigger] run(
                    Startup::Start,
                    all,
                )[i] is LoadPlugins)
        }),
{
    let all = seq![Event::Begin, Event::LoadedFlag(true)] + evs;
    let s1 = spec_next(Startup::Start, Event::Begin).0;
    let s2 = spec_next(s1, Event::LoadedFlag(true)).0;
    assert(all.drop_first() =~= seq![Event::LoadedFlag(true)] + evs);
    assert(all.drop_first().drop_first() =~= evs);
    lemma_ruled_out_run(s2, evs);
    assert forall|i: int| 0 <= i < run(Startup::Start, all).len() implies !(#[trigger] run(
        Startup::Start,
        all,
    )[i] is LoadPlugins) by {
        assert(run(Startup::Start, all) == seq![Action::CheckAndMarkLoaded] + run(
            s1,
            all.drop_first(),
        ));
        assert(run(s1, all.drop_first()) == seq![Action::FindExeDir] + run(s2, evs));
        if i >= 2 {
            assert(run(Startup::Start, all)[i] == run(s2, evs)[i - 2]);
        }
    }
}

} // verus!
