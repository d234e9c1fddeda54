use vstd::prelude::*;

use crate::command::{
    flatpak_override_command, flatpak_override_view, font_registration_command,
    font_registration_view, game_command, game_view, texts, wineboot_command, wineboot_view,
    wineserver_command, wineserver_view, CommandSpec, CommandView, WineEnv,
};
use crate::fonts::{
    first_allowed, first_allowed_from, first_registrable, first_registrable_from, font_allowed,
    font_registry_name, max_fonts, registry_name_for,
};
use crate::text::{concat_text, joined, join_path, lowercase};

verus! {

/// Where a launch stands: each phase names the outside work last asked for.
#[derive(Clone, Copy, Debug, PartialEq, Eq, Structural)]
pub enum Phase {
    WriteConfig,
    ProbeMainExe,
    ProbeCliExe,
    ProbePrefix,
    ProbeSystemReg,
    CreatePrefix,
    Wineboot,
    WaitInit,
    FlatpakOverride,
    ProbeFontDir,
    ProbeFontsDir,
    ProbeFontsDest,
    CreateFontsDest,
    ClearFontsDest,
    ListFonts,
    CopyFont,
    RegisterFont,
    StartWineserver,
    WaitServer,
    LaunchGame,
    Finished,
}

/// Why a launch failed.
#[derive(Debug)]
pub enum LaunchError {
    /// `config.json` could not be written; the text is the I/O error's message.
    ConfigWrite(String),
    /// Neither `mhf-iel.exe` nor `mhf-iel-cli.exe` is in the game folder.
    ExecutableNotFound,
    /// The game process could not be started; the text is the I/O error's message.
    Spawn(String),
}

/// A launch failure, as text.
pub enum ErrorView {
    ConfigWrite(Seq<char>),
    ExecutableNotFound,
    Spawn(Seq<char>),
}

impl View for LaunchError {
    type V = ErrorView;

    open spec fn view(&self) -> ErrorView {
        match self {
            LaunchError::ConfigWrite(m) => ErrorView::ConfigWrite(m@),
            LaunchError::ExecutableNotFound => ErrorView::ExecutableNotFound,
            LaunchError::Spawn(m) => ErrorView::Spawn(m@),
        }
    }
}

/// The message of a launch failure.
pub open spec fn launch_error_message(e: ErrorView) -> Seq<char> {
    match e {
        ErrorView::ConfigWrite(m) => "Failed to write config.json: "@ + m,
        ErrorView::ExecutableNotFound => "mhf-iel.exe or mhf-iel-cli.exe not found in game folder"@,
        ErrorView::Spawn(m) => m,
    }
}

impl LaunchError {
    /// A copy of the error.
    pub fn copied(&self) -> (r: LaunchError)
        ensures
            r@ == self@,
    {
        match self {
            LaunchError::ConfigWrite(m) => LaunchError::ConfigWrite(m.clone()),
            LaunchError::ExecutableNotFound => LaunchError::ExecutableNotFound,
            LaunchError::Spawn(m) => LaunchError::Spawn(m.clone()),
        }
    }

    /// The message the error carries.
    pub fn message(&self) -> (r: String)
        ensures
            r@ == launch_error_message(self@),
    {
        match self {
            LaunchError::ConfigWrite(m) => concat_text("Failed to write config.json: ", m.as_str()),
            LaunchError::ExecutableNotFound => String::from_str(
                "mhf-iel.exe or mhf-iel-cli.exe not found in game folder",
            ),
            LaunchError::Spawn(m) => m.clone(),
        }
    }
}

/// A launch outcome, as text.
pub open spec fn result_view(r: Result<(), LaunchError>) -> Result<(), ErrorView> {
    match r {
        Ok(()) => Ok(()),
        Err(e) => Err(e@),
    }
}

fn copy_result(r: &Result<(), LaunchError>) -> (c: Result<(), LaunchError>)
    ensures
        result_view(c) == result_view(*r),
{
    match r {
        Ok(()) => Ok(()),
        Err(e) => Err(e.copied()),
    }
}

/// What the launcher reports back after doing the work it was asked for.
#[derive(Debug)]
pub enum LaunchEvent {
    /// The work was done.
    Succeeded,
    /// The work failed, with this message.
    Failed(String),
    /// The path asked about exists (or not).
    Exists(bool),
    /// The directory asked about holds files of these names (in the order
    /// the system lists them).
    Listed(Vec<String>),
}

/// The event says that the path exists.
pub open spec fn said_exists(e: LaunchEvent) -> bool {
    match e {
        LaunchEvent::Exists(b) => b,
        _ => false,
    }
}

/// The event says that the work succeeded.
pub open spec fn said_succeeded(e: LaunchEvent) -> bool {
    e is Succeeded
}

/// The file names the event lists (none unless it is a listing).
pub open spec fn listed_names(e: LaunchEvent) -> Seq<Seq<char>> {
    match e {
        LaunchEvent::Listed(v) => texts(v@),
        _ => Seq::empty(),
    }
}

/// Work that the launcher is asked to do next.
#[derive(Debug)]
pub enum LaunchAction {
    /// Write the game configuration to this file.
    WriteConfig { path: String },
    /// Tell whether this path exists.
    CheckExists { path: String },
    /// Create this directory and its parents.
    CreateDirAll { path: String },
    /// Run this command and wait for it to end; its outcome is not looked at.
    Run { command: CommandSpec },
    /// Start this command without waiting for it.
    Spawn { command: CommandSpec },
    /// Wait this many seconds.
    Sleep { seconds: u64 },
    /// Remove every file in this directory.
    RemoveFilesIn { dir: String },
    /// List the names of the files in this directory.
    ListDir { dir: String },
    /// Copy a file.
    CopyFile { from: String, to: String },
    /// The launch is over, with this outcome.
    Finish { result: Result<(), LaunchError> },
}

/// Work asked for, as text.
pub enum ActionView {
    WriteConfig(Seq<char>),
    CheckExists(Seq<char>),
    CreateDirAll(Seq<char>),
    Run(CommandView),
    Spawn(CommandView),
    Sleep(u64),
    RemoveFilesIn(Seq<char>),
    ListDir(Seq<char>),
    CopyFile(Seq<char>, Seq<char>),
    Finish(Result<(), ErrorView>),
}

impl View for LaunchAction {
    type V = ActionView;

    open spec fn view(&self) -> ActionView {
        match self {
            LaunchAction::WriteConfig { path } => ActionView::WriteConfig(path@),
            LaunchAction::CheckExists { path } => ActionView::CheckExists(path@),
            LaunchAction::CreateDirAll { path } => ActionView::CreateDirAll(path@),
            LaunchAction::Run { command } => ActionView::Run(command@),
            LaunchAction::Spawn { command } => ActionView::Spawn(command@),
            LaunchAction::Sleep { seconds } => ActionView::Sleep(*seconds),
            LaunchAction::RemoveFilesIn { dir } => ActionView::RemoveFilesIn(dir@),
            LaunchAction::ListDir { dir } => ActionView::ListDir(dir@),
            LaunchAction::CopyFile { from, to } => ActionView::CopyFile(from@, to@),
            LaunchAction::Finish { result } => ActionView::Finish(result_view(*result)),
        }
    }
}

/// A launch, as text.
pub struct LaunchView {
    pub phase: Phase,
    pub game_folder: Seq<char>,
    pub steamos: bool,
    pub env: WineEnv,
    /// The game executable found.
    pub exe: Seq<char>,
    /// The folder the fonts are taken from.
    pub source: Seq<char>,
    /// The files of that folder.
    pub names: Seq<Seq<char>>,
    /// The position, in `names`, of the font being copied.
    pub current: int,
    /// The fonts installed so far.
    pub installed: Seq<Seq<char>>,
    /// The position, in `installed`, of the font being registered.
    pub next_register: int,
    /// The outcome, once finished.
    pub result: Result<(), ErrorView>,
}

/// Where the game configuration is written.
pub open spec fn config_path(game: Seq<char>) -> Seq<char> {
    joined(game, "config.json"@)
}

/// The executable looked for first.
pub open spec fn main_exe(game: Seq<char>) -> Seq<char> {
    joined(game, "mhf-iel.exe"@)
}

/// The executable looked for where the first one is missing.
pub open spec fn cli_exe(game: Seq<char>) -> Seq<char> {
    joined(game, "mhf-iel-cli.exe"@)
}

/// The registry file whose presence marks an initialised prefix.
pub open spec fn system_reg(prefix: Seq<char>) -> Seq<char> {
    joined(prefix, "system.reg"@)
}

/// The Windows font folder of the prefix.
pub open spec fn fonts_dest(prefix: Seq<char>) -> Seq<char> {
    joined(prefix, "drive_c/windows/Fonts"@)
}

/// The seconds to wait after `wineboot`: longer on SteamOS.
pub open spec fn init_wait(steamos: bool) -> u64 {
    if steamos {
        10
    } else {
        3
    }
}

pub open spec fn to_prefix(s: LaunchView) -> (LaunchView, ActionView) {
    (LaunchView { phase: Phase::ProbePrefix, ..s }, ActionView::CheckExists(s.env.wineprefix@))
}

pub open spec fn to_create_prefix(s: LaunchView) -> (LaunchView, ActionView) {
    (LaunchView { phase: Phase::CreatePrefix, ..s }, ActionView::CreateDirAll(s.env.wineprefix@))
}

pub open spec fn to_wineserver(s: LaunchView) -> (LaunchView, ActionView) {
    (LaunchView { phase: Phase::StartWineserver, ..s }, ActionView::Spawn(wineserver_view(s.steamos, s.env)))
}

pub open spec fn to_fonts(s: LaunchView) -> (LaunchView, ActionView) {
    (LaunchView { phase: Phase::ProbeFontDir, ..s }, ActionView::CheckExists(joined(s.game_folder, "Font"@)))
}

pub open spec fn to_dest(s: LaunchView, source: Seq<char>) -> (LaunchView, ActionView) {
    (
        LaunchView { phase: Phase::ProbeFontsDest, source, ..s },
        ActionView::CheckExists(fonts_dest(s.env.wineprefix@)),
    )
}

pub open spec fn to_clear(s: LaunchView) -> (LaunchView, ActionView) {
    (
        LaunchView { phase: Phase::ClearFontsDest, ..s },
        ActionView::RemoveFilesIn(fonts_dest(s.env.wineprefix@)),
    )
}

pub open spec fn finish(s: LaunchView, result: Result<(), ErrorView>) -> (LaunchView, ActionView) {
    (LaunchView { phase: Phase::Finished, result, ..s }, ActionView::Finish(result))
}

/// Register the first installed font at or after `from` that has a registry
/// name; once there is none left, start the Wine server.
pub open spec fn register_from(s: LaunchView, from: int) -> (LaunchView, ActionView) {
    let j = first_registrable_from(s.installed, from);
    if j < s.installed.len() {
        (
            LaunchView { phase: Phase::RegisterFont, next_register: j, ..s },
            ActionView::Run(
                font_registration_view(
                    s.steamos,
                    s.env.wineprefix@,
                    registry_name_for(lowercase(s.installed[j]))->0,
                    s.installed[j],
                ),
            ),
        )
    } else {
        to_wineserver(s)
    }
}

/// Copy the first allowed font at or after `from`, while fewer than two are
/// installed; then register those installed, if any, or start the Wine
/// server.
pub open spec fn copy_from(s: LaunchView, from: int) -> (LaunchView, ActionView) {
    let i = first_allowed_from(s.names, from);
    if i < s.names.len() && s.installed.len() < 2 {
        (
            LaunchView { phase: Phase::CopyFont, current: i, ..s },
            ActionView::CopyFile(
                joined(s.source, s.names[i]),
                joined(fonts_dest(s.env.wineprefix@), s.names[i]),
            ),
        )
    } else if s.installed.len() == 0 {
        to_wineserver(s)
    } else {
        register_from(s, 0)
    }
}

/// The launch that starts in `game_folder`: it first writes the configuration.
pub open spec fn initial(game_folder: Seq<char>, steamos: bool, env: WineEnv) -> (LaunchView, ActionView) {
    (
        LaunchView {
            phase: Phase::WriteConfig,
            game_folder,
            steamos,
            env,
            exe: Seq::empty(),
            source: Seq::empty(),
            names: Seq::empty(),
            current: 0,
            installed: Seq::empty(),
            next_register: 0,
            result: Ok(()),
        },
        ActionView::WriteConfig(config_path(game_folder)),
    )
}

/// The next state of a launch, and the work it asks for, once the work asked
/// for last has been reported by `e`.
pub open spec fn transition(s: LaunchView, e: LaunchEvent) -> (LaunchView, ActionView) {
    let g = s.game_folder;
    let p = s.env.wineprefix@;
    match s.phase {
        Phase::WriteConfig => match e {
            LaunchEvent::Failed(m) => finish(s, Err(ErrorView::ConfigWrite(m@))),
            _ => (LaunchView { phase: Phase::ProbeMainExe, ..s }, ActionView::CheckExists(main_exe(g))),
        },
        Phase::ProbeMainExe => if said_exists(e) {
            to_prefix(LaunchView { exe: main_exe(g), ..s })
        } else {
            (LaunchView { phase: Phase::ProbeCliExe, ..s }, ActionView::CheckExists(cli_exe(g)))
        },
        Phase::ProbeCliExe => if said_exists(e) {
            to_prefix(LaunchView { exe: cli_exe(g), ..s })
        } else {
            finish(s, Err(ErrorView::ExecutableNotFound))
        },
        Phase::ProbePrefix => if said_exists(e) {
            (LaunchView { phase: Phase::ProbeSystemReg, ..s }, ActionView::CheckExists(system_reg(p)))
        } else {
            to_create_prefix(s)
        },
        Phase::ProbeSystemReg => if said_exists(e) {
            to_wineserver(s)
        } else {
            to_create_prefix(s)
        },
        Phase::CreatePrefix => (
            LaunchView { phase: Phase::Wineboot, ..s },
            ActionView::Run(wineboot_view(s.steamos, s.env)),
        ),
        Phase::Wineboot => (LaunchView { phase: Phase::WaitInit, ..s }, ActionView::Sleep(init_wait(s.steamos))),
        Phase::WaitInit => if s.steamos {
            (LaunchView { phase: Phase::FlatpakOverride, ..s }, ActionView::Run(flatpak_override_view(g)))
        } else {
            to_fonts(s)
        },
        Phase::FlatpakOverride => to_fonts(s),
        Phase::ProbeFontDir => if said_exists(e) {
            to_dest(s, joined(g, "Font"@))
        } else {
            (LaunchView { phase: Phase::ProbeFontsDir, ..s }, ActionView::CheckExists(joined(g, "fonts"@)))
        },
        Phase::ProbeFontsDir => if said_exists(e) {
            to_dest(s, joined(g, "fonts"@))
        } else {
            to_wineserver(s)
        },
        Phase::ProbeFontsDest => if said_exists(e) {
            to_clear(s)
        } else {
            (LaunchView { phase: Phase::CreateFontsDest, ..s }, ActionView::CreateDirAll(fonts_dest(p)))
        },
        Phase::CreateFontsDest => if e is Failed {
            to_wineserver(s)
        } else {
            to_clear(s)
        },
        Phase::ClearFontsDest => (LaunchView { phase: Phase::ListFonts, ..s }, ActionView::ListDir(s.source)),
        Phase::ListFonts => copy_from(LaunchView { names: listed_names(e), installed: Seq::empty(), ..s }, 0),
        Phase::CopyFont => {
            let t = if said_succeeded(e) {
                LaunchView { installed: s.installed.push(s.names[s.current]), ..s }
            } else {
                s
            };
            copy_from(t, s.current + 1)
        },
        Phase::RegisterFont => register_from(s, s.next_register + 1),
        Phase::StartWineserver => (LaunchView { phase: Phase::WaitServer, ..s }, ActionView::Sleep(1)),
        Phase::WaitServer => (
            LaunchView { phase: Phase::LaunchGame, ..s },
            ActionView::Spawn(game_view(s.steamos, s.env, s.exe, g)),
        ),
        Phase::LaunchGame => match e {
            LaunchEvent::Failed(m) => finish(s, Err(ErrorView::Spawn(m@))),
            _ => finish(s, Ok(())),
        },
        Phase::Finished => (s, ActionView::Finish(s.result)),
    }
}

/// What holds of every launch state: at most two fonts are installed, all of
/// them allowed; a font being copied is an allowed one and there is room for
/// it; a font being registered is one installed.
pub open spec fn launch_inv(s: LaunchView) -> bool {
    &&& s.installed.len() <= 2
    &&& forall|k: int| 0 <= k < s.installed.len() ==> font_allowed(#[trigger] s.installed[k])
    &&& s.phase == Phase::CopyFont ==> {
        &&& 0 <= s.current < s.names.len()
        &&& font_allowed(s.names[s.current])
        &&& s.installed.len() < 2
    }
    &&& s.phase == Phase::RegisterFont ==> 0 <= s.next_register < s.installed.len()
}

/// The launch of the game, driven step by step: each step takes the report
/// of the work asked for last and asks for the next.
pub struct Launch {
    phase: Phase,
    game_folder: String,
    steamos: bool,
    env: WineEnv,
    exe: String,
    source: String,
    names: Vec<String>,
    current: usize,
    installed: Vec<String>,
    next_register: usize,
    result: Result<(), LaunchError>,
}

impl View for Launch {
    type V = LaunchView;

    closed spec fn view(&self) -> LaunchView {
        LaunchView {
            phase: self.phase,
            game_folder: self.game_folder@,
            steamos: self.steamos,
            env: self.env,
            exe: self.exe@,
            source: self.source@,
            names: texts(self.names@),
            current: self.current as int,
            installed: texts(self.installed@),
            next_register: self.next_register as int,
            result: result_view(self.result),
        }
    }
}

proof fn lemma_first_allowed_bounds(names: Seq<Seq<char>>, from: int)
    requires
        0 <= from,
    ensures
        first_allowed_from(names, from) <= names.len(),
        from <= names.len() ==> from <= first_allowed_from(names, from),
        first_allowed_from(names, from) < names.len() ==> font_allowed(names[first_allowed_from(names, from)]),
    decreases names.len() - from,
{
    if from < names.len() && !font_allowed(names[from]) {
        lemma_first_allowed_bounds(names, from + 1);
    }
}

proof fn lemma_first_registrable_bounds(files: Seq<Seq<char>>, from: int)
    requires
        0 <= from,
    ensures
        first_registrable_from(files, from) <= files.len(),
        from <= files.len() ==> from <= first_registrable_from(files, from),
        first_registrable_from(files, from) < files.len() ==> registry_name_for(
            lowercase(files[first_registrable_from(files, from)]),
        ) is Some,
        forall|k: int|
            from <= k < first_registrable_from(files, from) ==> registry_name_for(
                lowercase(#[trigger] files[k]),
            ) is None,
    decreases files.len() - from,
{
    if from < files.len() && registry_name_for(lowercase(files[from])) is None {
        lemma_first_registrable_bounds(files, from + 1);
    }
}

impl Launch {
    /// Well-formed: the launch invariant holds of the launch's view.
    pub open spec fn wf(&self) -> bool {
        launch_inv(self@)
    }

    /// The launch of the game in `game_folder`, and the first work it asks
    /// for: writing the configuration.
    pub fn new(game_folder: String, steamos: bool, env: WineEnv) -> (r: (Launch, LaunchAction))
        ensures
            r.0.wf(),
            (r.0@, r.1@) == initial(game_folder@, steamos, env),
    {
        let path = join_path(game_folder.as_str(), "config.json");
        let l = Launch {
            phase: Phase::WriteConfig,
            game_folder,
            steamos,
            env,
            exe: String::new(),
            source: String::new(),
            names: Vec::new(),
            current: 0,
            installed: Vec::new(),
            next_register: 0,
            result: Ok(()),
        };
        assert(l@.names =~= Seq::<Seq<char>>::empty());
        assert(l@.installed =~= Seq::<Seq<char>>::empty());
        (l, LaunchAction::WriteConfig { path })
    }

    /// The phase the launch is in.
    pub fn phase(&self) -> (r: Phase)
        ensures
            r == self@.phase,
    {
        self.phase
    }

    /// The fonts installed so far, in the order they were copied.
    pub fn installed_fonts(&self) -> (r: &Vec<String>)
        ensures
            texts(r@) == self@.installed,
    {
        &self.installed
    }

    fn go(&mut self, phase: Phase)
        ensures
            final(self)@ == (LaunchView { phase, ..old(self)@ }),
    {
        self.phase = phase;
    }

    fn finish_with(&mut self, result: Result<(), LaunchError>) -> (r: LaunchAction)
        requires
            launch_inv(old(self)@),
        ensures
            launch_inv(final(self)@),
            (final(self)@, r@) == finish(old(self)@, result_view(result)),
    {
        let copy = copy_result(&result);
        self.result = result;
        self.phase = Phase::Finished;
        LaunchAction::Finish { result: copy }
    }

    fn to_wineserver(&mut self) -> (r: LaunchAction)
        requires
            launch_inv(old(self)@),
        ensures
            launch_inv(final(self)@),
            (final(self)@, r@) == to_wineserver(old(self)@),
    {
        self.phase = Phase::StartWineserver;
        LaunchAction::Spawn { command: wineserver_command(self.steamos, &self.env) }
    }

    fn to_fonts(&mut self) -> (r: LaunchAction)
        requires
            launch_inv(old(self)@),
        ensures
            launch_inv(final(self)@),
            (final(self)@, r@) == to_fonts(old(self)@),
    {
        self.phase = Phase::ProbeFontDir;
        LaunchAction::CheckExists { path: join_path(self.game_folder.as_str(), "Font") }
    }

    fn to_dest(&mut self, source: String) -> (r: LaunchAction)
        requires
            launch_inv(old(self)@),
        ensures
            launch_inv(final(self)@),
            (final(self)@, r@) == to_dest(old(self)@, source@),
    {
        self.phase = Phase::ProbeFontsDest;
        self.source = source;
        LaunchAction::CheckExists { path: join_path(self.env.wineprefix.as_str(), "drive_c/windows/Fonts") }
    }

    fn to_clear(&mut self) -> (r: LaunchAction)
        requires
            launch_inv(old(self)@),
        ensures
            launch_inv(final(self)@),
            (final(self)@, r@) == to_clear(old(self)@),
    {
        self.phase = Phase::ClearFontsDest;
        LaunchAction::RemoveFilesIn { dir: join_path(self.env.wineprefix.as_str(), "drive_c/windows/Fonts") }
    }

    fn register_from(&mut self, from: usize) -> (r: LaunchAction)
        requires
            launch_inv(old(self)@),
            old(self)@.phase != Phase::CopyFont,
        ensures
            launch_inv(final(self)@),
            (final(self)@, r@) == register_from(old(self)@, from as int),
    {
        let j = first_registrable(&self.installed, from);
        proof {
            lemma_first_registrable_bounds(texts(self.installed@), from as int);
        }
        if j < self.installed.len() {
            assert(texts(self.installed@)[j as int] == self.installed@[j as int]@);
            let name = font_registry_name(self.installed[j].as_str());
            let name = match name {
                Some(n) => n,
                None => String::new(),
            };
            let command = font_registration_command(
                self.steamos,
                self.env.wineprefix.as_str(),
                name.as_str(),
                self.installed[j].as_str(),
            );
            self.phase = Phase::RegisterFont;
            self.next_register = j;
            LaunchAction::Run { command }
        } else {
            self.to_wineserver()
        }
    }

    fn copy_from(&mut self, from: usize) -> (r: LaunchAction)
        requires
            launch_inv(LaunchView { phase: Phase::ListFonts, ..old(self)@ }),
        ensures
            launch_inv(final(self)@),
            (final(self)@, r@) == copy_from(old(self)@, from as int),
    {
        self.phase = Phase::ListFonts;
        let i = first_allowed(&self.names, from);
        proof {
            lemma_first_allowed_bounds(texts(self.names@), from as int);
        }
        if i < self.names.len() && self.installed.len() < 2 {
            assert(texts(self.names@)[i as int] == self.names@[i as int]@);
            let from_path = join_path(self.source.as_str(), self.names[i].as_str());
            let dest = join_path(self.env.wineprefix.as_str(), "drive_c/windows/Fonts");
            let to_path = join_path(dest.as_str(), self.names[i].as_str());
            self.phase = Phase::CopyFont;
            self.current = i;
            LaunchAction::CopyFile { from: from_path, to: to_path }
        } else if self.installed.len() == 0 {
            self.to_wineserver()
        } else {
            self.register_from(0)
        }
    }

    /// Takes the report of the work asked for last, and asks for the next.
    pub fn step(&mut self, event: LaunchEvent) -> (r: LaunchAction)
        requires
            old(self).wf(),
        ensures
            final(self).wf(),
            (final(self)@, r@) == transition(old(self)@, event),
    {
        match self.phase {
            Phase::WriteConfig => match event {
                LaunchEvent::Failed(m) => self.finish_with(Err(LaunchError::ConfigWrite(m))),
                _ => {
                    self.go(Phase::ProbeMainExe);
                    LaunchAction::CheckExists { path: join_path(self.game_folder.as_str(), "mhf-iel.exe") }
                },
            },
            Phase::ProbeMainExe => {
                if let LaunchEvent::Exists(true) = event {
                    self.exe = join_path(self.game_folder.as_str(), "mhf-iel.exe");
                    self.go(Phase::ProbePrefix);
                    LaunchAction::CheckExists { path: self.env.wineprefix.clone() }
                } else {
                    self.go(Phase::ProbeCliExe);
                    LaunchAction::CheckExists { path: join_path(self.game_folder.as_str(), "mhf-iel-cli.exe") }
                }
            },
            Phase::ProbeCliExe => {
                if let LaunchEvent::Exists(true) = event {
                    self.exe = join_path(self.game_folder.as_str(), "mhf-iel-cli.exe");
                    self.go(Phase::ProbePrefix);
                    LaunchAction::CheckExists { path: self.env.wineprefix.clone() }
                } else {
                    self.finish_with(Err(LaunchError::ExecutableNotFound))
                }
            },
            Phase::ProbePrefix => {
                if let LaunchEvent::Exists(true) = event {
                    self.go(Phase::ProbeSystemReg);
                    LaunchAction::CheckExists { path: join_path(self.env.wineprefix.as_str(), "system.reg") }
                } else {
                    self.go(Phase::CreatePrefix);
                    LaunchAction::CreateDirAll { path: self.env.wineprefix.clone() }
                }
            },
            Phase::ProbeSystemReg => {
                if let LaunchEvent::Exists(true) = event {
                    self.to_wineserver()
                } else {
                    self.go(Phase::CreatePrefix);
                    LaunchAction::CreateDirAll { path: self.env.wineprefix.clone() }
                }
            },
            Phase::CreatePrefix => {
                self.go(Phase::Wineboot);
                LaunchAction::Run { command: wineboot_command(self.steamos, &self.env) }
            },
            Phase::Wineboot => {
                self.go(Phase::WaitInit);
                LaunchAction::Sleep { seconds: if self.steamos { 10 } else { 3 } }
            },
            Phase::WaitInit => {
                if self.steamos {
                    self.go(Phase::FlatpakOverride);
                    LaunchAction::Run { command: flatpak_override_command(self.game_folder.as_str()) }
                } else {
                    self.to_fonts()
                }
            },
            Phase::FlatpakOverride => self.to_fonts(),
            Phase::ProbeFontDir => {
                if let LaunchEvent::Exists(true) = event {
                    let source = join_path(self.game_folder.as_str(), "Font");
                    self.to_dest(source)
                } else {
                    self.go(Phase::ProbeFontsDir);
                    LaunchAction::CheckExists { path: join_path(self.game_folder.as_str(), "fonts") }
                }
            },
            Phase::ProbeFontsDir => {
                if let LaunchEvent::Exists(true) = event {
                    let source = join_path(self.game_folder.as_str(), "fonts");
                    self.to_dest(source)
                } else {
                    self.to_wineserver()
                }
            },
            Phase::ProbeFontsDest => {
                if let LaunchEvent::Exists(true) = event {
                    self.to_clear()
                } else {
                    self.go(Phase::CreateFontsDest);
                    LaunchAction::CreateDirAll {
                        path: join_path(self.env.wineprefix.as_str(), "drive_c/windows/Fonts"),
                    }
                }
            },
            Phase::CreateFontsDest => {
                if let LaunchEvent::Failed(_) = event {
                    self.to_wineserver()
                } else {
                    self.to_clear()
                }
            },
            Phase::ClearFontsDest => {
                self.go(Phase::ListFonts);
                LaunchAction::ListDir { dir: self.source.clone() }
            },
            Phase::ListFonts => {
                let names = match event {
                    LaunchEvent::Listed(v) => v,
                    _ => Vec::new(),
                };
                self.names = names;
                self.installed = Vec::new();
                assert(texts(self.installed@) =~= Seq::<Seq<char>>::empty());
                self.copy_from(0)
            },
            Phase::CopyFont => {
                let i = self.current;
                let n = self.names.len();
                assert(texts(self.names@).len() == self.names@.len());
                assert(i < n);
                if let LaunchEvent::Succeeded = event {
                    let name = self.names[i].clone();
                    let ghost before = texts(self.installed@);
                    self.installed.push(name);
                    assert(texts(self.installed@) =~= before.push(texts(self.names@)[i as int]));
                }
                self.copy_from(i + 1)
            },
            Phase::RegisterFont => {
                let k = self.next_register;
                self.register_from(k + 1)
            },
            Phase::StartWineserver => {
                self.go(Phase::WaitServer);
                LaunchAction::Sleep { seconds: 1 }
            },
            Phase::WaitServer => {
                self.go(Phase::LaunchGame);
                LaunchAction::Spawn {
                    command: game_command(
                        self.steamos,
                        &self.env,
                        self.exe.as_str(),
                        self.game_folder.as_str(),
                    ),
                }
            },
            Phase::LaunchGame => match event {
                LaunchEvent::Failed(m) => self.finish_with(Err(LaunchError::Spawn(m))),
                _ => self.finish_with(Ok(())),
            },
            Phase::Finished => LaunchAction::Finish { result: copy_result(&self.result) },
        }
    }
}

/// The order in which a launch goes through its phases.
pub open spec fn rank(p: Phase) -> nat {
    match p {
        Phase::WriteConfig => 0,
        Phase::ProbeMainExe => 1,
        Phase::ProbeCliExe => 2,
        Phase::ProbePrefix => 3,
        Phase::ProbeSystemReg => 4,
        Phase::CreatePrefix => 5,
        Phase::Wineboot => 6,
        Phase::WaitInit => 7,
        Phase::FlatpakOverride => 8,
        Phase::ProbeFontDir => 9,
        Phase::ProbeFontsDir => 10,
        Phase::ProbeFontsDest => 11,
        Phase::CreateFontsDest => 12,
        Phase::ClearFontsDest => 13,
        Phase::ListFonts => 14,
        Phase::CopyFont => 15,
        Phase::RegisterFont => 16,
        Phase::StartWineserver => 17,
        Phase::WaitServer => 18,
        Phase::LaunchGame => 19,
        Phase::Finished => 20,
    }
}

/// The position within the font loops: the file being copied, or the font
/// being registered.
pub open spec fn position(s: LaunchView) -> int {
    if s.phase == Phase::CopyFont {
        s.current
    } else if s.phase == Phase::RegisterFont {
        s.next_register
    } else {
        0
    }
}

/// Every step keeps the launch invariant: never more than two fonts, all of
/// them allowed.
pub proof fn law_invariant_kept(s: LaunchView, e: LaunchEvent)
    requires
        launch_inv(s),
    ensures
        launch_inv(transition(s, e).0),
{
    let t = if s.phase == Phase::CopyFont && said_succeeded(e) {
        LaunchView { installed: s.installed.push(s.names[s.current]), ..s }
    } else {
        s
    };
    lemma_first_allowed_bounds(listed_names(e), 0);
    lemma_first_registrable_bounds(s.installed, 0);
    lemma_first_registrable_bounds(t.installed, 0);
    if s.phase == Phase::CopyFont {
        lemma_first_allowed_bounds(s.names, s.current + 1);
    }
    if s.phase == Phase::RegisterFont {
        lemma_first_registrable_bounds(s.installed, s.next_register + 1);
    }
    if s.phase == Phase::CopyFont && said_succeeded(e) {
        assert forall|k: int| 0 <= k < t.installed.len() implies font_allowed(#[trigger] t.installed[k]) by {
            if k < s.installed.len() {
                assert(t.installed[k] == s.installed[k]);
            }
        }
    }
}

/// A launch only ever copies allowed fonts, only into the prefix's font
/// folder under the same name, and only while fewer than two are installed.
pub proof fn law_only_allowed_fonts_copied(s: LaunchView, e: LaunchEvent)
    requires
        launch_inv(s),
    ensures
        transition(s, e).1 matches ActionView::CopyFile(from, to) ==> {
            let t = transition(s, e).0;
            let n = t.names[t.current];
            &&& font_allowed(n)
            &&& t.installed.len() < max_fonts()
            &&& from == joined(t.source, n)
            &&& to == joined(fonts_dest(t.env.wineprefix@), n)
        },
{
    law_invariant_kept(s, e);
}

/// Fonts are copied only after the prefix's font folder was emptied: the
/// file listing follows the emptying, and copies follow the listing.
pub proof fn law_fonts_cleaned_before_copy(s: LaunchView, e: LaunchEvent)
    ensures
        transition(s, e).0.phase == Phase::ListFonts ==> s.phase == Phase::ClearFontsDest,
        transition(s, e).0.phase == Phase::CopyFont ==> s.phase == Phase::ListFonts || s.phase
            == Phase::CopyFont,
{
}

/// On SteamOS every Wine command goes through the Wine Flatpak: run directly
/// by `flatpak`, or by `setsid` with `flatpak` as the program it starts.
pub proof fn law_steamos_uses_flatpak(s: LaunchView, e: LaunchEvent)
    requires
        s.steamos,
    ensures
        transition(s, e).1 matches ActionView::Run(c) ==> c.program == "flatpak"@,
        transition(s, e).1 matches ActionView::Spawn(c) ==> c.program == "flatpak"@ || (c.program
            == "setsid"@ && c.args.len() > 0 && c.args[0] == "flatpak"@),
{
}

/// Elsewhere the system Wine tools run, never the Flatpak.
pub proof fn law_linux_uses_system_wine(s: LaunchView, e: LaunchEvent)
    requires
        !s.steamos,
    ensures
        transition(s, e).1 matches ActionView::Run(c) ==> c.program != "flatpak"@,
        transition(s, e).1 matches ActionView::Spawn(c) ==> c.program == "wineserver"@ || (c.program
            == "setsid"@ && c.args.len() > 0 && c.args[0] == "wine"@),
{
    reveal_strlit("flatpak");
    reveal_strlit("wine");
    reveal_strlit("wineboot");
    assert("wine"@ != "flatpak"@) by {
        assert("wine"@.len() != "flatpak"@.len());
    }
    assert("wineboot"@ != "flatpak"@) by {
        assert("wineboot"@[0] != "flatpak"@[0]);
    }
}

/// The game executable is `mhf-iel.exe` where it exists, else
/// `mhf-iel-cli.exe`; where neither does, the launch fails. Once chosen, it
/// is the one the game is started with.
pub proof fn law_executable_choice(s: LaunchView, e: LaunchEvent)
    ensures
        s.phase == Phase::ProbeMainExe && said_exists(e) ==> transition(s, e).0.exe == main_exe(
            s.game_folder,
        ),
        s.phase == Phase::ProbeMainExe && !said_exists(e) ==> transition(s, e).1 == ActionView::CheckExists(
            cli_exe(s.game_folder),
        ),
        s.phase == Phase::ProbeCliExe && said_exists(e) ==> transition(s, e).0.exe == cli_exe(
            s.game_folder,
        ),
        s.phase == Phase::ProbeCliExe && !said_exists(e) ==> transition(s, e).1 == ActionView::Finish(
            Err(ErrorView::ExecutableNotFound),
        ),
        s.phase != Phase::ProbeMainExe && s.phase != Phase::ProbeCliExe ==> transition(s, e).0.exe
            == s.exe,
        s.phase == Phase::WaitServer ==> transition(s, e).1 == ActionView::Spawn(
            game_view(s.steamos, s.env, s.exe, s.game_folder),
        ),
{
}

/// The Wine prefix is initialised exactly when it, or its `system.reg`, is
/// missing; a complete prefix goes straight to the Wine server.
pub proof fn law_prefix_initialised_when_incomplete(s: LaunchView, e: LaunchEvent)
    ensures
        s.phase == Phase::ProbePrefix && !said_exists(e) ==> transition(s, e).1 == ActionView::CreateDirAll(
            s.env.wineprefix@,
        ),
        s.phase == Phase::ProbeSystemReg && !said_exists(e) ==> transition(s, e).1
            == ActionView::CreateDirAll(s.env.wineprefix@),
        s.phase == Phase::ProbeSystemReg && said_exists(e) ==> transition(s, e).1 == ActionView::Spawn(
            wineserver_view(s.steamos, s.env),
        ),
        s.phase == Phase::CreatePrefix ==> transition(s, e).1 == ActionView::Run(
            wineboot_view(s.steamos, s.env),
        ),
{
}

/// A configuration that cannot be written ends the launch with that error,
/// and a finished launch stays finished, reporting the same outcome.
pub proof fn law_failures_end_the_launch(s: LaunchView, e: LaunchEvent)
    ensures
        s.phase == Phase::WriteConfig && e is Failed ==> transition(s, e).0.phase == Phase::Finished
            && transition(s, e).1 == ActionView::Finish(Err(ErrorView::ConfigWrite(e->Failed_0@))),
        s.phase == Phase::Finished ==> transition(s, e) == (s, ActionView::Finish(s.result)),
{
}

/// Every step moves the launch on: to a later phase, or, within the font
/// loops, to a later position in a list that stays the same. As the phases
/// and the lists are finite, every launch finishes.
pub proof fn law_progress(s: LaunchView, e: LaunchEvent)
    requires
        launch_inv(s),
        s.phase != Phase::Finished,
    ensures
        ({
            let t = transition(s, e).0;
            ||| rank(t.phase) > rank(s.phase)
            ||| {
                &&& t.phase == s.phase
                &&& position(t) > position(s)
                &&& t.names == s.names
                &&& (t.phase == Phase::RegisterFont ==> t.installed == s.installed)
                &&& position(t) < if t.phase == Phase::CopyFont {
                    t.names.len() as int
                } else {
                    t.installed.len() as int
                }
            }
        }),
{
    law_invariant_kept(s, e);
    if s.phase == Phase::CopyFont {
        lemma_first_allowed_bounds(s.names, s.current + 1);
    }
    if s.phase == Phase::RegisterFont {
        lemma_first_registrable_bounds(s.installed, s.next_register + 1);
    }
}

/// A launch starts in a state that keeps the invariant.
pub proof fn law_initial_inv(game_folder: Seq<char>, steamos: bool, env: WineEnv)
    ensures
        launch_inv(initial(game_folder, steamos, env).0),
{
}

/// A launch reports success only once the game was asked to start and
/// starting it did not fail.
pub proof fn law_success_means_game_started(s: LaunchView, e: LaunchEvent)
    requires
        s.phase != Phase::Finished,
        transition(s, e).1 == ActionView::Finish(Ok(())),
    ensures
        s.phase == Phase::LaunchGame,
        !(e is Failed),
{
}

/// The prefix is created only where it, or its `system.reg`, was reported
/// missing; a prefix reported present has its `system.reg` checked next, on
/// every system.
pub proof fn law_existing_prefix_checks_system_reg(s: LaunchView, e: LaunchEvent)
    ensures
        s.phase == Phase::ProbePrefix && said_exists(e) ==> {
            &&& transition(s, e).0.phase == Phase::ProbeSystemReg
            &&& transition(s, e).1 == ActionView::CheckExists(joined(s.env.wineprefix@, "system.reg"@))
        },
        transition(s, e).0.phase == Phase::CreatePrefix ==> {
            &&& s.phase == Phase::ProbePrefix || s.phase == Phase::ProbeSystemReg
            &&& !said_exists(e)
        },
        transition(s, e).1 matches ActionView::CreateDirAll(p) && p == s.env.wineprefix@ && s.phase
            != Phase::ProbeFontsDest ==> !said_exists(e),
{
}

/// When font copying ends, every installed font that has a registry name
/// gets registered: the launch goes on to the Wine server straight from the
/// copies only where no installed font has one; otherwise it registers the
/// first such font, under its family name and file.
pub proof fn law_installed_fonts_are_registered(s: LaunchView, e: LaunchEvent)
    requires
        launch_inv(s),
        s.phase == Phase::ListFonts || s.phase == Phase::CopyFont,
    ensures
        ({
            let (t, a) = transition(s, e);
            &&& t.phase == Phase::StartWineserver ==> forall|k: int|
                0 <= k < t.installed.len() ==> registry_name_for(lowercase(#[trigger] t.installed[k])) is None
            &&& t.phase == Phase::RegisterFont ==> {
                let j = t.next_register;
                &&& 0 <= j < t.installed.len()
                &&& forall|k: int| 0 <= k < j ==> registry_name_for(lowercase(#[trigger] t.installed[k])) is None
                &&& registry_name_for(lowercase(t.installed[j])) is Some
                &&& a == ActionView::Run(
                    font_registration_view(
                        s.steamos,
                        s.env.wineprefix@,
                        registry_name_for(lowercase(t.installed[j]))->0,
                        t.installed[j],
                    ),
                )
            }
        }),
{
    let t0 = if s.phase == Phase::CopyFont && said_succeeded(e) {
        LaunchView { installed: s.installed.push(s.names[s.current]), ..s }
    } else if s.phase == Phase::ListFonts {
        LaunchView { names: listed_names(e), installed: Seq::empty(), ..s }
    } else {
        s
    };
    lemma_first_registrable_bounds(t0.installed, 0);
}

/// Registration goes through the installed fonts in order: the Wine server
/// starts only once no later installed font has a registry name.
pub proof fn law_registration_covers_all_fonts(s: LaunchView, e: LaunchEvent)
    requires
        launch_inv(s),
        s.phase == Phase::RegisterFont,
    ensures
        ({
            let (t, a) = transition(s, e);
            &&& t.installed == s.installed
            &&& t.phase == Phase::StartWineserver ==> forall|k: int|
                s.next_register < k < s.installed.len() ==> registry_name_for(
                    lowercase(#[trigger] s.installed[k]),
                ) is None
            &&& t.phase == Phase::RegisterFont ==> {
                &&& s.next_register < t.next_register < s.installed.len()
                &&& forall|k: int|
                    s.next_register < k < t.next_register ==> registry_name_for(
                        lowercase(#[trigger] s.installed[k]),
                    ) is None
            }
        }),
{
    lemma_first_registrable_bounds(s.installed, s.next_register + 1);
}

} // verus!
