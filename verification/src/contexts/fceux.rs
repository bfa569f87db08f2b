//! The FCEUX adapter.
//!
//! The working directory may hold one of four executable variants, probed in
//! a fixed priority order; which one is found decides the command name, the
//! argument dialect, and where the settings file must be staged. Windows
//! builds run through a compatibility layer on a Unix host, and the
//! emulator's per-user configuration is pinned to a subdirectory of the
//! working directory through a home-directory override.

use vstd::prelude::*;
use vstd::string::*;

use crate::{Error, ErrorV, EmulatorContext, Platform, prepare_view};
use crate::contexts::{spec_check_attachment, spec_first_some};
use crate::includes::{
    ActionV, FsAction, action_writes, apply_plan, lemma_plan_reapply_no_writes, plan_wf,
};
use crate::paths::{EmuPath, spec_is_absolute, spec_join};

verus! {

/// The executable variants the adapter can find in the working directory,
/// in probing priority order.
#[derive(Debug, Clone, Copy, PartialEq, Eq, Structural)]
pub enum FceuxExe {
    /// The native Unix binary, `fceux`.
    Native,
    /// The 32-bit Windows build, `fceux.exe`.
    Win32,
    /// The 64-bit Windows build, `fceux64.exe`.
    Win64,
    /// The Qt-based Windows build, `qfceux.exe`.
    Qt,
}

/// The file name of an executable variant.
pub open spec fn spec_exe_name(e: FceuxExe) -> Seq<char> {
    match e {
        FceuxExe::Native => "fceux"@,
        FceuxExe::Win32 => "fceux.exe"@,
        FceuxExe::Win64 => "fceux64.exe"@,
        FceuxExe::Qt => "qfceux.exe"@,
    }
}

/// The file name of an executable variant.
pub fn exe_name(e: FceuxExe) -> (r: String)
    ensures
        r@ == spec_exe_name(e),
{
    match e {
        FceuxExe::Native => "fceux".to_owned(),
        FceuxExe::Win32 => "fceux.exe".to_owned(),
        FceuxExe::Win64 => "fceux64.exe".to_owned(),
        FceuxExe::Qt => "qfceux.exe".to_owned(),
    }
}

/// Which of the four candidate executables the working directory holds.
#[derive(Debug, Clone, Copy, PartialEq, Eq, Structural)]
pub struct FceuxProbe {
    /// `fceux` names a regular file.
    pub native: bool,
    /// `fceux.exe` names a regular file.
    pub win32: bool,
    /// `fceux64.exe` names a regular file.
    pub win64: bool,
    /// `qfceux.exe` names a regular file.
    pub qt: bool,
}

/// The candidate an adapter drives: the first present one, in the order
/// native, 32-bit, 64-bit, Qt.
pub open spec fn spec_select_exe(probe: FceuxProbe) -> Option<FceuxExe> {
    if probe.native {
        Option::Some(FceuxExe::Native)
    } else if probe.win32 {
        Option::Some(FceuxExe::Win32)
    } else if probe.win64 {
        Option::Some(FceuxExe::Win64)
    } else if probe.qt {
        Option::Some(FceuxExe::Qt)
    } else {
        Option::None
    }
}

/// The filesystem facts FCEUX preparation decides on: whether each attached
/// path names an existing regular file.
#[derive(Debug, Clone, Copy, PartialEq, Eq, Structural)]
pub struct FceuxFacts {
    pub config_is_file: bool,
    pub movie_is_file: bool,
    pub lua_is_file: bool,
    pub rom_is_file: bool,
}

/// A launch context for the FCEUX emulator.
#[derive(Debug, Clone, PartialEq)]
pub struct FceuxContext {
    pub config: Option<EmuPath>,
    pub movie: Option<EmuPath>,
    pub lua: Option<EmuPath>,
    pub rom: Option<EmuPath>,
    /// The executable variant found at construction time.
    pub executable: FceuxExe,
    pub working_dir: EmuPath,
}

impl FceuxContext {
    /// The settings-file step of preparation: the file must exist; for the
    /// native binary it is staged under the home subdirectory, for the Qt
    /// build beside the executable, and for the other Windows builds it is
    /// passed on the command line and must then be absolute.
    pub open spec fn spec_config_step(c: FceuxContext, f: FceuxFacts) -> Result<
        Seq<ActionV>,
        ErrorV,
    > {
        match c.config {
            Option::Some(p) => if !f.config_is_file {
                Err(ErrorV::MissingConfig(p@))
            } else {
                match c.executable {
                    FceuxExe::Native => Ok(
                        seq![
                            ActionV::EnsureDir { dest: spec_join(c.working_dir@, ".fceux/"@) },
                            ActionV::CopyFile {
                                src: p@,
                                dest: spec_join(
                                    spec_join(c.working_dir@, ".fceux/"@),
                                    "fceux.cfg"@,
                                ),
                            },
                        ],
                    ),
                    FceuxExe::Qt => Ok(
                        seq![
                            ActionV::CopyFile {
                                src: p@,
                                dest: spec_join(c.working_dir@, "fceux.cfg"@),
                            },
                        ],
                    ),
                    _ => if !spec_is_absolute(p@) {
                        Err(ErrorV::AbsolutePathFailed)
                    } else {
                        Ok(Seq::empty())
                    },
                }
            },
            Option::None => Ok(Seq::empty()),
        }
    }

    /// The first validation failure among movie, lua and rom, which must
    /// name existing regular files and be absolute whatever the dialect.
    pub open spec fn spec_strict_errors(c: FceuxContext, f: FceuxFacts) -> Option<ErrorV> {
        spec_first_some(
            spec_check_attachment(c.movie, f.movie_is_file, |s| ErrorV::MissingMovie(s)),
            spec_first_some(
                spec_check_attachment(c.lua, f.lua_is_file, |s| ErrorV::MissingLua(s)),
                spec_check_attachment(c.rom, f.rom_is_file, |s| ErrorV::MissingRom(s)),
            ),
        )
    }

    /// What preparation returns: on a Windows host the native Unix binary is
    /// rejected as incompatible; then the settings-file step runs, then the
    /// strict checks of movie, lua and rom; on success the plan is whatever
    /// the settings-file step staged.
    pub open spec fn spec_prepare(c: FceuxContext, platform: Platform, f: FceuxFacts) -> Result<
        Seq<ActionV>,
        ErrorV,
    > {
        if platform == Platform::Windows && c.executable == FceuxExe::Native {
            Err(ErrorV::IncompatibleOSVersion)
        } else {
            match Self::spec_config_step(c, f) {
                Err(e) => Err(e),
                Ok(staging) => match Self::spec_strict_errors(c, f) {
                    Option::Some(e) => Err(e),
                    Option::None => Ok(staging),
                },
            }
        }
    }

    /// Creates a new context with default options.
    ///
    /// `dir_ok` says whether the working directory exists and is a
    /// directory; `probe` which candidate executables it holds. Construction
    /// fails unless the directory is sound and some candidate is present.
    pub fn new(working_dir: EmuPath, dir_ok: bool, probe: FceuxProbe) -> (r: Result<Self, Error>)
        ensures
            !dir_ok ==> (r matches Err(e) && e@ == ErrorV::MissingExecutable(working_dir@)),
            dir_ok && spec_select_exe(probe) is None ==> (r matches Err(e) && e@
                == ErrorV::MissingExecutable(spec_join(working_dir@, "fceux"@))),
            dir_ok && spec_select_exe(probe) is Some ==> (r matches Ok(c) && c.config is None
                && c.movie is None && c.lua is None && c.rom is None && Some(c.executable)
                == spec_select_exe(probe) && c.working_dir@ == working_dir@),
    {
        if !dir_ok {
            return Err(Error::MissingExecutable(working_dir));
        }
        let executable = if probe.native {
            FceuxExe::Native
        } else if probe.win32 {
            FceuxExe::Win32
        } else if probe.win64 {
            FceuxExe::Win64
        } else if probe.qt {
            FceuxExe::Qt
        } else {
            return Err(Error::MissingExecutable(working_dir.join("fceux")));
        };
        Ok(
            Self {
                config: None,
                movie: None,
                lua: None,
                rom: None,
                executable,
                working_dir,
            },
        )
    }

    /// The context with a settings file attached.
    pub fn with_config(self, config: EmuPath) -> (r: Self)
        ensures
            r.config matches Some(p) && p@ == config@,
            r.movie == self.movie,
            r.lua == self.lua,
            r.rom == self.rom,
            r.executable == self.executable,
            r.working_dir == self.working_dir,
    {
        Self { config: Some(config), ..self }
    }

    /// The context with a recorded-input file attached.
    pub fn with_movie(self, movie: EmuPath) -> (r: Self)
        ensures
            r.movie matches Some(p) && p@ == movie@,
            r.config == self.config,
            r.lua == self.lua,
            r.rom == self.rom,
            r.executable == self.executable,
            r.working_dir == self.working_dir,
    {
        Self { movie: Some(movie), ..self }
    }

    /// The context with a script file attached.
    pub fn with_lua(self, lua: EmuPath) -> (r: Self)
        ensures
            r.lua matches Some(p) && p@ == lua@,
            r.config == self.config,
            r.movie == self.movie,
            r.rom == self.rom,
            r.executable == self.executable,
            r.working_dir == self.working_dir,
    {
        Self { lua: Some(lua), ..self }
    }

    /// The context with a game image attached.
    pub fn with_rom(self, rom: EmuPath) -> (r: Self)
        ensures
            r.rom matches Some(p) && p@ == rom@,
            r.config == self.config,
            r.movie == self.movie,
            r.lua == self.lua,
            r.executable == self.executable,
            r.working_dir == self.working_dir,
    {
        Self { rom: Some(rom), ..self }
    }

    /// The name of the executable variant this context drives.
    pub fn determine_executable(&self) -> (r: Option<String>)
        ensures
            r matches Some(s) && s@ == spec_exe_name(self.executable),
    {
        Some(exe_name(self.executable))
    }

    /// Validates the attached paths and plans the staging of the settings
    /// file where the detected executable variant expects it.
    pub fn prepare(&mut self, platform: Platform, facts: &FceuxFacts) -> (r: Result<
        Vec<FsAction>,
        Error,
    >)
        ensures
            *final(self) == *old(self),
            prepare_view(r) == Self::spec_prepare(*old(self), platform, *facts),
    {
        if platform == Platform::Windows && self.executable == FceuxExe::Native {
            return Err(Error::IncompatibleOSVersion);
        }
        let mut plan: Vec<FsAction> = Vec::new();
        if let Some(p) = &self.config {
            if !facts.config_is_file {
                return Err(Error::MissingConfig(p.clone()));
            }
            match self.executable {
                FceuxExe::Native => {
                    let home = self.working_dir.join(".fceux/");
                    let dest = home.join("fceux.cfg");
                    plan.push(FsAction::EnsureDir { dest: home });
                    plan.push(FsAction::CopyFile { src: p.clone(), dest });
                },
                FceuxExe::Qt => {
                    let dest = self.working_dir.join("fceux.cfg");
                    plan.push(FsAction::CopyFile { src: p.clone(), dest });
                },
                _ => {
                    if !p.is_absolute() {
                        return Err(Error::AbsolutePathFailed);
                    }
                },
            }
        }
        if let Some(p) = &self.movie {
            if !facts.movie_is_file {
                return Err(Error::MissingMovie(p.clone()));
            }
            if !p.is_absolute() {
                return Err(Error::AbsolutePathFailed);
            }
        }
        if let Some(p) = &self.lua {
            if !facts.lua_is_file {
                return Err(Error::MissingLua(p.clone()));
            }
            if !p.is_absolute() {
                return Err(Error::AbsolutePathFailed);
            }
        }
        if let Some(p) = &self.rom {
            if !facts.rom_is_file {
                return Err(Error::MissingRom(p.clone()));
            }
            if !p.is_absolute() {
                return Err(Error::AbsolutePathFailed);
            }
        }
        proof {
            assert(plan.deep_view() =~= Self::spec_prepare(*old(self), platform, *facts)->Ok_0);
        }
        Ok(plan)
    }
}

impl EmulatorContext for FceuxContext {
    open spec fn spec_cmd_name(&self, platform: Platform) -> Seq<char> {
        if platform == Platform::Unix {
            if self.executable == FceuxExe::Native {
                "./fceux"@
            } else {
                "wine"@
            }
        } else {
            spec_exe_name(self.executable)
        }
    }

    open spec fn spec_args(&self, platform: Platform) -> Seq<Seq<char>> {
        let base: Seq<Seq<char>> = if platform == Platform::Unix && self.executable
            != FceuxExe::Native {
            seq![spec_exe_name(self.executable)]
        } else {
            Seq::empty()
        };
        let with_dialect = match self.executable {
            FceuxExe::Win32 | FceuxExe::Win64 => {
                let with_config = match self.config {
                    Option::Some(p) => base.push("-cfg"@).push(p@),
                    Option::None => base,
                };
                let with_movie = match self.movie {
                    Option::Some(p) => with_config.push("-playmovie"@).push(p@),
                    Option::None => with_config,
                };
                match self.lua {
                    Option::Some(p) => with_movie.push("-lua"@).push(p@),
                    Option::None => with_movie,
                }
            },
            FceuxExe::Native | FceuxExe::Qt => {
                let with_movie = match self.movie {
                    Option::Some(p) => base.push("--playmov"@).push(p@),
                    Option::None => base,
                };
                match self.lua {
                    Option::Some(p) => with_movie.push("--loadlua"@).push(p@),
                    Option::None => with_movie,
                }
            },
        };
        match self.rom {
            Option::Some(p) => with_dialect.push(p@),
            Option::None => with_dialect,
        }
    }

    open spec fn spec_env(&self, platform: Platform) -> Seq<(Seq<char>, Seq<char>)> {
        let base: Seq<(Seq<char>, Seq<char>)> = if platform == Platform::Unix && self.executable
            != FceuxExe::Native {
            seq![("WINEPREFIX"@, spec_join(self.working_dir@, ".wine/"@))]
        } else {
            Seq::empty()
        };
        base.push(("HOME"@, spec_join(self.working_dir@, ".fceux/"@)))
    }

    open spec fn spec_working_dir(&self) -> Seq<char> {
        self.working_dir@
    }

    fn cmd_name(&self, platform: Platform) -> (r: String) {
        if platform == Platform::Unix {
            match self.executable {
                FceuxExe::Native => "./fceux".to_owned(),
                _ => "wine".to_owned(),
            }
        } else {
            exe_name(self.executable)
        }
    }

    fn args(&self, platform: Platform) -> (r: Vec<String>) {
        let mut args: Vec<String> = Vec::new();
        if platform == Platform::Unix && !matches!(self.executable, FceuxExe::Native) {
            args.push(exe_name(self.executable));
        }
        match self.executable {
            FceuxExe::Win32 | FceuxExe::Win64 => {
                if let Some(config) = &self.config {
                    args.push("-cfg".to_owned());
                    args.push(config.as_str().to_owned());
                }
                if let Some(movie) = &self.movie {
                    args.push("-playmovie".to_owned());
                    args.push(movie.as_str().to_owned());
                }
                if let Some(lua) = &self.lua {
                    args.push("-lua".to_owned());
                    args.push(lua.as_str().to_owned());
                }
            },
            FceuxExe::Native | FceuxExe::Qt => {
                if let Some(movie) = &self.movie {
                    args.push("--playmov".to_owned());
                    args.push(movie.as_str().to_owned());
                }
                if let Some(lua) = &self.lua {
                    args.push("--loadlua".to_owned());
                    args.push(lua.as_str().to_owned());
                }
            },
        }
        if let Some(rom) = &self.rom {
            args.push(rom.as_str().to_owned());
        }
        proof {
            assert(args.deep_view() =~= self.spec_args(platform));
        }
        args
    }

    fn env(&self, platform: Platform) -> (r: Vec<(String, String)>) {
        let mut vars: Vec<(String, String)> = Vec::new();
        if platform == Platform::Unix && !matches!(self.executable, FceuxExe::Native) {
            let prefix = self.working_dir.join(".wine/");
            vars.push(("WINEPREFIX".to_owned(), prefix.into_string()));
        }
        let home = self.working_dir.join(".fceux/");
        vars.push(("HOME".to_owned(), home.into_string()));
        proof {
            assert(vars.deep_view() =~= self.spec_env(platform));
        }
        vars
    }

    fn working_dir(&self) -> (r: EmuPath) {
        self.working_dir.clone()
    }
}

/// With every attached path naming an existing regular file, and the
/// incompatible Windows-with-native-binary pairing set aside, preparation
/// fails with the absolute-path error exactly when an attached path that the
/// dialect passes on the command line is not absolute.
pub proof fn lemma_fceux_absolute_path_rejection(
    c: FceuxContext,
    platform: Platform,
    f: FceuxFacts,
)
    requires
        c.config is Some ==> f.config_is_file,
        c.movie is Some ==> f.movie_is_file,
        c.lua is Some ==> f.lua_is_file,
        c.rom is Some ==> f.rom_is_file,
        !(platform == Platform::Windows && c.executable == FceuxExe::Native),
    ensures
        (FceuxContext::spec_prepare(c, platform, f) matches Err(e) && e
            == ErrorV::AbsolutePathFailed) <==> {
            ||| (c.config matches Some(p) && (c.executable == FceuxExe::Win32 || c.executable
                == FceuxExe::Win64) && !spec_is_absolute(p@))
            ||| (c.movie matches Some(p) && !spec_is_absolute(p@))
            ||| (c.lua matches Some(p) && !spec_is_absolute(p@))
            ||| (c.rom matches Some(p) && !spec_is_absolute(p@))
        },
{
}

/// Staging the settings file is idempotent: once the plan of a successful
/// preparation has been carried out, carrying the same plan out again — as a
/// second preparation of an equivalent context yields it — writes nothing.
pub proof fn lemma_fceux_staging_idempotent(
    c: FceuxContext,
    platform: Platform,
    f: FceuxFacts,
    files: Map<Seq<char>, Seq<u8>>,
)
    requires
        FceuxContext::spec_prepare(c, platform, f) is Ok,
    ensures
        ({
            let plan = FceuxContext::spec_prepare(c, platform, f)->Ok_0;
            let staged = apply_plan(files, plan);
            &&& forall|i: int| 0 <= i < plan.len() ==> !action_writes(staged, #[trigger] plan[i])
            &&& apply_plan(staged, plan) == staged
        }),
{
    let plan = FceuxContext::spec_prepare(c, platform, f)->Ok_0;
    assert(plan_wf(plan));
    lemma_plan_reapply_no_writes(files, plan);
}

} // verus!
