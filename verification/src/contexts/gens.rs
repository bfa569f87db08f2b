//! The Gens adapter.
//!
//! Gens is a single legacy Windows build, always driven through a
//! compatibility layer on a Unix host. Its path rules are relaxed: the game
//! image is always copied into the working directory and referred to by its
//! file name; recorded-input and script files are copied and renamed the
//! same way only when their original path is not absolute, since the
//! emulator can consume absolute paths directly but cannot resolve relative
//! ones once the working directory changes.

use vstd::prelude::*;
use vstd::string::*;

use crate::{Error, ErrorV, EmulatorContext, Platform, prepare_view};
use crate::includes::{
    ActionV, FsAction, action_writes, apply_plan, lemma_plan_reapply_no_writes, plan_wf,
};
use crate::paths::{EmuPath, opt_path_view, spec_file_name, spec_is_absolute, spec_join};

verus! {

/// The known Gens builds an adapter can be constructed for.
#[derive(Debug, Copy, Clone, PartialEq, Eq, Structural)]
pub enum GensVersion {
    Ver11A,
    Ver11B,
    GitA2425B5,
}

/// The filesystem facts Gens preparation decides on: whether each attached
/// path names an existing regular file.
#[derive(Debug, Clone, Copy, PartialEq, Eq, Structural)]
pub struct GensFacts {
    pub rom_is_file: bool,
    pub movie_is_file: bool,
    pub lua_is_file: bool,
}

/// A launch context for the Gens emulator.
#[derive(Debug, Clone, PartialEq)]
pub struct GensContext {
    pub version: GensVersion,
    pub start_paused: bool,
    pub rom: Option<EmuPath>,
    pub movie: Option<EmuPath>,
    pub lua: Option<EmuPath>,
    pub working_dir: EmuPath,
}

impl GensContext {
    /// The game-image step of preparation: the file must exist and is
    /// always staged into the working directory under its file name.
    pub open spec fn spec_rom_step(c: GensContext, f: GensFacts) -> Result<Seq<ActionV>, ErrorV> {
        match c.rom {
            Option::Some(p) => if !f.rom_is_file {
                Err(ErrorV::MissingRom(p@))
            } else {
                Ok(
                    seq![
                        ActionV::CopyFile {
                            src: p@,
                            dest: spec_join(c.working_dir@, spec_file_name(p@)->Some_0),
                        },
                    ],
                )
            },
            Option::None => Ok(Seq::empty()),
        }
    }

    /// The relaxed step for a recorded-input or script file: it must exist,
    /// and is staged into the working directory under its file name only
    /// when its path is not absolute.
    pub open spec fn spec_relaxed_step(
        wd: Seq<char>,
        path: Option<EmuPath>,
        is_file: bool,
        missing: spec_fn(Seq<char>) -> ErrorV,
    ) -> Result<Seq<ActionV>, ErrorV> {
        match path {
            Option::Some(p) => if !is_file {
                Err(missing(p@))
            } else if !spec_is_absolute(p@) {
                Ok(seq![ActionV::CopyFile { src: p@, dest: spec_join(wd, spec_file_name(p@)->Some_0) }])
            } else {
                Ok(Seq::empty())
            },
            Option::None => Ok(Seq::empty()),
        }
    }

    /// What preparation returns: the staging of the game image, then of the
    /// recorded-input file, then of the script file, stopping at the first
    /// missing one.
    pub open spec fn spec_prepare(c: GensContext, f: GensFacts) -> Result<Seq<ActionV>, ErrorV> {
        match Self::spec_rom_step(c, f) {
            Err(e) => Err(e),
            Ok(rom_actions) => match Self::spec_relaxed_step(
                c.working_dir@,
                c.movie,
                f.movie_is_file,
                |s| ErrorV::MissingMovie(s),
            ) {
                Err(e) => Err(e),
                Ok(movie_actions) => match Self::spec_relaxed_step(
                    c.working_dir@,
                    c.lua,
                    f.lua_is_file,
                    |s| ErrorV::MissingLua(s),
                ) {
                    Err(e) => Err(e),
                    Ok(lua_actions) => Ok(rom_actions + movie_actions + lua_actions),
                },
            },
        }
    }

    /// The stored game-image path after preparation: rewritten to its file
    /// name once staged, untouched otherwise.
    pub open spec fn spec_rom_after(c: GensContext, f: GensFacts) -> Option<Seq<char>> {
        match c.rom {
            Option::Some(p) => if f.rom_is_file {
                Option::Some(spec_file_name(p@)->Some_0)
            } else {
                Option::Some(p@)
            },
            Option::None => Option::None,
        }
    }

    /// The stored recorded-input path after preparation.
    pub open spec fn spec_movie_after(c: GensContext, f: GensFacts) -> Option<Seq<char>> {
        match c.movie {
            Option::Some(p) => if Self::spec_rom_step(c, f) is Ok && f.movie_is_file
                && !spec_is_absolute(p@) {
                Option::Some(spec_file_name(p@)->Some_0)
            } else {
                Option::Some(p@)
            },
            Option::None => Option::None,
        }
    }

    /// The stored script path after preparation.
    pub open spec fn spec_lua_after(c: GensContext, f: GensFacts) -> Option<Seq<char>> {
        match c.lua {
            Option::Some(p) => if Self::spec_rom_step(c, f) is Ok && !(c.movie is Some
                && !f.movie_is_file) && f.lua_is_file && !spec_is_absolute(p@) {
                Option::Some(spec_file_name(p@)->Some_0)
            } else {
                Option::Some(p@)
            },
            Option::None => Option::None,
        }
    }

    /// Creates a new context with default options.
    ///
    /// `dir_ok` says whether the working directory exists and is a
    /// directory; `exe_is_file` whether it holds the `Gens.exe` marker.
    /// Construction fails with the marker's path unless both hold.
    pub fn new(working_dir: EmuPath, version: GensVersion, dir_ok: bool, exe_is_file: bool) -> (r:
        Result<Self, Error>)
        ensures
            dir_ok && exe_is_file ==> (r matches Ok(c) && c.version == version
                && c.start_paused == false && c.rom is None && c.movie is None && c.lua is None
                && c.working_dir@ == working_dir@),
            !(dir_ok && exe_is_file) ==> (r matches Err(e) && e@ == ErrorV::MissingExecutable(
                spec_join(working_dir@, "Gens.exe"@),
            )),
    {
        let detect_exe = working_dir.join("Gens.exe");
        if !dir_ok || !exe_is_file {
            return Err(Error::MissingExecutable(detect_exe));
        }
        Ok(
            Self {
                version,
                start_paused: false,
                rom: None,
                movie: None,
                lua: None,
                working_dir,
            },
        )
    }

    /// The context with the start-paused flag set as given.
    pub fn with_pause(self, start_paused: bool) -> (r: Self)
        ensures
            r.start_paused == start_paused,
            r.version == self.version,
            r.rom == self.rom,
            r.movie == self.movie,
            r.lua == self.lua,
            r.working_dir == self.working_dir,
    {
        Self { start_paused, ..self }
    }

    /// The context with a game image attached.
    pub fn with_rom(self, rom: EmuPath) -> (r: Self)
        ensures
            r.rom matches Some(p) && p@ == rom@,
            r.version == self.version,
            r.start_paused == self.start_paused,
            r.movie == self.movie,
            r.lua == self.lua,
            r.working_dir == self.working_dir,
    {
        Self { rom: Some(rom), ..self }
    }

    /// The context with a recorded-input file attached.
    pub fn with_movie(self, movie: EmuPath) -> (r: Self)
        ensures
            r.movie matches Some(p) && p@ == movie@,
            r.version == self.version,
            r.start_paused == self.start_paused,
            r.rom == self.rom,
            r.lua == self.lua,
            r.working_dir == self.working_dir,
    {
        Self { movie: Some(movie), ..self }
    }

    /// The context with a script file attached.
    pub fn with_lua(self, lua: EmuPath) -> (r: Self)
        ensures
            r.lua matches Some(p) && p@ == lua@,
            r.version == self.version,
            r.start_paused == self.start_paused,
            r.rom == self.rom,
            r.movie == self.movie,
            r.working_dir == self.working_dir,
    {
        Self { lua: Some(lua), ..self }
    }

    /// Validates the attached files, plans their staging into the working
    /// directory, and rewrites the stored paths of the staged ones to their
    /// file names.
    pub fn prepare(&mut self, facts: &GensFacts) -> (r: Result<Vec<FsAction>, Error>)
        requires
            old(self).rom matches Some(p) ==> (facts.rom_is_file ==> spec_file_name(p@) is Some),
            old(self).movie matches Some(p) ==> (facts.movie_is_file && !spec_is_absolute(p@)
                ==> spec_file_name(p@) is Some),
            old(self).lua matches Some(p) ==> (facts.lua_is_file && !spec_is_absolute(p@)
                ==> spec_file_name(p@) is Some),
        ensures
            prepare_view(r) == Self::spec_prepare(*old(self), *facts),
            final(self).version == old(self).version,
            final(self).start_paused == old(self).start_paused,
            final(self).working_dir == old(self).working_dir,
            opt_path_view(final(self).rom) == Self::spec_rom_after(*old(self), *facts),
            opt_path_view(final(self).movie) == Self::spec_movie_after(*old(self), *facts),
            opt_path_view(final(self).lua) == Self::spec_lua_after(*old(self), *facts),
    {
        let mut plan: Vec<FsAction> = Vec::new();
        let rom_path = match &self.rom {
            Some(p) => Some(p.clone()),
            None => None,
        };
        if let Some(p) = rom_path {
            if !facts.rom_is_file {
                return Err(Error::MissingRom(p));
            }
            let name = p.file_name_present();
            let dest = self.working_dir.join(name.as_str());
            plan.push(FsAction::CopyFile { src: p, dest });
            self.rom = Some(EmuPath::from_string(name));
        }
        let movie_path = match &self.movie {
            Some(p) => Some(p.clone()),
            None => None,
        };
        if let Some(p) = movie_path {
            if !facts.movie_is_file {
                return Err(Error::MissingMovie(p));
            }
            if !p.is_absolute() {
                let name = p.file_name_present();
                let dest = self.working_dir.join(name.as_str());
                plan.push(FsAction::CopyFile { src: p, dest });
                self.movie = Some(EmuPath::from_string(name));
            }
        }
        let lua_path = match &self.lua {
            Some(p) => Some(p.clone()),
            None => None,
        };
        if let Some(p) = lua_path {
            if !facts.lua_is_file {
                return Err(Error::MissingLua(p));
            }
            if !p.is_absolute() {
                let name = p.file_name_present();
                let dest = self.working_dir.join(name.as_str());
                plan.push(FsAction::CopyFile { src: p, dest });
                self.lua = Some(EmuPath::from_string(name));
            }
        }
        proof {
            assert(plan.deep_view() =~= Self::spec_prepare(*old(self), *facts)->Ok_0);
        }
        Ok(plan)
    }
}

impl EmulatorContext for GensContext {
    open spec fn spec_cmd_name(&self, platform: Platform) -> Seq<char> {
        if platform == Platform::Unix {
            "wine"@
        } else {
            "Gens.exe"@
        }
    }

    open spec fn spec_args(&self, platform: Platform) -> Seq<Seq<char>> {
        let base: Seq<Seq<char>> = if platform == Platform::Unix {
            seq![spec_join(self.working_dir@, "Gens.exe"@)]
        } else {
            Seq::empty()
        };
        let with_pause = if self.start_paused {
            base.push("-pause"@).push("0"@)
        } else {
            base
        };
        let with_rom = match self.rom {
            Option::Some(p) => with_pause.push("-rom"@).push(p@),
            Option::None => with_pause,
        };
        let with_movie = match self.movie {
            Option::Some(p) => with_rom.push("-play"@).push(p@),
            Option::None => with_rom,
        };
        match self.lua {
            Option::Some(p) => with_movie.push("-lua"@).push(p@),
            Option::None => with_movie,
        }
    }

    open spec fn spec_env(&self, platform: Platform) -> Seq<(Seq<char>, Seq<char>)> {
        if platform == Platform::Unix {
            seq![("WINEPREFIX"@, spec_join(self.working_dir@, ".wine/"@))]
        } else {
            Seq::empty()
        }
    }

    open spec fn spec_working_dir(&self) -> Seq<char> {
        self.working_dir@
    }

    fn cmd_name(&self, platform: Platform) -> (r: String) {
        if platform == Platform::Unix {
            "wine".to_owned()
        } else {
            "Gens.exe".to_owned()
        }
    }

    fn args(&self, platform: Platform) -> (r: Vec<String>) {
        let mut args: Vec<String> = Vec::new();
        if platform == Platform::Unix {
            let executable = self.working_dir.join("Gens.exe");
            args.push(executable.into_string());
        }
        if self.start_paused {
            args.push("-pause".to_owned());
            args.push("0".to_owned());
        }
        if let Some(rom) = &self.rom {
            args.push("-rom".to_owned());
            args.push(rom.as_str().to_owned());
        }
        if let Some(movie) = &self.movie {
            args.push("-play".to_owned());
            args.push(movie.as_str().to_owned());
        }
        if let Some(lua) = &self.lua {
            args.push("-lua".to_owned());
            args.push(lua.as_str().to_owned());
        }
        proof {
            assert(args.deep_view() =~= self.spec_args(platform));
        }
        args
    }

    fn env(&self, platform: Platform) -> (r: Vec<(String, String)>) {
        let mut vars: Vec<(String, String)> = Vec::new();
        if platform == Platform::Unix {
            let prefix = self.working_dir.join(".wine/");
            vars.push(("WINEPREFIX".to_owned(), prefix.into_string()));
        }
        proof {
            assert(vars.deep_view() =~= self.spec_env(platform));
        }
        vars
    }

    fn working_dir(&self) -> (r: EmuPath) {
        self.working_dir.clone()
    }
}

/// Staging is idempotent for a non-interfering plan: once the plan of a
/// successful preparation has been carried out, carrying the same plan out
/// again writes nothing. Non-interference asks that no two staged files
/// share a destination — it fails, for instance, when the game image and the
/// recorded-input file have the same file name.
pub proof fn lemma_gens_staging_idempotent(
    c: GensContext,
    f: GensFacts,
    files: Map<Seq<char>, Seq<u8>>,
)
    requires
        GensContext::spec_prepare(c, f) is Ok,
        plan_wf(GensContext::spec_prepare(c, f)->Ok_0),
    ensures
        ({
            let plan = GensContext::spec_prepare(c, f)->Ok_0;
            let staged = apply_plan(files, plan);
            &&& forall|i: int| 0 <= i < plan.len() ==> !action_writes(staged, #[trigger] plan[i])
            &&& apply_plan(staged, plan) == staged
        }),
{
    let plan = GensContext::spec_prepare(c, f)->Ok_0;
    lemma_plan_reapply_no_writes(files, plan);
}

} // verus!
