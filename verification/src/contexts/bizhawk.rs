//! The BizHawk adapter.
//!
//! On a Unix host the emulator runs through a shell bootstrap script that the
//! adapter stages into the working directory; which script depends on the
//! emulator version, detected by hashing the executable. Builds in a known
//! legacy range get the pre-2.90 script, builds in a known unsupported range
//! are rejected, and everything else (including unrecognized builds) gets the
//! current script.

use vstd::prelude::*;
use vstd::string::*;

use crate::{Error, ErrorV, EmulatorContext, Platform, prepare_view};
use crate::contexts::{spec_check_attachment, spec_first_some, string_eq_str};
use crate::includes::{
    ActionV, FsAction, action_writes, apply_plan, bizhawk_bash_default, bizhawk_bash_default_bytes,
    bizhawk_bash_pre290, bizhawk_bash_pre290_bytes, lemma_plan_reapply_no_writes, plan_wf,
    sha1_hex, sha1_hex_of,
};
use crate::paths::{EmuPath, spec_is_absolute, spec_join};

verus! {

/// The version label recorded for a known executable digest, or nothing for
/// an unrecognized digest.
pub open spec fn spec_version_for_digest(d: Seq<char>) -> Option<Seq<char>> {
    if d == "ef7c4067cec01b60b89ff8c271f3c72a0b2d009f"@ {
        Option::Some("2.9.1"@)
    } else if d == "c9be7f8e4a05122e60545e8988920b710bd50ea7"@ {
        Option::Some("2.9"@)
    } else if d == "31a2fadd049957377358a0b7b1267f3d8ecebfd9"@ {
        Option::Some("2.9-rc3"@)
    } else if d == "a6ff6e02a05a0ec52695a7ec757aedcdc16e0192"@ {
        Option::Some("2.9-rc2"@)
    } else if d == "288e310c430cbcbc0881913efd82e91f16dc14dd"@ {
        Option::Some("2.9-rc1"@)
    } else if d == "88e476295d004a80ea514847c0d590879e7b3d88"@ {
        Option::Some("2.8"@)
    } else if d == "9d2738265a37e28813eeff08e41def697f58cbee"@ {
        Option::Some("2.8-rc1"@)
    } else if d == "eac6aa28589372d120e23e5b2f69b56c2542273b"@ {
        Option::Some("2.7"@)
    } else if d == "3261214b9991918c5224d27b6cf7d84f9acd3566"@ {
        Option::Some("1.9.2"@)
    } else if d == "202a0d945cd20a1b2e5021d3499ac7b5c2f5ca46"@ {
        Option::Some("1.6.1"@)
    } else if d == "7dd9dce90e16138ca38ef92cdb1270a378d21dad"@ {
        Option::Some("2.6.3"@)
    } else if d == "3668613ed1fc61f1dafde9b678e6a637da23d882"@ {
        Option::Some("2.6.2"@)
    } else if d == "115cb73156b4a288378fd00aa0fd982fb0c311c5"@ {
        Option::Some("2.6.1"@)
    } else if d == "307526d8171fa9aa2dfbf735aa1eca23425b829a"@ {
        Option::Some("2.6"@)
    } else if d == "7bcc6337005dba33fbc8a454cf7f669563f39e85"@ {
        Option::Some("2.5.2"@)
    } else if d == "410c423feef9666955b2a0d66c3b64c3e432988a"@ {
        Option::Some("2.5.1"@)
    } else if d == "d45a7348a8e5505b294df9add852787d04b569e4"@ {
        Option::Some("2.5.0"@)
    } else if d == "6e169792aebef5942c9fabd276c7d3e07e2c3196"@ {
        Option::Some("2.4.2"@)
    } else if d == "71d9bd1ae6d60b6fc7d3aebe474eae50995c29d7"@ {
        Option::Some("2.4.1"@)
    } else if d == "2668ef81bad2459a9a14a09a3a8d5ee2c6e9cbac"@ {
        Option::Some("2.4"@)
    } else if d == "1fbf1b672ddb4e98aef77a8edd5655149b4b4c72"@ {
        Option::Some("2.3.3"@)
    } else if d == "d9365fd6f1f979a52689979e5709b26dfef7dc09"@ {
        Option::Some("2.3.2"@)
    } else if d == "c2f4b95b86a11c472f7e8522598be644e9e05c6d"@ {
        Option::Some("2.3.1"@)
    } else if d == "b2072e0bdf4944d060c83f44df17e88da4007c81"@ {
        Option::Some("2.3"@)
    } else if d == "ab83cfd3ed5b9dc392d2b0d4aa1b99723c5bf4c9"@ {
        Option::Some("1.13.2"@)
    } else if d == "4c1599c7ed7e5216477454ac7fac0719f2ee6e66"@ {
        Option::Some("2.2.2"@)
    } else if d == "6095cb07bd79703527c01ad4f27ed4e907d2f030"@ {
        Option::Some("2.2.1"@)
    } else if d == "4e2ec35bff8798494d3cc0e22276f2456939257d"@ {
        Option::Some("2.2"@)
    } else if d == "fc372a78d03ca5229f3c125a9dff91a779a66b7a"@ {
        Option::Some("2.1.1"@)
    } else if d == "c2e31867428e03ba2ef23911d605163a7008d6a5"@ {
        Option::Some("2.1.0"@)
    } else {
        Option::None
    }
}

/// Looks an executable digest up in the fixed version fingerprint table.
pub fn version_for_digest(digest: &String) -> (r: Option<String>)
    ensures
        match r {
            Option::Some(v) => spec_version_for_digest(digest@) matches Some(sv) && v@ == sv,
            Option::None => spec_version_for_digest(digest@) is None,
        },
{
    if string_eq_str(digest, "ef7c4067cec01b60b89ff8c271f3c72a0b2d009f") {
        Some("2.9.1".to_owned())
    } else if string_eq_str(digest, "c9be7f8e4a05122e60545e8988920b710bd50ea7") {
        Some("2.9".to_owned())
    } else if string_eq_str(digest, "31a2fadd049957377358a0b7b1267f3d8ecebfd9") {
        Some("2.9-rc3".to_owned())
    } else if string_eq_str(digest, "a6ff6e02a05a0ec52695a7ec757aedcdc16e0192") {
        Some("2.9-rc2".to_owned())
    } else if string_eq_str(digest, "288e310c430cbcbc0881913efd82e91f16dc14dd") {
        Some("2.9-rc1".to_owned())
    } else if string_eq_str(digest, "88e476295d004a80ea514847c0d590879e7b3d88") {
        Some("2.8".to_owned())
    } else if string_eq_str(digest, "9d2738265a37e28813eeff08e41def697f58cbee") {
        Some("2.8-rc1".to_owned())
    } else if string_eq_str(digest, "eac6aa28589372d120e23e5b2f69b56c2542273b") {
        Some("2.7".to_owned())
    } else if string_eq_str(digest, "3261214b9991918c5224d27b6cf7d84f9acd3566") {
        Some("1.9.2".to_owned())
    } else if string_eq_str(digest, "202a0d945cd20a1b2e5021d3499ac7b5c2f5ca46") {
        Some("1.6.1".to_owned())
    } else if string_eq_str(digest, "7dd9dce90e16138ca38ef92cdb1270a378d21dad") {
        Some("2.6.3".to_owned())
    } else if string_eq_str(digest, "3668613ed1fc61f1dafde9b678e6a637da23d882") {
        Some("2.6.2".to_owned())
    } else if string_eq_str(digest, "115cb73156b4a288378fd00aa0fd982fb0c311c5") {
        Some("2.6.1".to_owned())
    } else if string_eq_str(digest, "307526d8171fa9aa2dfbf735aa1eca23425b829a") {
        Some("2.6".to_owned())
    } else if string_eq_str(digest, "7bcc6337005dba33fbc8a454cf7f669563f39e85") {
        Some("2.5.2".to_owned())
    } else if string_eq_str(digest, "410c423feef9666955b2a0d66c3b64c3e432988a") {
        Some("2.5.1".to_owned())
    } else if string_eq_str(digest, "d45a7348a8e5505b294df9add852787d04b569e4") {
        Some("2.5.0".to_owned())
    } else if string_eq_str(digest, "6e169792aebef5942c9fabd276c7d3e07e2c3196") {
        Some("2.4.2".to_owned())
    } else if string_eq_str(digest, "71d9bd1ae6d60b6fc7d3aebe474eae50995c29d7") {
        Some("2.4.1".to_owned())
    } else if string_eq_str(digest, "2668ef81bad2459a9a14a09a3a8d5ee2c6e9cbac") {
        Some("2.4".to_owned())
    } else if string_eq_str(digest, "1fbf1b672ddb4e98aef77a8edd5655149b4b4c72") {
        Some("2.3.3".to_owned())
    } else if string_eq_str(digest, "d9365fd6f1f979a52689979e5709b26dfef7dc09") {
        Some("2.3.2".to_owned())
    } else if string_eq_str(digest, "c2f4b95b86a11c472f7e8522598be644e9e05c6d") {
        Some("2.3.1".to_owned())
    } else if string_eq_str(digest, "b2072e0bdf4944d060c83f44df17e88da4007c81") {
        Some("2.3".to_owned())
    } else if string_eq_str(digest, "ab83cfd3ed5b9dc392d2b0d4aa1b99723c5bf4c9") {
        Some("1.13.2".to_owned())
    } else if string_eq_str(digest, "4c1599c7ed7e5216477454ac7fac0719f2ee6e66") {
        Some("2.2.2".to_owned())
    } else if string_eq_str(digest, "6095cb07bd79703527c01ad4f27ed4e907d2f030") {
        Some("2.2.1".to_owned())
    } else if string_eq_str(digest, "4e2ec35bff8798494d3cc0e22276f2456939257d") {
        Some("2.2".to_owned())
    } else if string_eq_str(digest, "fc372a78d03ca5229f3c125a9dff91a779a66b7a") {
        Some("2.1.1".to_owned())
    } else if string_eq_str(digest, "c2e31867428e03ba2ef23911d605163a7008d6a5") {
        Some("2.1.0".to_owned())
    } else {
        None
    }
}

/// Versions that must be driven through the pre-2.90 bootstrap script.
pub open spec fn spec_is_legacy(v: Seq<char>) -> bool {
    ||| v == "2.8"@
    ||| v == "2.8-rc1"@
    ||| v == "2.7"@
    ||| v == "2.6.3"@
    ||| v == "2.6.2"@
    ||| v == "2.6.1"@
    ||| v == "2.6"@
}

/// Versions that cannot be driven by either bootstrap script.
pub open spec fn spec_is_unsupported(v: Seq<char>) -> bool {
    ||| v == "2.5.2"@
    ||| v == "2.5.1"@
    ||| v == "2.5.0"@
    ||| v == "2.4.2"@
    ||| v == "2.4.1"@
    ||| v == "2.4"@
    ||| v == "2.3.3"@
    ||| v == "2.3.2"@
    ||| v == "2.3.1"@
    ||| v == "2.3"@
    ||| v == "2.2.2"@
    ||| v == "2.2.1"@
    ||| v == "2.2"@
    ||| v == "2.1.1"@
    ||| v == "2.1.0"@
    ||| v == "1.13.2"@
    ||| v == "1.9.2"@
    ||| v == "1.6.1"@
}

fn is_legacy_version(v: &String) -> (r: bool)
    ensures
        r == spec_is_legacy(v@),
{
    string_eq_str(v, "2.8") || string_eq_str(v, "2.8-rc1") || string_eq_str(v, "2.7")
        || string_eq_str(v, "2.6.3") || string_eq_str(v, "2.6.2") || string_eq_str(v, "2.6.1")
        || string_eq_str(v, "2.6")
}

fn is_unsupported_version(v: &String) -> (r: bool)
    ensures
        r == spec_is_unsupported(v@),
{
    string_eq_str(v, "2.5.2") || string_eq_str(v, "2.5.1") || string_eq_str(v, "2.5.0")
        || string_eq_str(v, "2.4.2") || string_eq_str(v, "2.4.1") || string_eq_str(v, "2.4")
        || string_eq_str(v, "2.3.3") || string_eq_str(v, "2.3.2") || string_eq_str(v, "2.3.1")
        || string_eq_str(v, "2.3") || string_eq_str(v, "2.2.2") || string_eq_str(v, "2.2.1")
        || string_eq_str(v, "2.2") || string_eq_str(v, "2.1.1") || string_eq_str(v, "2.1.0")
        || string_eq_str(v, "1.13.2") || string_eq_str(v, "1.9.2") || string_eq_str(v, "1.6.1")
}

/// The filesystem facts BizHawk preparation decides on: whether each
/// attached path names an existing regular file, and the hex digest of the
/// emulator executable's bytes.
#[derive(Debug, Clone)]
pub struct BizHawkFacts {
    pub config_is_file: bool,
    pub movie_is_file: bool,
    pub lua_is_file: bool,
    pub rom_is_file: bool,
    pub exe_sha1: String,
}

/// A launch context for the BizHawk emulator.
#[derive(Debug, Clone, PartialEq)]
pub struct BizHawkContext {
    pub config: Option<EmuPath>,
    pub movie: Option<EmuPath>,
    pub lua: Option<EmuPath>,
    pub rom: Option<EmuPath>,
    pub working_dir: EmuPath,
}

impl BizHawkContext {
    /// The first validation failure among the attached paths, if any: each
    /// must name an existing regular file and be absolute, checked in the
    /// order config, movie, lua, rom.
    pub open spec fn spec_field_errors(c: BizHawkContext, f: BizHawkFacts) -> Option<ErrorV> {
        spec_first_some(
            spec_check_attachment(c.config, f.config_is_file, |s| ErrorV::MissingConfig(s)),
            spec_first_some(
                spec_check_attachment(c.movie, f.movie_is_file, |s| ErrorV::MissingMovie(s)),
                spec_first_some(
                    spec_check_attachment(c.lua, f.lua_is_file, |s| ErrorV::MissingLua(s)),
                    spec_check_attachment(c.rom, f.rom_is_file, |s| ErrorV::MissingRom(s)),
                ),
            ),
        )
    }

    /// The bootstrap script bytes selected for a detected version.
    pub open spec fn spec_script_for(ver: Option<Seq<char>>) -> Seq<u8> {
        match ver {
            Option::Some(v) => if spec_is_legacy(v) {
                bizhawk_bash_pre290_bytes()
            } else {
                bizhawk_bash_default_bytes()
            },
            Option::None => bizhawk_bash_default_bytes(),
        }
    }

    /// What preparation returns: the first validation failure; otherwise, on
    /// a Unix host, rejection of an unsupported build or the staging of the
    /// selected bootstrap script; on Windows an empty plan.
    pub open spec fn spec_prepare(c: BizHawkContext, platform: Platform, f: BizHawkFacts) -> Result<
        Seq<ActionV>,
        ErrorV,
    > {
        match Self::spec_field_errors(c, f) {
            Option::Some(e) => Err(e),
            Option::None => if platform == Platform::Unix {
                let ver = spec_version_for_digest(f.exe_sha1@);
                if ver matches Some(v) && spec_is_unsupported(v) {
                    Err(ErrorV::IncompatibleOSVersion)
                } else {
                    Ok(
                        seq![
                            ActionV::WriteBytes {
                                data: Self::spec_script_for(ver),
                                dest: spec_join(c.working_dir@, "start-bizhawk.sh"@),
                            },
                        ],
                    )
                }
            } else {
                Ok(Seq::empty())
            },
        }
    }

    /// Creates a new context with default options.
    ///
    /// `dir_ok` says whether the working directory exists and is a
    /// directory; `exe_is_file` whether it holds the `EmuHawk.exe` marker.
    /// Construction fails with the marker's path unless both hold.
    pub fn new(working_dir: EmuPath, dir_ok: bool, exe_is_file: bool) -> (r: Result<Self, Error>)
        ensures
            dir_ok && exe_is_file ==> (r matches Ok(c) && c.config is None && c.movie is None
                && c.lua is None && c.rom is None && c.working_dir@ == working_dir@),
            !(dir_ok && exe_is_file) ==> (r matches Err(e) && e@ == ErrorV::MissingExecutable(
                spec_join(working_dir@, "EmuHawk.exe"@),
            )),
    {
        let detect_exe = working_dir.join("EmuHawk.exe");
        if !dir_ok || !exe_is_file {
            return Err(Error::MissingExecutable(detect_exe));
        }
        Ok(
            Self {
                config: None,
                movie: None,
                lua: None,
                rom: None,
                working_dir,
            },
        )
    }

    /// The context with a settings file attached.
    pub fn with_config(self, config: EmuPath) -> (r: Self)
        ensures
            r.config matches Some(p) && p@ == config@,
            r.movie == self.movie,
            r.lua == self.lua,
            r.rom == self.rom,
            r.working_dir == self.working_dir,
    {
        Self { config: Some(config), ..self }
    }

    /// The context with a recorded-input file attached.
    pub fn with_movie(self, movie: EmuPath) -> (r: Self)
        ensures
            r.movie matches Some(p) && p@ == movie@,
            r.config == self.config,
            r.lua == self.lua,
            r.rom == self.rom,
            r.working_dir == self.working_dir,
    {
        Self { movie: Some(movie), ..self }
    }

    /// The context with a script file attached.
    pub fn with_lua(self, lua: EmuPath) -> (r: Self)
        ensures
            r.lua matches Some(p) && p@ == lua@,
            r.config == self.config,
            r.movie == self.movie,
            r.rom == self.rom,
            r.working_dir == self.working_dir,
    {
        Self { lua: Some(lua), ..self }
    }

    /// The context with a game image attached.
    pub fn with_rom(self, rom: EmuPath) -> (r: Self)
        ensures
            r.rom matches Some(p) && p@ == rom@,
            r.config == self.config,
            r.movie == self.movie,
            r.lua == self.lua,
            r.working_dir == self.working_dir,
    {
        Self { rom: Some(rom), ..self }
    }

    /// Determines the emulator version from the executable's bytes by
    /// hashing them and consulting the fixed fingerprint table.
    pub fn detect_version(exe: &[u8]) -> (r: Option<String>)
        ensures
            match r {
                Option::Some(v) => spec_version_for_digest(sha1_hex_of(exe@)) matches Some(sv)
                    && v@ == sv,
                Option::None => spec_version_for_digest(sha1_hex_of(exe@)) is None,
            },
    {
        let digest = sha1_hex(exe);
        version_for_digest(&digest)
    }

    /// Validates the attached paths and, on a Unix host, plans the staging
    /// of the bootstrap script selected by the detected emulator version.
    pub fn prepare(&mut self, platform: Platform, facts: &BizHawkFacts) -> (r: Result<
        Vec<FsAction>,
        Error,
    >)
        ensures
            *final(self) == *old(self),
            prepare_view(r) == Self::spec_prepare(*old(self), platform, *facts),
    {
        if let Some(p) = &self.config {
            if !facts.config_is_file {
                return Err(Error::MissingConfig(p.clone()));
            }
            if !p.is_absolute() {
                return Err(Error::AbsolutePathFailed);
            }
        }
        if let Some(p) = &self.movie {
            if !facts.movie_is_file {
                return Err(Error::MissingMovie(p.clone()));
            }
            if !p.is_absolute() {
                return Err(Error::AbsolutePathFailed);
            }
        }
        if let Some(p) = &self.lua {
            if !facts.lua_is_file {
                return Err(Error::MissingLua(p.clone()));
            }
            if !p.is_absolute() {
                return Err(Error::AbsolutePathFailed);
            }
        }
        if let Some(p) = &self.rom {
            if !facts.rom_is_file {
                return Err(Error::MissingRom(p.clone()));
            }
            if !p.is_absolute() {
                return Err(Error::AbsolutePathFailed);
            }
        }
        if platform == Platform::Unix {
            let ver = version_for_digest(&facts.exe_sha1);
            let script: Vec<u8> = match &ver {
                Some(v) => {
                    if is_unsupported_version(v) {
                        return Err(Error::IncompatibleOSVersion);
                    }
                    if is_legacy_version(v) {
                        bizhawk_bash_pre290()
                    } else {
                        bizhawk_bash_default()
                    }
                },
                None => bizhawk_bash_default(),
            };
            let dest = self.working_dir.join("start-bizhawk.sh");
            let mut plan: Vec<FsAction> = Vec::new();
            plan.push(FsAction::WriteBytes { data: script, dest });
            proof {
                assert(plan.deep_view() =~= Self::spec_prepare(*old(self), platform, *facts)
                    ->Ok_0);
            }
            Ok(plan)
        } else {
            let plan: Vec<FsAction> = Vec::new();
            proof {
                assert(plan.deep_view() =~= Seq::<ActionV>::empty());
            }
            Ok(plan)
        }
    }
}

impl EmulatorContext for BizHawkContext {
    open spec fn spec_cmd_name(&self, platform: Platform) -> Seq<char> {
        if platform == Platform::Unix {
            "bash"@
        } else {
            "EmuHawk.exe"@
        }
    }

    open spec fn spec_args(&self, platform: Platform) -> Seq<Seq<char>> {
        let base: Seq<Seq<char>> = if platform == Platform::Unix {
            seq!["start-bizhawk.sh"@]
        } else {
            Seq::empty()
        };
        let with_config = match self.config {
            Option::Some(p) => base.push("--config="@ + p@),
            Option::None => base,
        };
        let with_movie = match self.movie {
            Option::Some(p) => with_config.push("--movie="@ + p@),
            Option::None => with_config,
        };
        let with_lua = match self.lua {
            Option::Some(p) => with_movie.push("--lua="@ + p@),
            Option::None => with_movie,
        };
        match self.rom {
            Option::Some(p) => with_lua.push(p@),
            Option::None => with_lua,
        }
    }

    open spec fn spec_env(&self, platform: Platform) -> Seq<(Seq<char>, Seq<char>)> {
        Seq::empty()
    }

    open spec fn spec_working_dir(&self) -> Seq<char> {
        self.working_dir@
    }

    fn cmd_name(&self, platform: Platform) -> (r: String) {
        if platform == Platform::Unix {
            String::from_str("bash")
        } else {
            String::from_str("EmuHawk.exe")
        }
    }

    fn args(&self, platform: Platform) -> (r: Vec<String>) {
        let mut args: Vec<String> = Vec::new();
        if platform == Platform::Unix {
            args.push(String::from_str("start-bizhawk.sh"));
        }
        if let Some(config) = &self.config {
            let mut s = String::from_str("--config=");
            s.append(config.as_str());
            args.push(s);
        }
        if let Some(movie) = &self.movie {
            let mut s = String::from_str("--movie=");
            s.append(movie.as_str());
            args.push(s);
        }
        if let Some(lua) = &self.lua {
            let mut s = String::from_str("--lua=");
            s.append(lua.as_str());
            args.push(s);
        }
        if let Some(rom) = &self.rom {
            args.push(rom.as_str().to_owned());
        }
        proof {
            assert(args.deep_view() =~= self.spec_args(platform));
        }
        args
    }

    fn env(&self, platform: Platform) -> (r: Vec<(String, String)>) {
        let vars: Vec<(String, String)> = Vec::new();
        proof {
            assert(vars.deep_view() =~= Seq::<(Seq<char>, Seq<char>)>::empty());
        }
        vars
    }

    fn working_dir(&self) -> (r: EmuPath) {
        self.working_dir.clone()
    }
}

/// With every attached path naming an existing regular file, preparation
/// fails with the absolute-path error exactly when some attached path is not
/// absolute.
pub proof fn lemma_bizhawk_absolute_path_rejection(
    c: BizHawkContext,
    platform: Platform,
    f: BizHawkFacts,
)
    requires
        c.config is Some ==> f.config_is_file,
        c.movie is Some ==> f.movie_is_file,
        c.lua is Some ==> f.lua_is_file,
        c.rom is Some ==> f.rom_is_file,
    ensures
        (BizHawkContext::spec_prepare(c, platform, f) matches Err(e) && e
            == ErrorV::AbsolutePathFailed) <==> {
            ||| (c.config matches Some(p) && !spec_is_absolute(p@))
            ||| (c.movie matches Some(p) && !spec_is_absolute(p@))
            ||| (c.lua matches Some(p) && !spec_is_absolute(p@))
            ||| (c.rom matches Some(p) && !spec_is_absolute(p@))
        },
{
}

/// A build whose detected version is in the unsupported set is rejected as
/// incompatible, and nothing else is: on a Unix host with all attachments
/// valid, preparation yields the incompatibility error exactly then.
pub proof fn lemma_bizhawk_unsupported_version_rejection(
    c: BizHawkContext,
    platform: Platform,
    f: BizHawkFacts,
)
    ensures
        (BizHawkContext::spec_prepare(c, platform, f) matches Err(e) && e
            == ErrorV::IncompatibleOSVersion) <==> {
            &&& BizHawkContext::spec_field_errors(c, f) is None
            &&& platform == Platform::Unix
            &&& spec_version_for_digest(f.exe_sha1@) matches Some(v) && spec_is_unsupported(v)
        },
{
}

/// Staging the bootstrap script is idempotent: once the plan of a successful
/// preparation has been carried out, carrying the same plan out again — as a
/// second preparation of an equivalent context yields it — writes nothing.
pub proof fn lemma_bizhawk_staging_idempotent(
    c: BizHawkContext,
    platform: Platform,
    f: BizHawkFacts,
    files: Map<Seq<char>, Seq<u8>>,
)
    requires
        BizHawkContext::spec_prepare(c, platform, f) is Ok,
    ensures
        ({
            let plan = BizHawkContext::spec_prepare(c, platform, f)->Ok_0;
            let staged = apply_plan(files, plan);
            &&& forall|i: int| 0 <= i < plan.len() ==> !action_writes(staged, #[trigger] plan[i])
            &&& apply_plan(staged, plan) == staged
        }),
{
    let plan = BizHawkContext::spec_prepare(c, platform, f)->Ok_0;
    assert(plan_wf(plan));
    lemma_plan_reapply_no_writes(files, plan);
}

} // verus!
