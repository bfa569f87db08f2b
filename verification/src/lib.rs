//! Launch configurations for tool-assisted-speedrun emulators.
//!
//! Each emulator adapter holds the paths a launch needs, validates them, and
//! plans the file staging that must happen before the emulator starts. The
//! adapters are pure: facts about the filesystem (whether a path names a
//! regular file, the digest of the emulator executable) come in as plain
//! values, and preparation hands back an exact list of copy-on-difference
//! staging actions for the host side to carry out. Command assembly — the
//! command name, argument vector, environment and working directory — is a
//! function of the adapter state and the target platform.

use vstd::prelude::*;

pub mod contexts;
pub mod includes;
pub mod paths;

use crate::includes::{ActionV, FsAction};
use crate::paths::EmuPath;

verus! {

/// The family of operating system the emulator is launched on.
#[derive(Debug, Clone, Copy, PartialEq, Eq, Structural)]
pub enum Platform {
    /// A Unix-like host, where Windows builds run through a compatibility
    /// layer.
    Unix,
    /// A Windows host, where the emulator executables run natively.
    Windows,
}

/// The std I/O error type, carried opaquely inside [`Error`].
#[verifier::external_type_specification]
#[verifier::external_body]
pub struct ExIoError(std::io::Error);

/// Everything that can go wrong while building or preparing a launch.
#[derive(Debug)]
pub enum Error {
    /// An underlying filesystem or process failure.
    StdIo(std::io::Error),
    /// The working directory does not hold the expected emulator executable.
    MissingExecutable(EmuPath),
    /// The bootstrap shell is not available.
    MissingBash(EmuPath),
    /// The attached settings file does not name an existing regular file.
    MissingConfig(EmuPath),
    /// The attached game image does not name an existing regular file.
    MissingRom(EmuPath),
    /// The attached recorded-input file does not name an existing regular
    /// file.
    MissingMovie(EmuPath),
    /// The attached script file does not name an existing regular file.
    MissingLua(EmuPath),
    /// The detected emulator build cannot be driven on this platform.
    IncompatibleOSVersion,
    /// An attached path exists but is not absolute where an absolute path is
    /// required.
    AbsolutePathFailed,
}

/// The mathematical shape of an [`Error`], with paths as character
/// sequences.
pub enum ErrorV {
    StdIo,
    MissingExecutable(Seq<char>),
    MissingBash(Seq<char>),
    MissingConfig(Seq<char>),
    MissingRom(Seq<char>),
    MissingMovie(Seq<char>),
    MissingLua(Seq<char>),
    IncompatibleOSVersion,
    AbsolutePathFailed,
}

impl View for Error {
    type V = ErrorV;

    open spec fn view(&self) -> ErrorV {
        match self {
            Error::StdIo(_) => ErrorV::StdIo,
            Error::MissingExecutable(p) => ErrorV::MissingExecutable(p@),
            Error::MissingBash(p) => ErrorV::MissingBash(p@),
            Error::MissingConfig(p) => ErrorV::MissingConfig(p@),
            Error::MissingRom(p) => ErrorV::MissingRom(p@),
            Error::MissingMovie(p) => ErrorV::MissingMovie(p@),
            Error::MissingLua(p) => ErrorV::MissingLua(p@),
            Error::IncompatibleOSVersion => ErrorV::IncompatibleOSVersion,
            Error::AbsolutePathFailed => ErrorV::AbsolutePathFailed,
        }
    }
}

impl From<std::io::Error> for Error {
    fn from(value: std::io::Error) -> (r: Self) {
        Error::StdIo(value)
    }
}

impl vstd::std_specs::convert::FromSpecImpl<std::io::Error> for Error {
    open spec fn obeys_from_spec() -> bool {
        true
    }

    open spec fn from_spec(t: std::io::Error) -> Self {
        Error::StdIo(t)
    }
}

/// The mathematical shape of a preparation result: the staging plan on
/// success, the first validation failure otherwise.
pub open spec fn prepare_view(r: Result<Vec<FsAction>, Error>) -> Result<Seq<ActionV>, ErrorV> {
    match r {
        Ok(plan) => Ok(plan.deep_view()),
        Err(e) => Err(e@),
    }
}

/// Behavior shared by every emulator adapter: the pieces of the process
/// invocation, each pinned to its mathematical description.
pub trait EmulatorContext: Sized {
    /// The command name the adapter invokes on `platform`.
    spec fn spec_cmd_name(&self, platform: Platform) -> Seq<char>;

    /// The argument vector the adapter passes on `platform`.
    spec fn spec_args(&self, platform: Platform) -> Seq<Seq<char>>;

    /// The environment overrides the adapter sets on `platform`.
    spec fn spec_env(&self, platform: Platform) -> Seq<(Seq<char>, Seq<char>)>;

    /// The directory the emulator process must run in.
    spec fn spec_working_dir(&self) -> Seq<char>;

    /// Returns the name of the base command to be executed.
    fn cmd_name(&self, platform: Platform) -> (r: String)
        ensures
            r@ == self.spec_cmd_name(platform),
    ;

    /// Returns the list of arguments to be passed to the command.
    fn args(&self, platform: Platform) -> (r: Vec<String>)
        ensures
            r.deep_view() == self.spec_args(platform),
    ;

    /// Returns the list of environment variables to be set for the command.
    fn env(&self, platform: Platform) -> (r: Vec<(String, String)>)
        ensures
            r.deep_view() == self.spec_env(platform),
    ;

    /// Returns the path to the working directory intended for the command's
    /// child process.
    fn working_dir(&self) -> (r: EmuPath)
        ensures
            r@ == self.spec_working_dir(),
    ;
}

/// A fully assembled process invocation, ready to be spawned by the host
/// side.
#[derive(Debug)]
pub struct Invocation {
    /// The command name.
    pub name: String,
    /// The ordered argument list.
    pub args: Vec<String>,
    /// The environment overrides, as name and value pairs.
    pub env: Vec<(String, String)>,
    /// The directory the child process runs in.
    pub working_dir: EmuPath,
}

/// Builds the process invocation from the four accessors of an adapter.
pub fn command<C: EmulatorContext>(ctx: &C, platform: Platform) -> (r: Invocation)
    ensures
        r.name@ == ctx.spec_cmd_name(platform),
        r.args.deep_view() == ctx.spec_args(platform),
        r.env.deep_view() == ctx.spec_env(platform),
        r.working_dir@ == ctx.spec_working_dir(),
{
    Invocation {
        name: ctx.cmd_name(platform),
        args: ctx.args(platform),
        env: ctx.env(platform),
        working_dir: ctx.working_dir(),
    }
}

} // verus!
