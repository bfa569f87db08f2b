use tas_launcher::contexts::bizhawk::{BizHawkContext, BizHawkFacts};
use tas_launcher::contexts::fceux::{FceuxContext, FceuxExe, FceuxFacts, FceuxProbe};
use tas_launcher::contexts::gens::{GensContext, GensFacts, GensVersion};
use tas_launcher::includes::FsAction;
use tas_launcher::paths::EmuPath;
use tas_launcher::{EmulatorContext, Error, Platform};

fn path(s: &str) -> EmuPath {
    EmuPath::from_str_ref(s)
}

fn bizhawk_at(dir: &str) -> BizHawkContext {
    BizHawkContext::new(path(dir), true, true).unwrap()
}

fn all_files_facts(exe_sha1: &str) -> BizHawkFacts {
    BizHawkFacts {
        config_is_file: true,
        movie_is_file: true,
        lua_is_file: true,
        rom_is_file: true,
        exe_sha1: exe_sha1.to_string(),
    }
}

#[test]
fn bizhawk_construction_needs_the_marker() {
    match BizHawkContext::new(path("/emu"), true, false) {
        Err(Error::MissingExecutable(p)) => assert_eq!(p.as_str(), "/emu/EmuHawk.exe"),
        other => panic!("unexpected result: {other:?}"),
    }
    match BizHawkContext::new(path("/emu"), false, true) {
        Err(Error::MissingExecutable(p)) => assert_eq!(p.as_str(), "/emu/EmuHawk.exe"),
        other => panic!("unexpected result: {other:?}"),
    }
    assert!(BizHawkContext::new(path("/emu"), true, true).is_ok());
}

#[test]
fn bizhawk_builders_attach_and_keep_the_rest() {
    let ctx = bizhawk_at("/emu")
        .with_config(path("/cfg/a.ini"))
        .with_movie(path("/mov/b.bk2"))
        .with_lua(path("/lua/c.lua"))
        .with_rom(path("/roms/d.nes"));
    assert_eq!(ctx.config.as_ref().unwrap().as_str(), "/cfg/a.ini");
    assert_eq!(ctx.movie.as_ref().unwrap().as_str(), "/mov/b.bk2");
    assert_eq!(ctx.lua.as_ref().unwrap().as_str(), "/lua/c.lua");
    assert_eq!(ctx.rom.as_ref().unwrap().as_str(), "/roms/d.nes");
    assert_eq!(ctx.working_dir.as_str(), "/emu");
}

#[test]
fn bizhawk_missing_attachment_is_reported_first() {
    let mut ctx = bizhawk_at("/emu").with_config(path("/cfg/a.ini")).with_movie(path("rel.bk2"));
    let facts = BizHawkFacts { config_is_file: false, ..all_files_facts("") };
    match ctx.prepare(Platform::Unix, &facts) {
        Err(Error::MissingConfig(p)) => assert_eq!(p.as_str(), "/cfg/a.ini"),
        other => panic!("unexpected result: {other:?}"),
    }
}

#[test]
fn bizhawk_missing_movie_is_reported() {
    let mut ctx = bizhawk_at("/emu").with_movie(path("/mov/b.bk2"));
    let facts = BizHawkFacts { movie_is_file: false, ..all_files_facts("") };
    match ctx.prepare(Platform::Unix, &facts) {
        Err(Error::MissingMovie(p)) => assert_eq!(p.as_str(), "/mov/b.bk2"),
        other => panic!("unexpected result: {other:?}"),
    }
}

#[test]
fn bizhawk_missing_lua_is_reported() {
    let mut ctx = bizhawk_at("/emu").with_lua(path("/lua/c.lua"));
    let facts = BizHawkFacts { lua_is_file: false, ..all_files_facts("") };
    match ctx.prepare(Platform::Unix, &facts) {
        Err(Error::MissingLua(p)) => assert_eq!(p.as_str(), "/lua/c.lua"),
        other => panic!("unexpected result: {other:?}"),
    }
}

#[test]
fn bizhawk_missing_rom_is_reported() {
    let mut ctx = bizhawk_at("/emu").with_rom(path("/roms/d.nes"));
    let facts = BizHawkFacts { rom_is_file: false, ..all_files_facts("") };
    match ctx.prepare(Platform::Unix, &facts) {
        Err(Error::MissingRom(p)) => assert_eq!(p.as_str(), "/roms/d.nes"),
        other => panic!("unexpected result: {other:?}"),
    }
}

#[test]
fn bizhawk_relative_attachment_is_rejected() {
    let mut ctx = bizhawk_at("/emu").with_movie(path("rel.bk2"));
    match ctx.prepare(Platform::Unix, &all_files_facts("")) {
        Err(Error::AbsolutePathFailed) => {},
        other => panic!("unexpected result: {other:?}"),
    }
}

#[test]
fn bizhawk_windows_stages_nothing() {
    let mut ctx = bizhawk_at("/emu").with_rom(path("/roms/d.nes"));
    let plan = ctx.prepare(Platform::Windows, &all_files_facts("")).unwrap();
    assert!(plan.is_empty());
}

#[test]
fn bizhawk_windows_command_is_the_executable() {
    let ctx = bizhawk_at("/emu").with_rom(path("/roms/d.nes"));
    assert_eq!(ctx.cmd_name(Platform::Windows), "EmuHawk.exe");
    assert_eq!(ctx.args(Platform::Windows), vec!["/roms/d.nes".to_string()]);
    assert!(ctx.env(Platform::Windows).is_empty());
}

#[test]
fn bizhawk_unix_args_carry_every_attachment() {
    let ctx = bizhawk_at("/emu")
        .with_config(path("/cfg/a.ini"))
        .with_movie(path("/mov/b.bk2"))
        .with_lua(path("/lua/c.lua"))
        .with_rom(path("/roms/d.nes"));
    assert_eq!(ctx.cmd_name(Platform::Unix), "bash");
    assert_eq!(
        ctx.args(Platform::Unix),
        vec![
            "start-bizhawk.sh".to_string(),
            "--config=/cfg/a.ini".to_string(),
            "--movie=/mov/b.bk2".to_string(),
            "--lua=/lua/c.lua".to_string(),
            "/roms/d.nes".to_string(),
        ]
    );
    assert!(ctx.env(Platform::Unix).is_empty());
    assert_eq!(ctx.working_dir().as_str(), "/emu");
}

#[test]
fn fceux_construction_probes_the_candidates() {
    let none = FceuxProbe { native: false, win32: false, win64: false, qt: false };
    match FceuxContext::new(path("/fc"), true, none) {
        Err(Error::MissingExecutable(p)) => assert_eq!(p.as_str(), "/fc/fceux"),
        other => panic!("unexpected result: {other:?}"),
    }
    match FceuxContext::new(path("/fc"), false, none) {
        Err(Error::MissingExecutable(p)) => assert_eq!(p.as_str(), "/fc"),
        other => panic!("unexpected result: {other:?}"),
    }
    let both = FceuxProbe { native: true, win32: true, win64: true, qt: true };
    assert_eq!(FceuxContext::new(path("/fc"), true, both).unwrap().executable, FceuxExe::Native);
    let win = FceuxProbe { native: false, win32: false, win64: true, qt: true };
    assert_eq!(FceuxContext::new(path("/fc"), true, win).unwrap().executable, FceuxExe::Win64);
}

fn fceux_with(exe: FceuxExe) -> FceuxContext {
    let probe = match exe {
        FceuxExe::Native => FceuxProbe { native: true, win32: false, win64: false, qt: false },
        FceuxExe::Win32 => FceuxProbe { native: false, win32: true, win64: false, qt: false },
        FceuxExe::Win64 => FceuxProbe { native: false, win32: false, win64: true, qt: false },
        FceuxExe::Qt => FceuxProbe { native: false, win32: false, win64: false, qt: true },
    };
    FceuxContext::new(path("/fc"), true, probe).unwrap()
}

const FCEUX_ALL_FILES: FceuxFacts = FceuxFacts {
    config_is_file: true,
    movie_is_file: true,
    lua_is_file: true,
    rom_is_file: true,
};

#[test]
fn fceux_native_binary_is_incompatible_with_windows() {
    let mut ctx = fceux_with(FceuxExe::Native);
    match ctx.prepare(Platform::Windows, &FCEUX_ALL_FILES) {
        Err(Error::IncompatibleOSVersion) => {},
        other => panic!("unexpected result: {other:?}"),
    }
}

#[test]
fn fceux_native_config_is_staged_under_the_home_directory() {
    let mut ctx = fceux_with(FceuxExe::Native).with_config(path("/cfg/fceux.cfg"));
    let plan = ctx.prepare(Platform::Unix, &FCEUX_ALL_FILES).unwrap();
    assert_eq!(
        plan,
        vec![
            FsAction::EnsureDir { dest: path("/fc/.fceux/") },
            FsAction::CopyFile { src: path("/cfg/fceux.cfg"), dest: path("/fc/.fceux/fceux.cfg") },
        ]
    );
}

#[test]
fn fceux_qt_config_is_staged_beside_the_executable() {
    let mut ctx = fceux_with(FceuxExe::Qt).with_config(path("/cfg/mine.cfg"));
    let plan = ctx.prepare(Platform::Unix, &FCEUX_ALL_FILES).unwrap();
    assert_eq!(
        plan,
        vec![FsAction::CopyFile { src: path("/cfg/mine.cfg"), dest: path("/fc/fceux.cfg") }]
    );
}

#[test]
fn fceux_win32_config_is_passed_on_the_command_line() {
    let mut ctx = fceux_with(FceuxExe::Win32).with_config(path("/cfg/mine.cfg"));
    let plan = ctx.prepare(Platform::Unix, &FCEUX_ALL_FILES).unwrap();
    assert!(plan.is_empty());
    let mut relative = fceux_with(FceuxExe::Win32).with_config(path("mine.cfg"));
    match relative.prepare(Platform::Unix, &FCEUX_ALL_FILES) {
        Err(Error::AbsolutePathFailed) => {},
        other => panic!("unexpected result: {other:?}"),
    }
}

#[test]
fn fceux_missing_config_fails_whatever_the_dialect() {
    let mut ctx = fceux_with(FceuxExe::Native).with_config(path("/cfg/fceux.cfg"));
    let facts = FceuxFacts { config_is_file: false, ..FCEUX_ALL_FILES };
    match ctx.prepare(Platform::Unix, &facts) {
        Err(Error::MissingConfig(p)) => assert_eq!(p.as_str(), "/cfg/fceux.cfg"),
        other => panic!("unexpected result: {other:?}"),
    }
}

#[test]
fn fceux_windows_dialect_uses_short_flags() {
    let ctx = fceux_with(FceuxExe::Win64)
        .with_config(path("/cfg/a.cfg"))
        .with_movie(path("/mov/b.fm2"))
        .with_lua(path("/lua/c.lua"))
        .with_rom(path("/roms/d.nes"));
    assert_eq!(ctx.cmd_name(Platform::Unix), "wine");
    assert_eq!(
        ctx.args(Platform::Unix),
        vec![
            "fceux64.exe".to_string(),
            "-cfg".to_string(),
            "/cfg/a.cfg".to_string(),
            "-playmovie".to_string(),
            "/mov/b.fm2".to_string(),
            "-lua".to_string(),
            "/lua/c.lua".to_string(),
            "/roms/d.nes".to_string(),
        ]
    );
    assert_eq!(
        ctx.env(Platform::Unix),
        vec![
            ("WINEPREFIX".to_string(), "/fc/.wine/".to_string()),
            ("HOME".to_string(), "/fc/.fceux/".to_string()),
        ]
    );
}

#[test]
fn fceux_native_dialect_uses_long_flags() {
    let ctx = fceux_with(FceuxExe::Native)
        .with_movie(path("/mov/b.fm2"))
        .with_lua(path("/lua/c.lua"))
        .with_rom(path("/roms/d.nes"));
    assert_eq!(ctx.cmd_name(Platform::Unix), "./fceux");
    assert_eq!(
        ctx.args(Platform::Unix),
        vec![
            "--playmov".to_string(),
            "/mov/b.fm2".to_string(),
            "--loadlua".to_string(),
            "/lua/c.lua".to_string(),
            "/roms/d.nes".to_string(),
        ]
    );
    assert_eq!(ctx.env(Platform::Unix), vec![("HOME".to_string(), "/fc/.fceux/".to_string())]);
    assert_eq!(ctx.determine_executable().as_deref(), Some("fceux"));
}

fn gens_at(dir: &str) -> GensContext {
    GensContext::new(path(dir), GensVersion::Ver11A, true, true).unwrap()
}

const GENS_ALL_FILES: GensFacts =
    GensFacts { rom_is_file: true, movie_is_file: true, lua_is_file: true };

#[test]
fn gens_construction_needs_the_marker() {
    match GensContext::new(path("/gens"), GensVersion::Ver11B, true, false) {
        Err(Error::MissingExecutable(p)) => assert_eq!(p.as_str(), "/gens/Gens.exe"),
        other => panic!("unexpected result: {other:?}"),
    }
    let ctx = gens_at("/gens");
    assert_eq!(ctx.version, GensVersion::Ver11A);
    assert!(!ctx.start_paused);
}

#[test]
fn gens_missing_rom_is_reported() {
    let mut ctx = gens_at("/gens").with_rom(path("/roms/sonic.bin"));
    let facts = GensFacts { rom_is_file: false, ..GENS_ALL_FILES };
    match ctx.prepare(&facts) {
        Err(Error::MissingRom(p)) => assert_eq!(p.as_str(), "/roms/sonic.bin"),
        other => panic!("unexpected result: {other:?}"),
    }
}

#[test]
fn gens_absolute_movie_is_kept_in_place() {
    let mut ctx = gens_at("/gens").with_movie(path("/mov/run.gmv"));
    let plan = ctx.prepare(&GENS_ALL_FILES).unwrap();
    assert!(plan.is_empty());
    assert_eq!(ctx.movie.as_ref().unwrap().as_str(), "/mov/run.gmv");
}

#[test]
fn gens_relative_movie_is_copied_and_renamed() {
    let mut ctx = gens_at("/gens").with_movie(path("runs/run.gmv"));
    let plan = ctx.prepare(&GENS_ALL_FILES).unwrap();
    assert_eq!(
        plan,
        vec![FsAction::CopyFile { src: path("runs/run.gmv"), dest: path("/gens/run.gmv") }]
    );
    assert_eq!(ctx.movie.as_ref().unwrap().as_str(), "run.gmv");
}

#[test]
fn gens_pause_flag_leads_the_arguments() {
    let ctx = gens_at("/gens").with_pause(true).with_rom(path("sonic.bin"));
    assert_eq!(ctx.cmd_name(Platform::Unix), "wine");
    assert_eq!(
        ctx.args(Platform::Unix),
        vec![
            "/gens/Gens.exe".to_string(),
            "-pause".to_string(),
            "0".to_string(),
            "-rom".to_string(),
            "sonic.bin".to_string(),
        ]
    );
    assert_eq!(
        ctx.env(Platform::Unix),
        vec![("WINEPREFIX".to_string(), "/gens/.wine/".to_string())]
    );
}

#[test]
fn gens_windows_command_is_the_executable() {
    let ctx = gens_at("/gens").with_rom(path("sonic.bin")).with_lua(path("/lua/c.lua"));
    assert_eq!(ctx.cmd_name(Platform::Windows), "Gens.exe");
    assert_eq!(
        ctx.args(Platform::Windows),
        vec![
            "-rom".to_string(),
            "sonic.bin".to_string(),
            "-lua".to_string(),
            "/lua/c.lua".to_string(),
        ]
    );
    assert!(ctx.env(Platform::Windows).is_empty());
}

#[test]
fn equivalent_contexts_prepare_to_the_same_plan() {
    let facts = all_files_facts("c9be7f8e4a05122e60545e8988920b710bd50ea7");
    let mut first = bizhawk_at("/emu").with_rom(path("/roms/d.nes"));
    let mut second = bizhawk_at("/emu").with_rom(path("/roms/d.nes"));
    let plan_a = first.prepare(Platform::Unix, &facts).unwrap();
    let plan_b = second.prepare(Platform::Unix, &facts).unwrap();
    assert_eq!(plan_a, plan_b);
    assert_eq!(first, second);
}

#[test]
fn gens_missing_lua_is_reported() {
    let mut ctx = gens_at("/gens").with_lua(path("scripts/c.lua"));
    let facts = GensFacts { lua_is_file: false, ..GENS_ALL_FILES };
    match ctx.prepare(&facts) {
        Err(Error::MissingLua(p)) => assert_eq!(p.as_str(), "scripts/c.lua"),
        other => panic!("unexpected result: {other:?}"),
    }
}

#[test]
fn repeated_preparation_yields_the_same_plan() {
    let facts = all_files_facts("eac6aa28589372d120e23e5b2f69b56c2542273b");
    let mut ctx = bizhawk_at("/emu").with_rom(path("/roms/d.nes"));
    let plan_a = ctx.prepare(Platform::Unix, &facts).unwrap();
    let plan_b = ctx.prepare(Platform::Unix, &facts).unwrap();
    assert_eq!(plan_a, plan_b);
    // Once the plan has been carried out, the staged file holds exactly the
    // planned bytes, so the repeated write is skipped.
    match &plan_b[..] {
        [FsAction::WriteBytes { data, .. }] => {
            assert!(!tas_launcher::includes::copy_if_different(data, Some(data)));
        },
        other => panic!("unexpected plan: {other:?}"),
    }
}
