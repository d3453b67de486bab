use xtask::arch::Arch;
use xtask::commands::{build_args, objcopy_args, qemu_args, qemu_program};
use xtask::pipeline::{exit_code, start, Action, Command, Outcome, Pipeline, Stage};

fn start_ok(cmd: Command, arch: &str) -> (Pipeline, Action) {
    start(cmd, arch, "/p").unwrap()
}

/// Feeds success to every step and returns the actions issued.
fn run_all(cmd: Command, arch: &str) -> Vec<Action> {
    let (mut p, first) = start_ok(cmd, arch);
    let mut out = vec![first];
    while !p.is_finished() {
        out.push(p.advance(Outcome::Success));
    }
    out
}

fn kind(a: &Action) -> &'static str {
    match a {
        Action::InstallConfig { .. } => "install",
        Action::Build { .. } => "build",
        Action::Convert { .. } => "convert",
        Action::Emulate { .. } => "emulate",
        Action::Exit { .. } => "exit",
    }
}

#[test]
fn unsupported_arch_issues_no_action() {
    let e = start(Command::Run, "mips", "/p").unwrap_err();
    assert_eq!(e.name, "mips");
    assert_eq!(e.exit_code(), 1);
}

#[test]
fn first_action_installs_config() {
    let (p, a) = start_ok(Command::Build, "riscv64");
    assert_eq!(p.stage, Stage::Install);
    match a {
        Action::InstallConfig { src, dst } => {
            assert_eq!(src, "/p/configs/riscv64.toml");
            assert_eq!(dst, "/p/.axconfig.toml");
        }
        other => panic!("unexpected {:?}", other),
    }
}

#[test]
fn build_command_stops_after_build() {
    let acts = run_all(Command::Build, "aarch64");
    let kinds: Vec<&str> = acts.iter().map(kind).collect();
    assert_eq!(kinds, vec!["install", "build", "exit"]);
    match &acts[1] {
        Action::Build { program, args, env_name, env_value } => {
            assert_eq!(program, "cargo");
            assert_eq!(
                *args,
                vec![
                    "build",
                    "--release",
                    "--target",
                    "aarch64-unknown-none-softfloat",
                    "--manifest-path",
                    "/p/Cargo.toml"
                ]
            );
            assert_eq!(env_name, "AX_CONFIG_PATH");
            assert_eq!(env_value, "/p/.axconfig.toml");
        }
        other => panic!("unexpected {:?}", other),
    }
    assert!(matches!(acts[2], Action::Exit { code: 0 }));
}

#[test]
fn x86_64_run_skips_conversion() {
    let acts = run_all(Command::Run, "x86_64");
    let kinds: Vec<&str> = acts.iter().map(kind).collect();
    assert_eq!(kinds, vec!["install", "build", "emulate", "exit"]);
    match &acts[2] {
        Action::Emulate { program, args } => {
            assert_eq!(program, "qemu-system-x86_64");
            let last = args.last().unwrap();
            assert_eq!(last, "/p/target/x86_64-unknown-none/release/arceos-helloworld");
            assert!(!last.ends_with(".bin"));
        }
        other => panic!("unexpected {:?}", other),
    }
}

#[test]
fn other_runs_convert_once() {
    for arch in ["riscv64", "aarch64", "loongarch64"] {
        let acts = run_all(Command::Run, arch);
        let kinds: Vec<&str> = acts.iter().map(kind).collect();
        assert_eq!(kinds, vec!["install", "build", "convert", "emulate", "exit"]);
        let bin = match &acts[2] {
            Action::Convert { program, args } => {
                assert_eq!(program, "rust-objcopy");
                assert_eq!(args[0], format!("--binary-architecture={arch}"));
                assert_eq!(format!("{}.bin", args[1]), args[5]);
                args[5].clone()
            }
            other => panic!("unexpected {:?}", other),
        };
        match &acts[3] {
            Action::Emulate { args, .. } => assert_eq!(args.last().unwrap(), &bin),
            other => panic!("unexpected {:?}", other),
        }
    }
}

#[test]
fn emulator_exit_code_propagates() {
    let (mut p, _) = start_ok(Command::Run, "riscv64");
    p.advance(Outcome::Success);
    p.advance(Outcome::Success);
    let a = p.advance(Outcome::Success);
    assert!(matches!(a, Action::Emulate { .. }));
    let a = p.advance(Outcome::Failure { code: Some(3) });
    assert!(matches!(a, Action::Exit { code: 3 }));
    assert!(p.is_finished());
}

#[test]
fn emulator_clean_exit_is_zero() {
    let acts = run_all(Command::Run, "loongarch64");
    assert!(matches!(acts.last().unwrap(), Action::Exit { code: 0 }));
}

#[test]
fn build_failure_code_propagates() {
    let (mut p, _) = start_ok(Command::Run, "aarch64");
    p.advance(Outcome::Success);
    let a = p.advance(Outcome::Failure { code: Some(101) });
    assert!(matches!(a, Action::Exit { code: 101 }));
    assert!(p.is_finished());
}

#[test]
fn missing_program_exits_one() {
    let (mut p, _) = start_ok(Command::Run, "riscv64");
    p.advance(Outcome::Success);
    let a = p.advance(Outcome::Success);
    assert!(matches!(a, Action::Convert { .. }));
    let a = p.advance(Outcome::Unavailable);
    assert!(matches!(a, Action::Exit { code: 1 }));

    let (mut p, _) = start_ok(Command::Run, "x86_64");
    p.advance(Outcome::Success);
    p.advance(Outcome::Success);
    let a = p.advance(Outcome::Unavailable);
    assert!(matches!(a, Action::Exit { code: 1 }));
}

#[test]
fn missing_config_stops_before_build() {
    let (mut p, _) = start_ok(Command::Build, "riscv64");
    let a = p.advance(Outcome::Unavailable);
    assert!(matches!(a, Action::Exit { code: 1 }));
    assert!(p.is_finished());
}

#[test]
fn exit_codes() {
    assert_eq!(exit_code(Outcome::Success), 0);
    assert_eq!(exit_code(Outcome::Failure { code: Some(7) }), 7);
    assert_eq!(exit_code(Outcome::Failure { code: None }), 1);
    assert_eq!(exit_code(Outcome::Unavailable), 1);
}

#[test]
fn emulator_flags_per_arch() {
    let common = ["-m", "128M", "-smp", "1", "-nographic"];
    let r = qemu_args(Arch::Riscv64, "k", "k.bin");
    assert_eq!(r[..5], common);
    assert_eq!(r[5..], ["-machine", "virt", "-bios", "default", "-kernel", "k.bin"]);
    let r = qemu_args(Arch::Aarch64, "k", "k.bin");
    assert_eq!(r[5..], ["-cpu", "cortex-a72", "-machine", "virt", "-kernel", "k.bin"]);
    let r = qemu_args(Arch::X86_64, "k", "k.bin");
    assert_eq!(r[5..], ["-machine", "q35", "-kernel", "k"]);
    let r = qemu_args(Arch::Loongarch64, "k", "k.bin");
    assert_eq!(r[5..], ["-machine", "virt", "-kernel", "k.bin"]);
    assert_eq!(qemu_program(Arch::Loongarch64), "qemu-system-loongarch64");
}

#[test]
fn converter_and_build_arguments() {
    assert_eq!(
        objcopy_args(Arch::Riscv64, "a", "a.bin"),
        vec!["--binary-architecture=riscv64", "a", "--strip-all", "-O", "binary", "a.bin"]
    );
    assert_eq!(
        build_args("/r", Arch::Loongarch64),
        vec!["build", "--release", "--target", "loongarch64-unknown-none", "--manifest-path", "/r/Cargo.toml"]
    );
}
