use vstd::prelude::*;

use crate::arch::{spec_from_name, Arch, UnsupportedArch};
use crate::commands::{
    build_args, build_program, config_env_name, objcopy_args, objcopy_program, qemu_args,
    qemu_program, spec_build_args, spec_objcopy_args, spec_qemu_args, spec_qemu_program, views,
};
use crate::paths::{
    bin_path, config_dest, config_source, elf_path, spec_bin_path, spec_config_dest,
    spec_config_source, spec_elf_path,
};

verus! {

/// What the user asked for.
#[derive(Clone, Copy, Debug, PartialEq, Eq, Structural)]
pub enum Command {
    /// Install the configuration and build the kernel.
    Build,
    /// Build, convert where needed, and boot the kernel in the emulator.
    Run,
}

/// Where a pipeline stands: the step whose outcome it waits for.
#[derive(Clone, Copy, Debug, PartialEq, Eq, Structural)]
pub enum Stage {
    Install,
    Build,
    Convert,
    Emulate,
    Finished,
}

/// How a step went.
#[derive(Clone, Copy, Debug, PartialEq, Eq, Structural)]
pub enum Outcome {
    /// The step completed; a process exited with success.
    Success,
    /// The step ran and failed; `code` is the process's exit code, if any.
    Failure { code: Option<i32> },
    /// The step could not run: a file was missing or a program could not be
    /// started.
    Unavailable,
}

/// The next thing to do.
#[derive(Debug)]
pub enum Action {
    /// Copy `src` over `dst`, replacing what `dst` held.
    InstallConfig { src: String, dst: String },
    /// Run the build with one environment variable set.
    Build { program: String, args: Vec<String>, env_name: String, env_value: String },
    /// Run the binary converter.
    Convert { program: String, args: Vec<String> },
    /// Run the emulator.
    Emulate { program: String, args: Vec<String> },
    /// Stop with this exit status.
    Exit { code: i32 },
}

/// An action's content as text.
pub enum ActionView {
    InstallConfig { src: Seq<char>, dst: Seq<char> },
    Build {
        program: Seq<char>,
        args: Seq<Seq<char>>,
        env_name: Seq<char>,
        env_value: Seq<char>,
    },
    Convert { program: Seq<char>, args: Seq<Seq<char>> },
    Emulate { program: Seq<char>, args: Seq<Seq<char>> },
    Exit { code: i32 },
}

impl View for Action {
    type V = ActionView;

    open spec fn view(&self) -> ActionView {
        match self {
            Action::InstallConfig { src, dst } => ActionView::InstallConfig {
                src: src@,
                dst: dst@,
            },
            Action::Build { program, args, env_name, env_value } => ActionView::Build {
                program: program@,
                args: views(args@),
                env_name: env_name@,
                env_value: env_value@,
            },
            Action::Convert { program, args } => ActionView::Convert {
                program: program@,
                args: views(args@),
            },
            Action::Emulate { program, args } => ActionView::Emulate {
                program: program@,
                args: views(args@),
            },
            Action::Exit { code } => ActionView::Exit { code: *code },
        }
    }
}

/// The exit status that an outcome leaves the process with: zero on
/// success, the failed program's own code where it has one, else one.
pub open spec fn spec_exit_code(o: Outcome) -> i32 {
    match o {
        Outcome::Success => 0,
        Outcome::Failure { code: Some(c) } => c,
        Outcome::Failure { code: None } => 1,
        Outcome::Unavailable => 1,
    }
}

/// The stage after `s` ends with `o`. Any failure finishes the pipeline;
/// success advances along Install, Build, Convert, Emulate, where a build
/// command stops after Build and x86_64 skips Convert.
pub open spec fn spec_next_stage(cmd: Command, a: Arch, s: Stage, o: Outcome) -> Stage {
    if o != Outcome::Success {
        Stage::Finished
    } else {
        match s {
            Stage::Install => Stage::Build,
            Stage::Build => if cmd == Command::Build {
                Stage::Finished
            } else if a == Arch::X86_64 {
                Stage::Emulate
            } else {
                Stage::Convert
            },
            Stage::Convert => Stage::Emulate,
            Stage::Emulate => Stage::Finished,
            Stage::Finished => Stage::Finished,
        }
    }
}

/// The action that entering stage `s` calls for, `o` being the outcome that
/// led there.
pub open spec fn spec_action(a: Arch, root: Seq<char>, s: Stage, o: Outcome) -> ActionView {
    let elf = spec_elf_path(root, a);
    let bin = spec_bin_path(elf);
    match s {
        Stage::Install => ActionView::InstallConfig {
            src: spec_config_source(root, a),
            dst: spec_config_dest(root),
        },
        Stage::Build => ActionView::Build {
            program: "cargo"@,
            args: spec_build_args(root, a),
            env_name: "AX_CONFIG_PATH"@,
            env_value: spec_config_dest(root),
        },
        Stage::Convert => ActionView::Convert {
            program: "rust-objcopy"@,
            args: spec_objcopy_args(a, elf, bin),
        },
        Stage::Emulate => ActionView::Emulate {
            program: spec_qemu_program(a),
            args: spec_qemu_args(a, elf, bin),
        },
        Stage::Finished => ActionView::Exit { code: spec_exit_code(o) },
    }
}

/// One run of the tool: what was asked, for which architecture and project,
/// and how far it has come.
#[derive(Debug)]
pub struct Pipeline {
    pub command: Command,
    pub arch: Arch,
    pub root: String,
    pub stage: Stage,
}

/// The exit status that an outcome leaves the process with.
pub fn exit_code(o: Outcome) -> (r: i32)
    ensures
        r == spec_exit_code(o),
{
    match o {
        Outcome::Success => 0,
        Outcome::Failure { code: Some(c) } => c,
        Outcome::Failure { code: None } => 1,
        Outcome::Unavailable => 1,
    }
}

/// The action for entering stage `s`.
fn action_for(a: Arch, root: &str, s: Stage, o: Outcome) -> (r: Action)
    ensures
        r@ == spec_action(a, root@, s, o),
{
    match s {
        Stage::Install => Action::InstallConfig {
            src: config_source(root, a),
            dst: config_dest(root),
        },
        Stage::Build => Action::Build {
            program: build_program(),
            args: build_args(root, a),
            env_name: config_env_name(),
            env_value: config_dest(root),
        },
        Stage::Convert => {
            let elf = elf_path(root, a);
            let bin = bin_path(elf.as_str());
            Action::Convert { program: objcopy_program(), args: objcopy_args(a, elf.as_str(), bin.as_str()) }
        },
        Stage::Emulate => {
            let elf = elf_path(root, a);
            let bin = bin_path(elf.as_str());
            Action::Emulate { program: qemu_program(a), args: qemu_args(a, elf.as_str(), bin.as_str()) }
        },
        Stage::Finished => Action::Exit { code: exit_code(o) },
    }
}

/// Starts a pipeline for the architecture named `arch_name` in the project
/// at `root`. An unsupported name is rejected before any action is issued.
pub fn start(command: Command, arch_name: &str, root: &str) -> (r: Result<
    (Pipeline, Action),
    UnsupportedArch,
>)
    ensures
        match spec_from_name(arch_name@) {
            Some(a) => r matches Ok((p, act)) && p.command == command && p.arch == a && p.root@
                == root@ && p.stage == Stage::Install && act@ == spec_action(
                a,
                root@,
                Stage::Install,
                Outcome::Success,
            ),
            None => r matches Err(e) && e.name@ == arch_name@,
        },
{
    match Arch::from_name(arch_name) {
        Some(a) => {
            let act = action_for(a, root, Stage::Install, Outcome::Success);
            let p = Pipeline { command, arch: a, root: String::from_str(root), stage: Stage::Install };
            Ok((p, act))
        },
        None => Err(UnsupportedArch { name: arch_name.to_owned() }),
    }
}

impl Pipeline {
    /// Whether the pipeline has nothing left to do.
    pub fn is_finished(&self) -> (r: bool)
        ensures
            r == (self.stage == Stage::Finished),
    {
        self.stage == Stage::Finished
    }

    /// Takes the outcome of the current step and returns the next action.
    pub fn advance(&mut self, outcome: Outcome) -> (r: Action)
        requires
            old(self).stage != Stage::Finished,
        ensures
            final(self).command == old(self).command,
            final(self).arch == old(self).arch,
            final(self).root@ == old(self).root@,
            final(self).stage == spec_next_stage(
                old(self).command,
                old(self).arch,
                old(self).stage,
                outcome,
            ),
            r@ == spec_action(old(self).arch, old(self).root@, final(self).stage, outcome),
    {
        let next = match outcome {
            Outcome::Success => match self.stage {
                Stage::Install => Stage::Build,
                Stage::Build => match self.command {
                    Command::Build => Stage::Finished,
                    Command::Run => match self.arch {
                        Arch::X86_64 => Stage::Emulate,
                        _ => Stage::Convert,
                    },
                },
                Stage::Convert => Stage::Emulate,
                Stage::Emulate => Stage::Finished,
                Stage::Finished => Stage::Finished,
            },
            _ => Stage::Finished,
        };
        self.stage = next;
        action_for(self.arch, self.root.as_str(), next, outcome)
    }
}

/// How many steps at most remain from a stage.
pub open spec fn spec_rank(s: Stage) -> nat {
    match s {
        Stage::Install => 4,
        Stage::Build => 3,
        Stage::Convert => 2,
        Stage::Emulate => 1,
        Stage::Finished => 0,
    }
}

/// The stages passed through from `s` when every step succeeds.
pub open spec fn spec_success_run(cmd: Command, a: Arch, s: Stage) -> Seq<Stage>
    decreases spec_rank(s),
{
    if s == Stage::Finished {
        seq![Stage::Finished]
    } else {
        seq![s] + spec_success_run(cmd, a, spec_next_stage(cmd, a, s, Outcome::Success))
    }
}

/// Every step moves the pipeline strictly forward, so no stage, and no
/// action, comes twice in one run, whatever the outcomes.
pub proof fn lemma_progress(cmd: Command, a: Arch, s: Stage, o: Outcome)
    requires
        s != Stage::Finished,
    ensures
        spec_rank(spec_next_stage(cmd, a, s, o)) < spec_rank(s),
{
}

/// On x86_64 the binary converter never runs, on any path, and the emulator
/// boots the linked executable rather than a raw binary.
pub proof fn lemma_x86_64_never_converts(cmd: Command, root: Seq<char>, s: Stage, o: Outcome)
    ensures
        spec_next_stage(cmd, Arch::X86_64, s, o) != Stage::Convert,
        spec_success_run(Command::Run, Arch::X86_64, Stage::Install) == seq![
            Stage::Install,
            Stage::Build,
            Stage::Emulate,
            Stage::Finished,
        ],
        spec_action(Arch::X86_64, root, Stage::Emulate, o) matches ActionView::Emulate { args, .. }
            && args.last() == spec_elf_path(root, Arch::X86_64),
{
    reveal_with_fuel(spec_success_run, 5);
    assert(spec_success_run(Command::Run, Arch::X86_64, Stage::Install) =~= seq![
        Stage::Install,
        Stage::Build,
        Stage::Emulate,
        Stage::Finished,
    ]);
}

/// On every other architecture a run converts exactly once: conversion is
/// entered only from a successful build, the emulator only after a
/// successful conversion, and the emulator boots the `.bin` beside the
/// executable that conversion wrote.
pub proof fn lemma_other_arch_converts_once(a: Arch, root: Seq<char>, s: Stage, o: Outcome)
    requires
        a != Arch::X86_64,
    ensures
        spec_next_stage(Command::Run, a, s, o) == Stage::Convert ==> s == Stage::Build && o
            == Outcome::Success,
        spec_next_stage(Command::Run, a, s, o) == Stage::Emulate ==> s == Stage::Convert && o
            == Outcome::Success,
        spec_success_run(Command::Run, a, Stage::Install) == seq![
            Stage::Install,
            Stage::Build,
            Stage::Convert,
            Stage::Emulate,
            Stage::Finished,
        ],
        spec_action(a, root, Stage::Convert, o) matches ActionView::Convert { args, .. } && args[1]
            == spec_elf_path(root, a) && args.last() == spec_bin_path(spec_elf_path(root, a)),
        spec_action(a, root, Stage::Emulate, o) matches ActionView::Emulate { args, .. }
            && args.last() == spec_bin_path(spec_elf_path(root, a)),
{
    reveal_with_fuel(spec_success_run, 6);
    assert(spec_success_run(Command::Run, a, Stage::Install) =~= seq![
        Stage::Install,
        Stage::Build,
        Stage::Convert,
        Stage::Emulate,
        Stage::Finished,
    ]);
}

/// The exit status: the emulator's own when it runs; the build's own when the
/// build fails; one when a program cannot be started or the configuration
/// is missing; zero when a build command's build succeeds.
pub proof fn lemma_exit_status(cmd: Command, a: Arch, root: Seq<char>, o: Outcome)
    ensures
        spec_next_stage(cmd, a, Stage::Emulate, o) == Stage::Finished,
        spec_action(a, root, spec_next_stage(cmd, a, Stage::Emulate, o), o) == (ActionView::Exit {
            code: spec_exit_code(o),
        }),
        o != Outcome::Success ==> spec_next_stage(cmd, a, Stage::Build, o) == Stage::Finished,
        o != Outcome::Success ==> spec_next_stage(cmd, a, Stage::Install, o) == Stage::Finished,
        o != Outcome::Success ==> spec_next_stage(cmd, a, Stage::Convert, o) == Stage::Finished,
        forall|c: i32|
            spec_exit_code(Outcome::Failure { code: Some(c) }) == c,
        spec_exit_code(Outcome::Failure { code: None }) == 1,
        spec_exit_code(Outcome::Unavailable) == 1,
        spec_exit_code(Outcome::Success) == 0,
        spec_next_stage(Command::Build, a, Stage::Build, Outcome::Success) == Stage::Finished,
{
}

} // verus!
