use vstd::prelude::*;

use crate::arch::{spec_name, spec_objcopy_arch, spec_target, Arch};
use crate::paths::{manifest_path, spec_manifest};

verus! {

/// The text of each argument of a list.
pub open spec fn views(v: Seq<String>) -> Seq<Seq<char>> {
    v.map_values(|s: String| s@)
}

/// Arguments of the release build for `a`, against the manifest under `root`.
pub open spec fn spec_build_args(root: Seq<char>, a: Arch) -> Seq<Seq<char>> {
    seq![
        "build"@,
        "--release"@,
        "--target"@,
        spec_target(a),
        "--manifest-path"@,
        spec_manifest(root),
    ]
}

/// Arguments that convert `elf` to the raw binary `bin`, stripping symbols.
pub open spec fn spec_objcopy_args(a: Arch, elf: Seq<char>, bin: Seq<char>) -> Seq<Seq<char>> {
    seq![
        "--binary-architecture="@ + spec_objcopy_arch(a),
        elf,
        "--strip-all"@,
        "-O"@,
        "binary"@,
        bin,
    ]
}

/// The emulator program for `a`.
pub open spec fn spec_qemu_program(a: Arch) -> Seq<char> {
    "qemu-system-"@ + spec_name(a)
}

/// The flags every emulated machine gets: memory size, processor count and
/// a console without graphics.
pub open spec fn spec_qemu_common() -> Seq<Seq<char>> {
    seq!["-m"@, "128M"@, "-smp"@, "1"@, "-nographic"@]
}

/// The image the emulator boots: the linked executable on x86_64, whose
/// machine model loads it directly, and the raw binary elsewhere.
pub open spec fn spec_boot_image(a: Arch, elf: Seq<char>, bin: Seq<char>) -> Seq<char> {
    if a == Arch::X86_64 {
        elf
    } else {
        bin
    }
}

/// The machine, processor and firmware flags of `a`, ending with the image.
pub open spec fn spec_qemu_machine(a: Arch, elf: Seq<char>, bin: Seq<char>) -> Seq<Seq<char>> {
    match a {
        Arch::Riscv64 => seq!["-machine"@, "virt"@, "-bios"@, "default"@, "-kernel"@, bin],
        Arch::Aarch64 => seq!["-cpu"@, "cortex-a72"@, "-machine"@, "virt"@, "-kernel"@, bin],
        Arch::X86_64 => seq!["-machine"@, "q35"@, "-kernel"@, elf],
        Arch::Loongarch64 => seq!["-machine"@, "virt"@, "-kernel"@, bin],
    }
}

/// The whole emulator argument list for `a`.
pub open spec fn spec_qemu_args(a: Arch, elf: Seq<char>, bin: Seq<char>) -> Seq<Seq<char>> {
    spec_qemu_common() + spec_qemu_machine(a, elf, bin)
}

/// Appends one argument.
fn push_arg(v: &mut Vec<String>, s: &str)
    ensures
        views(final(v)@) == views(old(v)@).push(s@),
{
    v.push(String::from_str(s));
    assert(views(v@) =~= views(old(v)@).push(s@));
}

/// The build tool's program name.
pub fn build_program() -> (r: String)
    ensures
        r@ == "cargo"@,
{
    String::from_str("cargo")
}

/// The environment variable through which the build finds the installed
/// configuration.
pub fn config_env_name() -> (r: String)
    ensures
        r@ == "AX_CONFIG_PATH"@,
{
    String::from_str("AX_CONFIG_PATH")
}

/// The binary converter's program name.
pub fn objcopy_program() -> (r: String)
    ensures
        r@ == "rust-objcopy"@,
{
    String::from_str("rust-objcopy")
}

/// Arguments of the release build for `arch` under `root`.
pub fn build_args(root: &str, arch: Arch) -> (r: Vec<String>)
    ensures
        views(r@) == spec_build_args(root@, arch),
{
    let mut v: Vec<String> = Vec::new();
    push_arg(&mut v, "build");
    push_arg(&mut v, "--release");
    push_arg(&mut v, "--target");
    push_arg(&mut v, arch.target());
    push_arg(&mut v, "--manifest-path");
    let m = manifest_path(root);
    push_arg(&mut v, m.as_str());
    assert(views(v@) =~= spec_build_args(root@, arch));
    v
}

/// Arguments that convert `elf` into the raw binary `bin`.
pub fn objcopy_args(arch: Arch, elf: &str, bin: &str) -> (r: Vec<String>)
    ensures
        views(r@) == spec_objcopy_args(arch, elf@, bin@),
{
    let mut flag = String::from_str("--binary-architecture=");
    flag.append(arch.objcopy_arch());
    let mut v: Vec<String> = Vec::new();
    push_arg(&mut v, flag.as_str());
    push_arg(&mut v, elf);
    push_arg(&mut v, "--strip-all");
    push_arg(&mut v, "-O");
    push_arg(&mut v, "binary");
    push_arg(&mut v, bin);
    assert(views(v@) =~= spec_objcopy_args(arch, elf@, bin@));
    v
}

/// The emulator program for `arch`.
pub fn qemu_program(arch: Arch) -> (r: String)
    ensures
        r@ == spec_qemu_program(arch),
{
    let mut r = String::from_str("qemu-system-");
    r.append(arch.name());
    r
}

/// The emulator arguments for `arch`, booting `elf` or `bin` as the machine
/// model requires.
pub fn qemu_args(arch: Arch, elf: &str, bin: &str) -> (r: Vec<String>)
    ensures
        views(r@) == spec_qemu_args(arch, elf@, bin@),
{
    let mut v: Vec<String> = Vec::new();
    push_arg(&mut v, "-m");
    push_arg(&mut v, "128M");
    push_arg(&mut v, "-smp");
    push_arg(&mut v, "1");
    push_arg(&mut v, "-nographic");
    match arch {
        Arch::Riscv64 => {
            push_arg(&mut v, "-machine");
            push_arg(&mut v, "virt");
            push_arg(&mut v, "-bios");
            push_arg(&mut v, "default");
            push_arg(&mut v, "-kernel");
            push_arg(&mut v, bin);
        },
        Arch::Aarch64 => {
            push_arg(&mut v, "-cpu");
            push_arg(&mut v, "cortex-a72");
            push_arg(&mut v, "-machine");
            push_arg(&mut v, "virt");
            push_arg(&mut v, "-kernel");
            push_arg(&mut v, bin);
        },
        Arch::X86_64 => {
            push_arg(&mut v, "-machine");
            push_arg(&mut v, "q35");
            push_arg(&mut v, "-kernel");
            push_arg(&mut v, elf);
        },
        Arch::Loongarch64 => {
            push_arg(&mut v, "-machine");
            push_arg(&mut v, "virt");
            push_arg(&mut v, "-kernel");
            push_arg(&mut v, bin);
        },
    }
    assert(views(v@) =~= spec_qemu_args(arch, elf@, bin@));
    v
}

/// The emulator boots the image that `spec_boot_image` names: its last
/// argument, following `-kernel`.
pub proof fn lemma_qemu_boots_image(a: Arch, elf: Seq<char>, bin: Seq<char>)
    ensures
        spec_qemu_args(a, elf, bin).last() == spec_boot_image(a, elf, bin),
        spec_qemu_args(a, elf, bin)[spec_qemu_args(a, elf, bin).len() - 2] == "-kernel"@,
{
}

} // verus!
