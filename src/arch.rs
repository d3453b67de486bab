use vstd::prelude::*;

verus! {

/// A supported target architecture. The set is closed: adding one means
/// adding a variant, a row of the profile table and an emulator branch.
#[derive(Clone, Copy, Debug, PartialEq, Eq, Structural)]
pub enum Arch {
    Riscv64,
    Aarch64,
    X86_64,
    Loongarch64,
}

/// The identifier by which the architecture is selected.
pub open spec fn spec_name(a: Arch) -> Seq<char> {
    match a {
        Arch::Riscv64 => "riscv64"@,
        Arch::Aarch64 => "aarch64"@,
        Arch::X86_64 => "x86_64"@,
        Arch::Loongarch64 => "loongarch64"@,
    }
}

/// The toolchain target triple.
pub open spec fn spec_target(a: Arch) -> Seq<char> {
    match a {
        Arch::Riscv64 => "riscv64gc-unknown-none-elf"@,
        Arch::Aarch64 => "aarch64-unknown-none-softfloat"@,
        Arch::X86_64 => "x86_64-unknown-none"@,
        Arch::Loongarch64 => "loongarch64-unknown-none"@,
    }
}

/// The platform (memory and boot layout) identifier.
pub open spec fn spec_platform(a: Arch) -> Seq<char> {
    match a {
        Arch::Riscv64 => "riscv64-qemu-virt"@,
        Arch::Aarch64 => "aarch64-qemu-virt"@,
        Arch::X86_64 => "x86-pc"@,
        Arch::Loongarch64 => "loongarch64-qemu-virt"@,
    }
}

/// The architecture name handed to the binary converter.
pub open spec fn spec_objcopy_arch(a: Arch) -> Seq<char> {
    match a {
        Arch::Riscv64 => "riscv64"@,
        Arch::Aarch64 => "aarch64"@,
        Arch::X86_64 => "x86_64"@,
        Arch::Loongarch64 => "loongarch64"@,
    }
}

/// Resolution of an identifier: an exact match, no normalisation.
pub open spec fn spec_from_name(s: Seq<char>) -> Option<Arch> {
    if s == "riscv64"@ {
        Some(Arch::Riscv64)
    } else if s == "aarch64"@ {
        Some(Arch::Aarch64)
    } else if s == "x86_64"@ {
        Some(Arch::X86_64)
    } else if s == "loongarch64"@ {
        Some(Arch::Loongarch64)
    } else {
        None
    }
}

/// The list of supported identifiers, as shown to a user who gave another.
pub open spec fn spec_supported_list() -> Seq<char> {
    "riscv64, aarch64, x86_64, loongarch64"@
}

/// Compares two string slices character by character.
pub fn str_eq(a: &str, b: &str) -> (r: bool)
    ensures
        r == (a@ == b@),
{
    a.to_owned() == b.to_owned()
}

/// The resolved profile of an architecture.
#[derive(Debug)]
pub struct ArchInfo {
    pub arch: Arch,
    pub target: &'static str,
    pub platform: &'static str,
    pub objcopy_arch: &'static str,
}

impl ArchInfo {
    /// The profile holds exactly the table's row for its architecture.
    pub open spec fn wf(&self) -> bool {
        &&& self.target@ == spec_target(self.arch)
        &&& self.platform@ == spec_platform(self.arch)
        &&& self.objcopy_arch@ == spec_objcopy_arch(self.arch)
    }
}

/// An identifier outside the supported set.
#[derive(Debug)]
pub struct UnsupportedArch {
    pub name: String,
}

impl UnsupportedArch {
    /// A message naming the rejected identifier and listing the valid ones.
    pub fn message(&self) -> (r: String)
        ensures
            r@ == "unsupported architecture '"@ + self.name@ + "'. Supported: "@
                + spec_supported_list(),
    {
        let mut m = String::from_str("unsupported architecture '");
        m.append(self.name.as_str());
        m.append("'. Supported: ");
        m.append("riscv64, aarch64, x86_64, loongarch64");
        m
    }

    /// The process exit status for this error.
    pub fn exit_code(&self) -> (r: i32)
        ensures
            r == 1,
    {
        1
    }
}

impl Arch {
    /// The identifier of this architecture.
    pub fn name(&self) -> (r: &'static str)
        ensures
            r@ == spec_name(*self),
    {
        match self {
            Arch::Riscv64 => "riscv64",
            Arch::Aarch64 => "aarch64",
            Arch::X86_64 => "x86_64",
            Arch::Loongarch64 => "loongarch64",
        }
    }

    /// Resolves an identifier; anything but the four names is rejected.
    pub fn from_name(s: &str) -> (r: Option<Arch>)
        ensures
            r == spec_from_name(s@),
    {
        if str_eq(s, "riscv64") {
            Some(Arch::Riscv64)
        } else if str_eq(s, "aarch64") {
            Some(Arch::Aarch64)
        } else if str_eq(s, "x86_64") {
            Some(Arch::X86_64)
        } else if str_eq(s, "loongarch64") {
            Some(Arch::Loongarch64)
        } else {
            None
        }
    }

    /// The toolchain target triple.
    pub fn target(&self) -> (r: &'static str)
        ensures
            r@ == spec_target(*self),
    {
        match self {
            Arch::Riscv64 => "riscv64gc-unknown-none-elf",
            Arch::Aarch64 => "aarch64-unknown-none-softfloat",
            Arch::X86_64 => "x86_64-unknown-none",
            Arch::Loongarch64 => "loongarch64-unknown-none",
        }
    }

    /// The platform identifier.
    pub fn platform(&self) -> (r: &'static str)
        ensures
            r@ == spec_platform(*self),
    {
        match self {
            Arch::Riscv64 => "riscv64-qemu-virt",
            Arch::Aarch64 => "aarch64-qemu-virt",
            Arch::X86_64 => "x86-pc",
            Arch::Loongarch64 => "loongarch64-qemu-virt",
        }
    }

    /// The architecture name handed to the binary converter.
    pub fn objcopy_arch(&self) -> (r: &'static str)
        ensures
            r@ == spec_objcopy_arch(*self),
    {
        match self {
            Arch::Riscv64 => "riscv64",
            Arch::Aarch64 => "aarch64",
            Arch::X86_64 => "x86_64",
            Arch::Loongarch64 => "loongarch64",
        }
    }

    /// The profile of this architecture.
    pub fn info(&self) -> (r: ArchInfo)
        ensures
            r.arch == *self,
            r.wf(),
    {
        ArchInfo {
            arch: *self,
            target: self.target(),
            platform: self.platform(),
            objcopy_arch: self.objcopy_arch(),
        }
    }
}

/// Resolves an architecture identifier to its profile, or rejects it.
pub fn arch_info(arch: &str) -> (r: Result<ArchInfo, UnsupportedArch>)
    ensures
        match spec_from_name(arch@) {
            Some(a) => r matches Ok(info) && info.arch == a && info.wf(),
            None => r matches Err(e) && e.name@ == arch@,
        },
{
    match Arch::from_name(arch) {
        Some(a) => Ok(a.info()),
        None => Err(UnsupportedArch { name: arch.to_owned() }),
    }
}

/// Every supported architecture resolves from its own identifier, and to
/// nothing else: the identifiers are pairwise distinct.
pub proof fn lemma_name_resolves(a: Arch)
    ensures
        spec_from_name(spec_name(a)) == Some(a),
{
    reveal_strlit("riscv64");
    reveal_strlit("aarch64");
    reveal_strlit("x86_64");
    reveal_strlit("loongarch64");
    assert("riscv64"@[0] == 'r');
    assert("aarch64"@[0] == 'a');
    assert("x86_64"@[0] == 'x');
    assert("loongarch64"@[0] == 'l');
}

/// Resolution of any supported identifier yields the fixed row of the table:
/// riscv64 to riscv64gc-unknown-none-elf, aarch64 to
/// aarch64-unknown-none-softfloat, x86_64 to x86_64-unknown-none and
/// loongarch64 to loongarch64-unknown-none, with the matching platform and
/// converter names.
pub proof fn lemma_profile_table(a: Arch)
    ensures
        spec_from_name(spec_name(a)) == Some(a),
        a == Arch::Riscv64 ==> spec_target(a) == "riscv64gc-unknown-none-elf"@
            && spec_platform(a) == "riscv64-qemu-virt"@ && spec_objcopy_arch(a) == "riscv64"@,
        a == Arch::Aarch64 ==> spec_target(a) == "aarch64-unknown-none-softfloat"@
            && spec_platform(a) == "aarch64-qemu-virt"@ && spec_objcopy_arch(a) == "aarch64"@,
        a == Arch::X86_64 ==> spec_target(a) == "x86_64-unknown-none"@ && spec_platform(a)
            == "x86-pc"@ && spec_objcopy_arch(a) == "x86_64"@,
        a == Arch::Loongarch64 ==> spec_target(a) == "loongarch64-unknown-none"@
            && spec_platform(a) == "loongarch64-qemu-virt"@ && spec_objcopy_arch(a)
            == "loongarch64"@,
{
    lemma_name_resolves(a);
}

} // verus!
