use vstd::prelude::*;

use crate::arch::{spec_name, spec_target, Arch};

verus! {

/// A path under `base`: the two joined by one separator.
pub open spec fn spec_join(base: Seq<char>, name: Seq<char>) -> Seq<char> {
    base + "/"@ + name
}

/// A directory path without trailing separators, except a lone root `/`.
pub open spec fn spec_trim_root(s: Seq<char>) -> Seq<char>
    decreases s.len(),
{
    if s.len() > 1 && s.last() == '/' {
        spec_trim_root(s.drop_last())
    } else {
        s
    }
}

/// Where the architecture's configuration is read from.
pub open spec fn spec_config_source(root: Seq<char>, a: Arch) -> Seq<char> {
    spec_join(spec_join(root, "configs"@), spec_name(a) + ".toml"@)
}

/// The single fixed place the configuration is installed to.
pub open spec fn spec_config_dest(root: Seq<char>) -> Seq<char> {
    spec_join(root, ".axconfig.toml"@)
}

/// The manifest that the build reads.
pub open spec fn spec_manifest(root: Seq<char>) -> Seq<char> {
    spec_join(root, "Cargo.toml"@)
}

/// The linked kernel executable that a release build for `a` produces.
pub open spec fn spec_elf_path(root: Seq<char>, a: Arch) -> Seq<char> {
    spec_join(
        spec_join(spec_join(spec_join(root, "target"@), spec_target(a)), "release"@),
        "arceos-helloworld"@,
    )
}

/// The raw binary beside an executable: the same stem with the extension
/// `bin`. The kernel image's name carries no extension of its own.
pub open spec fn spec_bin_path(elf: Seq<char>) -> Seq<char> {
    elf + ".bin"@
}

/// Joins `name` under `base`.
pub fn join(base: &str, name: &str) -> (r: String)
    ensures
        r@ == spec_join(base@, name@),
{
    let mut r = String::from_str(base);
    r.append("/");
    r.append(name);
    r
}

/// The project root given the directory that holds its manifest: that
/// directory with its trailing separators removed.
pub fn project_root(manifest_dir: &str) -> (r: String)
    ensures
        r@ == spec_trim_root(manifest_dir@),
{
    let n0 = manifest_dir.unicode_len();
    let mut n: usize = n0;
    assert(manifest_dir@.subrange(0, n0 as int) =~= manifest_dir@);
    while n > 1 && manifest_dir.get_char(n - 1) == '/'
        invariant
            n0 == manifest_dir@.len(),
            n <= n0,
            spec_trim_root(manifest_dir@.subrange(0, n as int)) == spec_trim_root(
                manifest_dir@,
            ),
        decreases n,
    {
        let ghost s = manifest_dir@.subrange(0, n as int);
        assert(s.drop_last() =~= manifest_dir@.subrange(0, n - 1));
        n = n - 1;
    }
    manifest_dir.substring_char(0, n).to_owned()
}

/// The configuration file for `arch` under `root`.
pub fn config_source(root: &str, arch: Arch) -> (r: String)
    ensures
        r@ == spec_config_source(root@, arch),
{
    let dir = join(root, "configs");
    let mut file = String::from_str(arch.name());
    file.append(".toml");
    join(dir.as_str(), file.as_str())
}

/// The installed configuration under `root`.
pub fn config_dest(root: &str) -> (r: String)
    ensures
        r@ == spec_config_dest(root@),
{
    join(root, ".axconfig.toml")
}

/// The build manifest under `root`.
pub fn manifest_path(root: &str) -> (r: String)
    ensures
        r@ == spec_manifest(root@),
{
    join(root, "Cargo.toml")
}

/// The linked kernel executable for `arch` under `root`.
pub fn elf_path(root: &str, arch: Arch) -> (r: String)
    ensures
        r@ == spec_elf_path(root@, arch),
{
    let t = join(root, "target");
    let t = join(t.as_str(), arch.target());
    let t = join(t.as_str(), "release");
    join(t.as_str(), "arceos-helloworld")
}

/// The raw binary that conversion writes beside `elf`.
pub fn bin_path(elf: &str) -> (r: String)
    ensures
        r@ == spec_bin_path(elf@),
{
    let mut r = String::from_str(elf);
    r.append(".bin");
    r
}

} // verus!
