//! Argument lists of the external tools that packaging runs.
use vstd::prelude::*;

use crate::text::{append, owned};

verus! {

/// The characters of each argument.
pub open spec fn texts(args: Seq<String>) -> Seq<Seq<char>> {
    args.map_values(|a: String| a@)
}

fn push_arg(args: &mut Vec<String>, arg: &str)
    ensures
        texts(final(args)@) == texts(old(args)@).push(arg@),
{
    let a = owned(arg);
    args.push(a);
    assert(texts(args@) =~= texts(old(args)@).push(arg@));
}

/// `lipo -create <inputs...> -output <output>`: joins the binaries of each
/// architecture into one universal binary.
pub fn lipo_create_args(inputs: &[String], output: &str) -> (args: Vec<String>)
    ensures
        texts(args@) == seq!["-create"@] + texts(inputs@) + seq!["-output"@, output@],
{
    let mut args: Vec<String> = Vec::new();
    push_arg(&mut args, "-create");
    let mut k: usize = 0;
    proof {
        assert(texts(args@) =~= seq!["-create"@] + texts(inputs@.take(0)));
    }
    while k < inputs.len()
        invariant
            k <= inputs@.len(),
            texts(args@) == seq!["-create"@] + texts(inputs@.take(k as int)),
        decreases inputs.len() - k,
    {
        push_arg(&mut args, inputs[k].as_str());
        assert(texts(inputs@.take(k + 1)) =~= texts(inputs@.take(k as int)).push(inputs@[k as int]@));
        assert(texts(args@) =~= seq!["-create"@] + texts(inputs@.take(k + 1)));
        k = k + 1;
    }
    assert(inputs@.take(k as int) =~= inputs@);
    push_arg(&mut args, "-output");
    push_arg(&mut args, output);
    assert(texts(args@) =~= seq!["-create"@] + texts(inputs@) + seq!["-output"@, output@]);
    args
}

/// `install_name_tool -add_rpath <rpath> <binary>`: adds a framework search
/// path to a binary.
pub fn add_rpath_args(rpath: &str, binary: &str) -> (args: Vec<String>)
    ensures
        texts(args@) == seq!["-add_rpath"@, rpath@, binary@],
{
    let mut args: Vec<String> = Vec::new();
    push_arg(&mut args, "-add_rpath");
    push_arg(&mut args, rpath);
    push_arg(&mut args, binary);
    assert(texts(args@) =~= seq!["-add_rpath"@, rpath@, binary@]);
    args
}

/// `cargo build --release -p <package> --target <target>`: builds the binary
/// of one architecture.
pub fn cargo_build_target_args(package: &str, target: &str) -> (args: Vec<String>)
    ensures
        texts(args@) == seq!["build"@, "--release"@, "-p"@, package@, "--target"@, target@],
{
    let mut args: Vec<String> = Vec::new();
    push_arg(&mut args, "build");
    push_arg(&mut args, "--release");
    push_arg(&mut args, "-p");
    push_arg(&mut args, package);
    push_arg(&mut args, "--target");
    push_arg(&mut args, target);
    assert(texts(args@) =~= seq!["build"@, "--release"@, "-p"@, package@, "--target"@, target@]);
    args
}

/// `hdiutil create -volname <volume> -srcfolder <srcfolder> -ov -format UDZO
/// <output>`: packs a folder into a compressed disk image, replacing one that
/// exists.
pub fn hdiutil_create_args(volume: &str, srcfolder: &str, output: &str) -> (args: Vec<String>)
    ensures
        texts(args@) == seq![
            "create"@,
            "-volname"@,
            volume@,
            "-srcfolder"@,
            srcfolder@,
            "-ov"@,
            "-format"@,
            "UDZO"@,
            output@,
        ],
{
    let mut args: Vec<String> = Vec::new();
    push_arg(&mut args, "create");
    push_arg(&mut args, "-volname");
    push_arg(&mut args, volume);
    push_arg(&mut args, "-srcfolder");
    push_arg(&mut args, srcfolder);
    push_arg(&mut args, "-ov");
    push_arg(&mut args, "-format");
    push_arg(&mut args, "UDZO");
    push_arg(&mut args, output);
    assert(texts(args@) =~= seq![
        "create"@,
        "-volname"@,
        volume@,
        "-srcfolder"@,
        srcfolder@,
        "-ov"@,
        "-format"@,
        "UDZO"@,
        output@,
    ]);
    args
}

/// `tar czf <output> -C <chdir> <entry>`: archives `entry`, named relative to
/// `chdir`.
pub fn tar_czf_args(output: &str, chdir: &str, entry: &str) -> (args: Vec<String>)
    ensures
        texts(args@) == seq!["czf"@, output@, "-C"@, chdir@, entry@],
{
    let mut args: Vec<String> = Vec::new();
    push_arg(&mut args, "czf");
    push_arg(&mut args, output);
    push_arg(&mut args, "-C");
    push_arg(&mut args, chdir);
    push_arg(&mut args, entry);
    assert(texts(args@) =~= seq!["czf"@, output@, "-C"@, chdir@, entry@]);
    args
}

/// The arguments `-p <package>` for each package, in order.
pub open spec fn package_flags(packages: Seq<&str>) -> Seq<Seq<char>>
    decreases packages.len(),
{
    if packages.len() == 0 {
        Seq::empty()
    } else {
        package_flags(packages.drop_last()) + seq!["-p"@, packages.last()@]
    }
}

/// `cargo build --release -p <package>...`: a release build of the given
/// packages for the host.
pub fn cargo_build_release_args(packages: &[&str]) -> (args: Vec<String>)
    ensures
        texts(args@) == seq!["build"@, "--release"@] + package_flags(packages@),
{
    let mut args: Vec<String> = Vec::new();
    push_arg(&mut args, "build");
    push_arg(&mut args, "--release");
    let mut k: usize = 0;
    proof {
        assert(packages@.take(0) =~= Seq::<&str>::empty());
        assert(texts(args@) =~= seq!["build"@, "--release"@] + package_flags(packages@.take(0)));
    }
    while k < packages.len()
        invariant
            k <= packages@.len(),
            texts(args@) == seq!["build"@, "--release"@] + package_flags(packages@.take(k as int)),
        decreases packages.len() - k,
    {
        push_arg(&mut args, "-p");
        push_arg(&mut args, packages[k]);
        proof {
            let next = packages@.take(k + 1);
            assert(next.drop_last() =~= packages@.take(k as int));
            assert(next.last() == packages@[k as int]);
            assert(texts(args@) =~= seq!["build"@, "--release"@] + package_flags(next));
        }
        k = k + 1;
    }
    assert(packages@.take(k as int) =~= packages@);
    args
}

/// `tar -a -c -f <output> -C <chdir> <entry>`: archives `entry`, named
/// relative to `chdir`, in the format the output's extension names.
pub fn tar_zip_args(output: &str, chdir: &str, entry: &str) -> (args: Vec<String>)
    ensures
        texts(args@) == seq!["-a"@, "-c"@, "-f"@, output@, "-C"@, chdir@, entry@],
{
    let mut args: Vec<String> = Vec::new();
    push_arg(&mut args, "-a");
    push_arg(&mut args, "-c");
    push_arg(&mut args, "-f");
    push_arg(&mut args, output);
    push_arg(&mut args, "-C");
    push_arg(&mut args, chdir);
    push_arg(&mut args, entry);
    assert(texts(args@) =~= seq!["-a"@, "-c"@, "-f"@, output@, "-C"@, chdir@, entry@]);
    args
}

/// `ISCC.exe /DMyAppVersion=<version> /DSourceDir=<dir> /DOutputDir=<dir>
/// <script>`: the installer compiler with its defines, then the script.
pub fn iscc_args(version: &str, source_dir: &str, output_dir: &str, iss: &str) -> (args: Vec<
    String,
>)
    ensures
        texts(args@) == seq![
            "/DMyAppVersion="@ + version@,
            "/DSourceDir="@ + source_dir@,
            "/DOutputDir="@ + output_dir@,
            iss@,
        ],
{
    let mut version_define = owned("/DMyAppVersion=");
    append(&mut version_define, version);
    let mut source_define = owned("/DSourceDir=");
    append(&mut source_define, source_dir);
    let mut output_define = owned("/DOutputDir=");
    append(&mut output_define, output_dir);
    let mut args: Vec<String> = Vec::new();
    push_arg(&mut args, version_define.as_str());
    push_arg(&mut args, source_define.as_str());
    push_arg(&mut args, output_define.as_str());
    push_arg(&mut args, iss);
    assert(texts(args@) =~= seq![
        "/DMyAppVersion="@ + version@,
        "/DSourceDir="@ + source_dir@,
        "/DOutputDir="@ + output_dir@,
        iss@,
    ]);
    args
}

} // verus!
