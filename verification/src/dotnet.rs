//! The .NET side of a native build: the command that builds the consuming
//! solution for one target.

use vstd::prelude::*;
use crate::build_native::configuration;
use crate::paths::{
    dotnet_rid, dotnet_tfm, has_rid, project_root, rid, tfm_suffix, Arch, DotNetVersion, Platform,
};
use crate::process::{cmd_in_dir, ArgumentView, Invocation};

verus! {

/// The arguments of the .NET build of one target.
pub open spec fn dotnet_build_args(
    platform: Platform,
    arch: Arch,
    version: DotNetVersion,
    release: bool,
) -> Seq<ArgumentView> {
    seq![
        ArgumentView::Text("build"@),
        ArgumentView::Text("-c"@),
        ArgumentView::Text(configuration(release)),
        ArgumentView::Text("-f"@),
        ArgumentView::Text(version.name() + tfm_suffix(platform)),
        ArgumentView::Text("-r"@),
        ArgumentView::Text(rid(platform, arch)),
    ]
}

/// The command that builds the solution for one target, run in the project
/// root: configuration, target framework and runtime identifier follow from
/// the target. Only targets that have a runtime identifier can be built.
pub fn build_dotnet_solution(
    platform: Platform,
    arch: Arch,
    version: DotNetVersion,
    release: bool,
) -> (cmd: Invocation)
    requires
        has_rid(platform, arch),
    ensures
        cmd@.exe == "dotnet"@,
        cmd@.dir == Some(Seq::<Seq<char>>::empty()),
        cmd@.args == dotnet_build_args(platform, arch, version, release),
{
    let config = if release {
        "Release"
    } else {
        "Debug"
    };
    let tfm = dotnet_tfm(version, platform);
    let rid = dotnet_rid(platform, arch);
    let cmd = cmd_in_dir("dotnet", project_root()).arg("build").arg("-c").arg(config).arg("-f").arg(
        tfm.as_str(),
    ).arg("-r").arg(rid);
    assert(cmd@.args =~= dotnet_build_args(platform, arch, version, release));
    cmd
}

} // verus!
