//! What is built for each platform, how the builds are staged and the
//! bindings packed, and how a build is stamped.

use vstd::prelude::*;
use crate::paths::{
    bindings_nupkgs, bindings_root, bindings_root_project_file, destination_native_lib_path,
    lib_filename, native_lib_filename, runtime_dir, rust_fractal_root, Arch, Platform,
    ProjectPath,
};
use crate::process::{cmd_in_dir, ArgumentView, Invocation, InvocationView};
use std::time::{Duration, SystemTime, UNIX_EPOCH};

verus! {

/// One cargo target of a platform and the architecture that it produces.
#[derive(Debug, Clone)]
pub struct TargetSpec {
    pub cargo_target: &'static str,
    pub arch: Arch,
}

/// The cargo targets of a platform, as target triple and architecture, in
/// the order in which they are built.
pub open spec fn target_list(platform: Platform) -> Seq<(Seq<char>, Arch)> {
    match platform {
        Platform::Windows => seq![("x86_64-pc-windows-msvc"@, Arch::X64)],
        Platform::Android => seq![("aarch64-linux-android"@, Arch::Arm64)],
        Platform::Osx => seq![
            ("aarch64-apple-darwin"@, Arch::Arm64),
            ("x86_64-apple-darwin"@, Arch::X64),
        ],
        Platform::Ios => seq![("aarch64-apple-ios"@, Arch::Arm64)],
    }
}

/// What a list of targets stands for: each target's triple and architecture.
pub open spec fn targets_view(targets: Seq<TargetSpec>) -> Seq<(Seq<char>, Arch)> {
    Seq::new(targets.len(), |i: int| (targets[i].cargo_target@, targets[i].arch))
}

/// The cargo targets of a platform, in the order in which they are built.
pub fn targets_for(platform: Platform) -> (targets: Vec<TargetSpec>)
    ensures
        targets_view(targets@) == target_list(platform),
{
    let mut targets: Vec<TargetSpec> = Vec::new();
    match platform {
        Platform::Windows => {
            targets.push(TargetSpec { cargo_target: "x86_64-pc-windows-msvc", arch: Arch::X64 });
        },
        Platform::Android => {
            targets.push(TargetSpec { cargo_target: "aarch64-linux-android", arch: Arch::Arm64 });
        },
        Platform::Osx => {
            targets.push(TargetSpec { cargo_target: "aarch64-apple-darwin", arch: Arch::Arm64 });
            targets.push(TargetSpec { cargo_target: "x86_64-apple-darwin", arch: Arch::X64 });
        },
        Platform::Ios => {
            targets.push(TargetSpec { cargo_target: "aarch64-apple-ios", arch: Arch::Arm64 });
        },
    }
    assert(targets_view(targets@) =~= target_list(platform));
    targets
}

/// The decimal digit of a number below ten.
pub open spec fn digit(d: nat) -> char {
    if d == 0 {
        '0'
    } else if d == 1 {
        '1'
    } else if d == 2 {
        '2'
    } else if d == 3 {
        '3'
    } else if d == 4 {
        '4'
    } else if d == 5 {
        '5'
    } else if d == 6 {
        '6'
    } else if d == 7 {
        '7'
    } else if d == 8 {
        '8'
    } else {
        '9'
    }
}

/// The decimal numeral of a number: its digits from the most significant
/// down, without leading zeros, and `0` for zero.
pub open spec fn decimal(n: nat) -> Seq<char>
    decreases n,
{
    if n < 10 {
        seq![digit(n)]
    } else {
        decimal(n / 10).push(digit(n % 10))
    }
}

/// The numeral of one digit.
fn digit_str(d: u64) -> (text: &'static str)
    requires
        d < 10,
    ensures
        text@ == seq![digit(d as nat)],
{
    proof {
        reveal_strlit("0");
        reveal_strlit("1");
        reveal_strlit("2");
        reveal_strlit("3");
        reveal_strlit("4");
        reveal_strlit("5");
        reveal_strlit("6");
        reveal_strlit("7");
        reveal_strlit("8");
        reveal_strlit("9");
    }
    let text = if d == 0 {
        "0"
    } else if d == 1 {
        "1"
    } else if d == 2 {
        "2"
    } else if d == 3 {
        "3"
    } else if d == 4 {
        "4"
    } else if d == 5 {
        "5"
    } else if d == 6 {
        "6"
    } else if d == 7 {
        "7"
    } else if d == 8 {
        "8"
    } else {
        "9"
    };
    assert(text@ =~= seq![digit(d as nat)]);
    text
}

/// The build stamp for a clock reading of `secs` whole seconds since the
/// Unix epoch: the decimal numeral of `secs`.
pub fn build_hash_at(secs: u64) -> (hash: String)
    ensures
        hash@ == decimal(secs as nat),
    decreases secs,
{
    if secs < 10 {
        String::from_str(digit_str(secs))
    } else {
        let mut hash = build_hash_at(secs / 10);
        hash.append(digit_str(secs % 10));
        hash
    }
}

/// `std::time::SystemTime`, a reading of the system clock. It is carried from
/// one call to the next; nothing is known of what it holds.
#[verifier::external_type_specification]
#[verifier::external_body]
pub struct ExSystemTime(SystemTime);

/// `SystemTime::now`: the reading of the system clock. Nothing is claimed of
/// the reading.
#[verifier::external_body]
fn clock_reading() -> (now: SystemTime) {
    SystemTime::now()
}

/// `SystemTime::duration_since`, measured from the Unix epoch: the time that
/// has passed since the epoch, `None` where the reading lies before it.
/// Nothing is claimed of the amount.
#[verifier::external_body]
fn since_unix_epoch(reading: &SystemTime) -> (elapsed: Option<Duration>) {
    reading.duration_since(UNIX_EPOCH).ok()
}

/// `Duration::as_secs`: the whole seconds of a duration. Nothing is claimed
/// of the number.
#[verifier::external_body]
fn whole_seconds(elapsed: &Duration) -> (secs: u64) {
    elapsed.as_secs()
}

/// A stamp for the build that is made now: the decimal numeral of the whole
/// seconds that the system clock counts since the Unix epoch. `None` where
/// the clock reads a time before the epoch.
pub fn build_hash() -> (hash: Option<String>)
    ensures
        hash matches Some(stamp) ==> exists|secs: u64| stamp@ == decimal(secs as nat),
{
    let reading = clock_reading();
    match since_unix_epoch(&reading) {
        Some(elapsed) => {
            let secs: u64 = whole_seconds(&elapsed);
            Some(build_hash_at(secs))
        },
        None => None,
    }
}

/// The name of cargo's output directory for a profile.
pub open spec fn profile_dir(release: bool) -> Seq<char> {
    if release {
        "release"@
    } else {
        "debug"@
    }
}

/// The name of the .NET build configuration for a profile.
pub open spec fn configuration(release: bool) -> Seq<char> {
    if release {
        "Release"@
    } else {
        "Debug"@
    }
}

/// The arguments of a cargo build of the kernel for one target.
pub open spec fn cargo_build_args(cargo_target: Seq<char>, release: bool) -> Seq<ArgumentView> {
    let always = seq![
        ArgumentView::Text("build"@),
        ArgumentView::Text("-p"@),
        ArgumentView::Text("rust_fractal"@),
        ArgumentView::Text("--target"@),
        ArgumentView::Text(cargo_target),
    ];
    if release {
        always.push(ArgumentView::Text("--release"@))
    } else {
        always
    }
}

/// The cargo build of the kernel for one target, run in `rust_root`; the
/// release profile is asked for only where `release` is set.
pub fn cargo_build(rust_root: ProjectPath, cargo_target: &str, release: bool) -> (cmd: Invocation)
    ensures
        cmd@.exe == "cargo"@,
        cmd@.dir == Some(rust_root@),
        cmd@.args == cargo_build_args(cargo_target@, release),
{
    let cmd = cmd_in_dir("cargo", rust_root).arg("build").arg("-p").arg("rust_fractal").arg(
        "--target",
    ).arg(cargo_target);
    let cmd = if release {
        cmd.arg("--release")
    } else {
        cmd
    };
    assert(cmd@.args =~= cargo_build_args(cargo_target@, release));
    cmd
}

/// Where cargo leaves the library that it built for a target: below
/// `rust_root`, in `target`, the target's triple, the profile's directory.
pub fn built_artifact_path(
    rust_root: ProjectPath,
    cargo_target: &str,
    profile_dir: &str,
    platform: Platform,
) -> (path: ProjectPath)
    ensures
        path@ == rust_root@ + seq!["target"@, cargo_target@, profile_dir@, lib_filename(platform)],
{
    let filename = native_lib_filename(platform);
    let path = rust_root.join("target").join(cargo_target).join(profile_dir).join(
        filename.as_str(),
    );
    assert(path@ =~= rust_root@ + seq![
        "target"@,
        cargo_target@,
        profile_dir@,
        lib_filename(platform),
    ]);
    path
}

/// The arguments of the command that packs the bindings under `version`.
pub open spec fn pack_nuget_args(release: bool, version: Seq<char>) -> Seq<ArgumentView> {
    seq![
        ArgumentView::Text("pack"@),
        ArgumentView::Path(seq!["rust_fractal"@, "nuget"@, "RustFractals"@, "RustFractals.csproj"@]),
        ArgumentView::Text("-c"@),
        ArgumentView::Text(configuration(release)),
        ArgumentView::Text("-o"@),
        ArgumentView::Path(seq!["rust_fractal"@, "nuget"@, "nupkgs"@]),
        ArgumentView::Text("/p:PackageVersion="@ + version),
    ]
}

/// The command that packs the bindings project under `version`, run in the
/// bindings directory, with its output sent to the package feed.
pub fn pack_nuget(release: bool, version: &str) -> (cmd: Invocation)
    ensures
        cmd@.exe == "dotnet"@,
        cmd@.dir == Some(seq!["rust_fractal"@, "nuget"@, "RustFractals"@]),
        cmd@.args == pack_nuget_args(release, version@),
{
    let config = if release {
        "Release"
    } else {
        "Debug"
    };
    let mut property = String::from_str("/p:PackageVersion=");
    property.append(version);
    let cmd = cmd_in_dir("dotnet", bindings_root()).arg("pack").arg_path(
        bindings_root_project_file(),
    ).arg("-c").arg(config).arg("-o").arg_path(bindings_nupkgs()).arg(property.as_str());
    assert(cmd@.args =~= pack_nuget_args(release, version@));
    cmd
}

/// Why a platform cannot be built on this host.
#[derive(Debug, Clone, Copy, PartialEq, Eq, Structural)]
pub enum HostError {
    /// The platform is built on macOS only.
    RequiresMacos,
    /// The platform is built on Windows only.
    RequiresWindows,
}

/// One target's share of a staged build: the build itself, the library that
/// it is expected to leave, and the place that the library is copied to.
#[derive(Debug, Clone)]
pub struct StageStep {
    pub build: Invocation,
    pub built_artifact: ProjectPath,
    pub dest_file: ProjectPath,
}

/// What a step stands for.
pub struct StageStepView {
    pub build: InvocationView,
    pub built_artifact: Seq<Seq<char>>,
    pub dest_file: Seq<Seq<char>>,
}

impl View for StageStep {
    type V = StageStepView;

    open spec fn view(&self) -> StageStepView {
        StageStepView {
            build: self.build@,
            built_artifact: self.built_artifact@,
            dest_file: self.dest_file@,
        }
    }
}

/// The step that builds and stages one target of a platform.
pub open spec fn stage_step(
    platform: Platform,
    release: bool,
    target: (Seq<char>, Arch),
) -> StageStepView {
    StageStepView {
        build: InvocationView {
            exe: "cargo"@,
            dir: Some(seq!["rust_fractal"@]),
            args: cargo_build_args(target.0, release),
        },
        built_artifact: seq![
            "rust_fractal"@,
            "target"@,
            target.0,
            profile_dir(release),
            lib_filename(platform),
        ],
        dest_file: seq![
            "rust_fractal"@,
            "nuget"@,
            "RustFractals"@,
            "runtimes"@,
            runtime_dir(platform, target.1),
            "native"@,
            lib_filename(platform),
        ],
    }
}

/// The steps that build and stage a platform: one for each of its targets,
/// in the order of `target_list`.
pub open spec fn stage_plan(platform: Platform, release: bool) -> Seq<StageStepView> {
    Seq::new(
        target_list(platform).len(),
        |i: int| stage_step(platform, release, target_list(platform)[i]),
    )
}

/// Whether the host can build the platform, and if not, why.
pub open spec fn host_check(
    platform: Platform,
    host_is_macos: bool,
    host_is_windows: bool,
) -> Result<(), HostError> {
    if (platform == Platform::Ios || platform == Platform::Osx) && !host_is_macos {
        Err(HostError::RequiresMacos)
    } else if platform == Platform::Windows && !host_is_windows {
        Err(HostError::RequiresWindows)
    } else {
        Ok(())
    }
}

/// What a list of steps stands for.
pub open spec fn steps_view(steps: Seq<StageStep>) -> Seq<StageStepView> {
    Seq::new(steps.len(), |i: int| steps[i]@)
}

/// Plans the build of the kernel for every target of a platform and the
/// staging of each library. Apple platforms are refused on a host that is not
/// macOS, Windows on a host that is not Windows. The steps are to be carried
/// out in order: run the build, then copy `built_artifact` to `dest_file`.
pub fn build_and_stage(
    platform: Platform,
    release: bool,
    host_is_macos: bool,
    host_is_windows: bool,
) -> (plan: Result<Vec<StageStep>, HostError>)
    ensures
        host_check(platform, host_is_macos, host_is_windows) is Err ==> plan == Err::<
            Vec<StageStep>,
            HostError,
        >(host_check(platform, host_is_macos, host_is_windows)->Err_0),
        host_check(platform, host_is_macos, host_is_windows) is Ok ==> plan is Ok && steps_view(
            plan->Ok_0@,
        ) == stage_plan(platform, release),
{
    if platform.requires_macos() && !host_is_macos {
        return Err(HostError::RequiresMacos);
    }
    if platform.requires_windwos() && !host_is_windows {
        return Err(HostError::RequiresWindows);
    }
    let profile = if release {
        "release"
    } else {
        "debug"
    };
    let targets = targets_for(platform);
    let mut steps: Vec<StageStep> = Vec::new();
    let mut i: usize = 0;
    while i < targets.len()
        invariant
            i <= targets.len(),
            steps.len() == i,
            profile@ == profile_dir(release),
            targets_view(targets@) == target_list(platform),
            forall|k: int|
                0 <= k < i ==> (#[trigger] steps[k])@ == stage_step(
                    platform,
                    release,
                    target_list(platform)[k],
                ),
        decreases targets.len() - i,
    {
        let target = &targets[i];
        assert(targets_view(targets@)[i as int] == (target.cargo_target@, target.arch));
        let build = cargo_build(rust_fractal_root(), target.cargo_target, release);
        let built_artifact = built_artifact_path(
            rust_fractal_root(),
            target.cargo_target,
            profile,
            platform,
        );
        let dest_file = destination_native_lib_path(platform, target.arch);
        let step = StageStep { build, built_artifact, dest_file };
        assert(step@.built_artifact =~= stage_step(
            platform,
            release,
            target_list(platform)[i as int],
        ).built_artifact);
        steps.push(step);
        i += 1;
    }
    assert(targets_view(targets@).len() == targets.len());
    assert(steps_view(steps@) =~= stage_plan(platform, release));
    Ok(steps)
}

} // verus!
