//! Handing the built library and its generated C# interface to a consumer:
//! which profile is meant, how the library is built, where the build leaves
//! it, and what a recursive copy does with each directory entry.

use vstd::prelude::*;
use crate::paths::ProjectPath;
use crate::process::{ArgumentView, Invocation};

verus! {

/// A cargo build profile.
#[derive(Copy, Clone, Debug, PartialEq, Eq, Structural)]
pub enum Profile {
    Debug,
    Release,
}

/// The system that the tool itself runs on, as far as file names depend on
/// it.
#[derive(Copy, Clone, Debug, PartialEq, Eq, Structural)]
pub enum Host {
    Windows,
    Android,
    Other,
}

/// The profile that a release flag asks for.
pub open spec fn profile_for(release: bool) -> Profile {
    if release {
        Profile::Release
    } else {
        Profile::Debug
    }
}

/// The profile that the two command-line flags ask for: debug unless release
/// is asked for. The flags exclude each other.
pub fn select_profile(debug: bool, release: bool) -> (profile: Profile)
    requires
        !(debug && release),
    ensures
        profile == profile_for(release),
{
    match (debug, release) {
        (true, false) => Profile::Debug,
        (false, true) => Profile::Release,
        _ => Profile::Debug,
    }
}

/// The arguments of the build of the crate whose manifest is at `manifest`.
pub open spec fn manifest_build_args(
    manifest: Seq<Seq<char>>,
    profile: Profile,
) -> Seq<ArgumentView> {
    let always = seq![
        ArgumentView::Text("build"@),
        ArgumentView::Text("--manifest-path"@),
        ArgumentView::Path(manifest),
    ];
    match profile {
        Profile::Debug => always,
        Profile::Release => always.push(ArgumentView::Text("--release"@)),
    }
}

/// The cargo build of the crate whose manifest is at `manifest_path`, under
/// the given profile.
pub fn cargo_build(manifest_path: ProjectPath, profile: Profile) -> (cmd: Invocation)
    ensures
        cmd@.exe == "cargo"@,
        cmd@.dir == None::<Seq<Seq<char>>>,
        cmd@.args == manifest_build_args(manifest_path@, profile),
{
    let cmd = Invocation::new("cargo").arg("build").arg("--manifest-path").arg_path(manifest_path);
    let cmd = match profile {
        Profile::Debug => cmd,
        Profile::Release => cmd.arg("--release"),
    };
    assert(cmd@.args =~= manifest_build_args(manifest_path@, profile));
    cmd
}

/// Judges a finished step by its exit status: `succeeded` tells whether the
/// status means success, `status` is the status as the system words it. A
/// failure is reported with the name of the step and the status.
pub fn ensure_success(succeeded: bool, status: &str, what: &str) -> (result: Result<(), String>)
    ensures
        succeeded ==> result == Ok::<(), String>(()),
        !succeeded ==> result is Err && result->Err_0@ == what@ + " failed with status: "@
            + status@,
{
    if succeeded {
        Ok(())
    } else {
        let mut message = String::from_str(what);
        message.append(" failed with status: ");
        message.append(status);
        Err(message)
    }
}

/// The name of cargo's output directory for a profile.
pub open spec fn profile_name(profile: Profile) -> Seq<char> {
    match profile {
        Profile::Debug => "debug"@,
        Profile::Release => "release"@,
    }
}

/// The file name of the built library on a host.
pub open spec fn binary_name(host: Host) -> Seq<char> {
    match host {
        Host::Windows => "rust_fractal"@ + ".dll"@,
        Host::Android => "rust_fractal"@ + ".so"@,
        Host::Other => "rust_fractal"@,
    }
}

/// Where the build leaves the library: in the profile's directory below
/// `target_dir`, under a name that depends on the host.
pub fn binary_path(target_dir: ProjectPath, profile: Profile, host: Host) -> (path: ProjectPath)
    ensures
        path@ == target_dir@.push(profile_name(profile)).push(binary_name(host)),
{
    let prof = match profile {
        Profile::Debug => "debug",
        Profile::Release => "release",
    };
    let mut file = String::from_str("rust_fractal");
    match host {
        Host::Windows => {
            file.append(".dll");
        },
        Host::Android => {
            file.append(".so");
        },
        Host::Other => {},
    }
    target_dir.join(prof).join(file.as_str())
}

/// What a directory entry is.
#[derive(Copy, Clone, Debug, PartialEq, Eq, Structural)]
pub enum EntryKind {
    Dir,
    File,
    Other,
}

/// What a recursive copy does with a directory entry.
#[derive(Copy, Clone, Debug, PartialEq, Eq, Structural)]
pub enum CopyAction {
    /// Copy the directory's own entries into the directory of the same name.
    Descend,
    /// Copy the file, after making sure that its directory exists.
    CopyFile,
    /// Leave the entry out.
    Skip,
}

/// What a recursive copy does with an entry of the kind `kind`.
pub open spec fn action_for(kind: EntryKind) -> CopyAction {
    match kind {
        EntryKind::Dir => CopyAction::Descend,
        EntryKind::File => CopyAction::CopyFile,
        EntryKind::Other => CopyAction::Skip,
    }
}

/// What a recursive copy does with an entry of the kind `kind`: directories
/// are descended into, regular files are copied, and anything else (sockets,
/// devices) is skipped.
pub fn copy_action(kind: EntryKind) -> (action: CopyAction)
    ensures
        action == action_for(kind),
{
    match kind {
        EntryKind::Dir => CopyAction::Descend,
        EntryKind::File => CopyAction::CopyFile,
        EntryKind::Other => CopyAction::Skip,
    }
}

} // verus!
