//! Platforms, architectures and the naming rules of the project tree: where
//! sources, bindings and staged native libraries live, and what they are
//! called. Paths are kept as the names to follow from the project root.

use vstd::prelude::*;

verus! {

/// A platform that the native library is built for.
#[derive(Debug, Clone, Copy, PartialEq, Eq, Structural)]
pub enum Platform {
    Windows,
    Android,
    Ios,
    Osx,
}

/// A CPU architecture that the native library is built for.
#[derive(Debug, Clone, Copy, PartialEq, Eq, Structural)]
pub enum Arch {
    X64,
    Arm64,
}

/// A .NET release that the bindings can target.
#[derive(Debug, Clone, Copy, PartialEq, Eq, Structural)]
pub enum DotNetVersion {
    Net8,
    Net10,
}

impl Default for DotNetVersion {
    /// The newest release is the default.
    fn default() -> (version: DotNetVersion)
        ensures
            version == DotNetVersion::Net10,
    {
        DotNetVersion::Net10
    }
}

impl DotNetVersion {
    /// The framework moniker of the release.
    pub open spec fn name(self) -> Seq<char> {
        match self {
            DotNetVersion::Net8 => "net8.0"@,
            DotNetVersion::Net10 => "net10.0"@,
        }
    }

    /// The framework moniker of the release.
    pub fn as_str(self) -> (name: &'static str)
        ensures
            name@ == self.name(),
    {
        match self {
            DotNetVersion::Net8 => "net8.0",
            DotNetVersion::Net10 => "net10.0",
        }
    }
}

impl Platform {
    /// The platform's short name, as used in runtime identifiers.
    pub open spec fn name(self) -> Seq<char> {
        match self {
            Platform::Windows => "win"@,
            Platform::Android => "android"@,
            Platform::Ios => "ios"@,
            Platform::Osx => "osx"@,
        }
    }

    /// The platform's short name, as used in runtime identifiers.
    pub fn as_str(self) -> (name: &'static str)
        ensures
            name@ == self.name(),
    {
        match self {
            Platform::Windows => "win",
            Platform::Android => "android",
            Platform::Ios => "ios",
            Platform::Osx => "osx",
        }
    }

    /// Whether builds for this platform need a macOS host.
    pub fn requires_macos(self) -> (needed: bool)
        ensures
            needed == (self == Platform::Ios || self == Platform::Osx),
    {
        match self {
            Platform::Ios | Platform::Osx => true,
            _ => false,
        }
    }

    /// Whether builds for this platform need a Windows host.
    pub fn requires_windwos(self) -> (needed: bool)
        ensures
            needed == (self == Platform::Windows),
    {
        match self {
            Platform::Windows => true,
            _ => false,
        }
    }
}

impl Arch {
    /// The architecture's short name, as used in runtime identifiers.
    pub open spec fn name(self) -> Seq<char> {
        match self {
            Arch::X64 => "x64"@,
            Arch::Arm64 => "arm64"@,
        }
    }

    /// The architecture's short name, as used in runtime identifiers.
    pub fn as_str(self) -> (name: &'static str)
        ensures
            name@ == self.name(),
    {
        match self {
            Arch::X64 => "x64",
            Arch::Arm64 => "arm64",
        }
    }
}

/// A place in the project tree: the names to follow, one directory level
/// each, starting at the project root.
#[derive(Debug)]
pub struct ProjectPath {
    pub components: Vec<String>,
}

impl Clone for ProjectPath {
    fn clone(&self) -> (copy: ProjectPath)
        ensures
            copy@ == self@,
    {
        let mut components: Vec<String> = Vec::new();
        let mut i: usize = 0;
        while i < self.components.len()
            invariant
                i <= self.components.len(),
                components.len() == i,
                forall|k: int| 0 <= k < i ==> components[k]@ == self.components[k]@,
            decreases self.components.len() - i,
        {
            components.push(self.components[i].clone());
            i += 1;
        }
        let copy = ProjectPath { components };
        assert(copy@ =~= self@);
        copy
    }
}

impl View for ProjectPath {
    type V = Seq<Seq<char>>;

    open spec fn view(&self) -> Seq<Seq<char>> {
        self.components.deep_view()
    }
}

impl ProjectPath {
    /// The project root itself.
    pub fn root() -> (path: ProjectPath)
        ensures
            path@ == Seq::<Seq<char>>::empty(),
    {
        let path = ProjectPath { components: Vec::new() };
        assert(path@ =~= Seq::<Seq<char>>::empty());
        path
    }

    /// The entry `name` below this path.
    pub fn join(self, name: &str) -> (path: ProjectPath)
        ensures
            path@ == self@.push(name@),
    {
        let mut components = self.components;
        let ghost before = components.deep_view();
        components.push(String::from_str(name));
        let path = ProjectPath { components };
        assert(path@ =~= before.push(name@));
        path
    }

    /// The directory that holds this path; `None` for the project root.
    pub fn parent(self) -> (up: Option<ProjectPath>)
        ensures
            self@.len() == 0 ==> up is None,
            self@.len() > 0 ==> up is Some && up->0@ == self@.drop_last(),
    {
        let mut components = self.components;
        let ghost before = components.deep_view();
        if components.len() == 0 {
            return None;
        }
        components.pop();
        let path = ProjectPath { components };
        assert(path@ =~= before.drop_last());
        Some(path)
    }
}

/// The directory of the build tool, directly below the project root.
pub fn xtask_root() -> (path: ProjectPath)
    ensures
        path@ == xtask_root_path(),
{
    let path = ProjectPath::root().join("xtask");
    assert(path@ =~= seq!["xtask"@]);
    path
}

/// The project root, which holds every subproject: the directory above the
/// build tool's own.
pub fn project_root() -> (path: ProjectPath)
    ensures
        path@ == Seq::<Seq<char>>::empty(),
        path@ == xtask_root_path().drop_last(),
{
    let path = match xtask_root().parent() {
        Some(up) => up,
        None => ProjectPath::root(),
    };
    assert(path@ =~= Seq::<Seq<char>>::empty());
    assert(xtask_root_path().drop_last() =~= Seq::<Seq<char>>::empty());
    path
}

/// Where `xtask_root` points.
pub open spec fn xtask_root_path() -> Seq<Seq<char>> {
    seq!["xtask"@]
}

/// The directory of the consuming application.
pub fn maui_root() -> (path: ProjectPath)
    ensures
        path@ == seq!["mandelbrot"@],
{
    let path = project_root().join("mandelbrot");
    assert(path@ =~= seq!["mandelbrot"@]);
    path
}

/// The project file of the consuming application.
pub fn maui_project_file() -> (path: ProjectPath)
    ensures
        path@ == seq!["mandelbrot"@, "mandelbrot.csproj"@],
{
    let path = maui_root().join("mandelbrot.csproj");
    assert(path@ =~= seq!["mandelbrot"@, "mandelbrot.csproj"@]);
    path
}

/// The directory of the kernel's own crate.
pub fn rust_fractal_root() -> (path: ProjectPath)
    ensures
        path@ == seq!["rust_fractal"@],
{
    let path = project_root().join("rust_fractal");
    assert(path@ =~= seq!["rust_fractal"@]);
    path
}

/// The manifest whose presence shows that the kernel's crate is checked out.
pub fn rust_fractal_manifest() -> (path: ProjectPath)
    ensures
        path@ == seq!["rust_fractal"@, "Cargo.toml"@],
{
    let path = rust_fractal_root().join("Cargo.toml");
    assert(path@ =~= seq!["rust_fractal"@, "Cargo.toml"@]);
    path
}

/// The package directory inside the kernel's crate.
pub fn rust_fractal_nuget() -> (path: ProjectPath)
    ensures
        path@ == seq!["rust_fractal"@, "nuget"@],
{
    let path = rust_fractal_root().join("nuget");
    assert(path@ =~= seq!["rust_fractal"@, "nuget"@]);
    path
}

/// The directory of the bindings project.
pub fn bindings_root() -> (path: ProjectPath)
    ensures
        path@ == seq!["rust_fractal"@, "nuget"@, "RustFractals"@],
{
    let path = rust_fractal_nuget().join("RustFractals");
    assert(path@ =~= seq!["rust_fractal"@, "nuget"@, "RustFractals"@]);
    path
}

/// The project file of the bindings project.
pub fn bindings_root_project_file() -> (path: ProjectPath)
    ensures
        path@ == seq!["rust_fractal"@, "nuget"@, "RustFractals"@, "RustFractals.csproj"@],
{
    let path = bindings_root().join("RustFractals.csproj");
    assert(path@ =~= seq!["rust_fractal"@, "nuget"@, "RustFractals"@, "RustFractals.csproj"@]);
    path
}

/// The directory that receives packed bindings.
pub fn bindings_nupkgs() -> (path: ProjectPath)
    ensures
        path@ == seq!["rust_fractal"@, "nuget"@, "nupkgs"@],
{
    let path = rust_fractal_nuget().join("nupkgs");
    assert(path@ =~= seq!["rust_fractal"@, "nuget"@, "nupkgs"@]);
    path
}

/// The directory below which native libraries are staged.
pub fn bindings_runtime_dir() -> (path: ProjectPath)
    ensures
        path@ == seq!["rust_fractal"@, "nuget"@, "RustFractals"@, "runtimes"@],
{
    let path = bindings_root().join("runtimes");
    assert(path@ =~= seq!["rust_fractal"@, "nuget"@, "RustFractals"@, "runtimes"@]);
    path
}

/// The name of the staging directory of one target: platform, a hyphen, and
/// architecture.
pub open spec fn runtime_dir(platform: Platform, arch: Arch) -> Seq<char> {
    platform.name() + "-"@ + arch.name()
}

/// The name of the staging directory of one target.
pub fn runtime_dir_name(platform: Platform, arch: Arch) -> (name: String)
    ensures
        name@ == runtime_dir(platform, arch),
{
    let mut name = String::from_str(platform.as_str());
    name.append("-");
    name.append(arch.as_str());
    name
}

/// The stem of the native library's file name: the crate's output name.
pub fn native_lib_stem() -> (stem: &'static str)
    ensures
        stem@ == "rust_fractal"@,
{
    "rust_fractal"
}

/// What a platform puts in front of a library's stem.
pub open spec fn lib_prefix(platform: Platform) -> Seq<char> {
    match platform {
        Platform::Windows => ""@,
        Platform::Android | Platform::Ios | Platform::Osx => "lib"@,
    }
}

/// What a platform puts in front of a library's stem.
pub fn native_lib_prefix(platform: Platform) -> (prefix: &'static str)
    ensures
        prefix@ == lib_prefix(platform),
{
    match platform {
        Platform::Windows => "",
        Platform::Android | Platform::Ios | Platform::Osx => "lib",
    }
}

/// The file extension of a dynamic library on a platform.
pub open spec fn lib_ext(platform: Platform) -> Seq<char> {
    match platform {
        Platform::Windows => "dll"@,
        Platform::Android => "so"@,
        Platform::Osx | Platform::Ios => "dylib"@,
    }
}

/// The file extension of a dynamic library on a platform.
pub fn native_lib_ext(platform: Platform) -> (ext: &'static str)
    ensures
        ext@ == lib_ext(platform),
{
    match platform {
        Platform::Windows => "dll",
        Platform::Android => "so",
        Platform::Osx | Platform::Ios => "dylib",
    }
}

/// The file name of the native library on a platform: prefix, stem, a dot,
/// and extension.
pub open spec fn lib_filename(platform: Platform) -> Seq<char> {
    lib_prefix(platform) + "rust_fractal"@ + "."@ + lib_ext(platform)
}

/// The file name of the native library on a platform.
pub fn native_lib_filename(platform: Platform) -> (name: String)
    ensures
        name@ == lib_filename(platform),
{
    let mut name = String::from_str(native_lib_prefix(platform));
    name.append(native_lib_stem());
    name.append(".");
    name.append(native_lib_ext(platform));
    name
}

/// What follows the release's moniker in a target framework moniker.
pub open spec fn tfm_suffix(platform: Platform) -> Seq<char> {
    match platform {
        Platform::Android => "-android"@,
        Platform::Ios => "-ios"@,
        Platform::Osx => "-maccatalyst"@,
        Platform::Windows => "-windows10.0.19041.0"@,
    }
}

/// The target framework moniker of a release on a platform. For Windows it
/// names the minimum system version.
pub fn dotnet_tfm(version: DotNetVersion, platform: Platform) -> (tfm: String)
    ensures
        tfm@ == version.name() + tfm_suffix(platform),
{
    let mut tfm = String::from_str(version.as_str());
    match platform {
        Platform::Android => tfm.append("-android"),
        Platform::Ios => tfm.append("-ios"),
        Platform::Osx => tfm.append("-maccatalyst"),
        Platform::Windows => tfm.append("-windows10.0.19041.0"),
    }
    tfm
}

/// Whether .NET has a runtime identifier for the target. Every pairing has
/// one but iOS on x64.
pub open spec fn has_rid(platform: Platform, arch: Arch) -> bool {
    !(platform == Platform::Ios && arch == Arch::X64)
}

/// The .NET runtime identifier of a target.
pub open spec fn rid(platform: Platform, arch: Arch) -> Seq<char> {
    match (platform, arch) {
        (Platform::Windows, Arch::X64) => "win-x64"@,
        (Platform::Windows, Arch::Arm64) => "win-arm64"@,
        (Platform::Android, Arch::Arm64) => "android-arm64"@,
        (Platform::Android, Arch::X64) => "android-x64"@,
        (Platform::Osx, Arch::Arm64) => "maccatalyst-arm64"@,
        (Platform::Osx, Arch::X64) => "maccatalyst-x64"@,
        (Platform::Ios, _) => "ios-arm64"@,
    }
}

/// The .NET runtime identifier of a target that has one.
pub fn dotnet_rid(platform: Platform, arch: Arch) -> (id: &'static str)
    requires
        has_rid(platform, arch),
    ensures
        id@ == rid(platform, arch),
{
    match (platform, arch) {
        (Platform::Windows, Arch::X64) => "win-x64",
        (Platform::Windows, Arch::Arm64) => "win-arm64",
        (Platform::Android, Arch::Arm64) => "android-arm64",
        (Platform::Android, Arch::X64) => "android-x64",
        (Platform::Osx, Arch::Arm64) => "maccatalyst-arm64",
        (Platform::Osx, Arch::X64) => "maccatalyst-x64",
        (Platform::Ios, _) => "ios-arm64",
    }
}

/// Where the native library of one target is staged: below the runtime
/// directory, in the target's own directory, under `native`.
pub fn destination_native_lib_path(platform: Platform, arch: Arch) -> (path: ProjectPath)
    ensures
        path@ == seq![
            "rust_fractal"@,
            "nuget"@,
            "RustFractals"@,
            "runtimes"@,
            runtime_dir(platform, arch),
            "native"@,
            lib_filename(platform),
        ],
{
    let dir = runtime_dir_name(platform, arch);
    let file = native_lib_filename(platform);
    let path = bindings_runtime_dir().join(dir.as_str()).join("native").join(file.as_str());
    assert(path@ =~= seq![
        "rust_fractal"@,
        "nuget"@,
        "RustFractals"@,
        "runtimes"@,
        runtime_dir(platform, arch),
        "native"@,
        lib_filename(platform),
    ]);
    path
}

} // verus!
