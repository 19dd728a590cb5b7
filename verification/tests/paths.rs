use rust_fractal::paths::{
    bindings_nupkgs, bindings_root, bindings_root_project_file, bindings_runtime_dir,
    destination_native_lib_path, dotnet_rid, dotnet_tfm, maui_project_file, maui_root,
    native_lib_ext, native_lib_filename, native_lib_prefix, native_lib_stem, project_root,
    runtime_dir_name, rust_fractal_manifest, rust_fractal_nuget, rust_fractal_root, xtask_root,
    Arch, DotNetVersion, Platform, ProjectPath,
};

fn names(path: &ProjectPath) -> Vec<&str> {
    path.components.iter().map(|s| s.as_str()).collect()
}

#[test]
fn platform_names() {
    assert_eq!(Platform::Windows.as_str(), "win");
    assert_eq!(Platform::Android.as_str(), "android");
    assert_eq!(Platform::Ios.as_str(), "ios");
    assert_eq!(Platform::Osx.as_str(), "osx");
}

#[test]
fn arch_names() {
    assert_eq!(Arch::X64.as_str(), "x64");
    assert_eq!(Arch::Arm64.as_str(), "arm64");
}

#[test]
fn dotnet_version_names_and_default() {
    assert_eq!(DotNetVersion::Net8.as_str(), "net8.0");
    assert_eq!(DotNetVersion::Net10.as_str(), "net10.0");
    assert_eq!(DotNetVersion::default(), DotNetVersion::Net10);
}

#[test]
fn host_requirements() {
    assert!(Platform::Ios.requires_macos());
    assert!(Platform::Osx.requires_macos());
    assert!(!Platform::Windows.requires_macos());
    assert!(!Platform::Android.requires_macos());
    assert!(Platform::Windows.requires_windwos());
    assert!(!Platform::Android.requires_windwos());
    assert!(!Platform::Ios.requires_windwos());
    assert!(!Platform::Osx.requires_windwos());
}

#[test]
fn project_path_join_and_parent() {
    let root = ProjectPath::root();
    assert!(root.components.is_empty());
    assert!(root.clone().parent().is_none());
    let deep = root.join("a").join("b").join("c.txt");
    assert_eq!(names(&deep), vec!["a", "b", "c.txt"]);
    let copy = deep.clone();
    assert_eq!(names(&copy), vec!["a", "b", "c.txt"]);
    let up = deep.parent().unwrap();
    assert_eq!(names(&up), vec!["a", "b"]);
    assert_eq!(names(&up.parent().unwrap().parent().unwrap()), Vec::<&str>::new());
}

#[test]
fn project_layout() {
    assert_eq!(names(&xtask_root()), vec!["xtask"]);
    assert_eq!(names(&project_root()), Vec::<&str>::new());
    assert_eq!(names(&maui_root()), vec!["mandelbrot"]);
    assert_eq!(names(&maui_project_file()), vec!["mandelbrot", "mandelbrot.csproj"]);
    assert_eq!(names(&rust_fractal_root()), vec!["rust_fractal"]);
    assert_eq!(names(&rust_fractal_manifest()), vec!["rust_fractal", "Cargo.toml"]);
    assert_eq!(names(&rust_fractal_nuget()), vec!["rust_fractal", "nuget"]);
    assert_eq!(names(&bindings_root()), vec!["rust_fractal", "nuget", "RustFractals"]);
    assert_eq!(
        names(&bindings_root_project_file()),
        vec!["rust_fractal", "nuget", "RustFractals", "RustFractals.csproj"]
    );
    assert_eq!(names(&bindings_nupkgs()), vec!["rust_fractal", "nuget", "nupkgs"]);
    assert_eq!(
        names(&bindings_runtime_dir()),
        vec!["rust_fractal", "nuget", "RustFractals", "runtimes"]
    );
}

#[test]
fn runtime_dir_names() {
    assert_eq!(runtime_dir_name(Platform::Windows, Arch::X64), "win-x64");
    assert_eq!(runtime_dir_name(Platform::Windows, Arch::Arm64), "win-arm64");
    assert_eq!(runtime_dir_name(Platform::Android, Arch::Arm64), "android-arm64");
    assert_eq!(runtime_dir_name(Platform::Ios, Arch::Arm64), "ios-arm64");
    assert_eq!(runtime_dir_name(Platform::Ios, Arch::X64), "ios-x64");
    assert_eq!(runtime_dir_name(Platform::Osx, Arch::X64), "osx-x64");
}

#[test]
fn native_library_names() {
    assert_eq!(native_lib_stem(), "rust_fractal");
    assert_eq!(native_lib_prefix(Platform::Windows), "");
    assert_eq!(native_lib_prefix(Platform::Android), "lib");
    assert_eq!(native_lib_prefix(Platform::Ios), "lib");
    assert_eq!(native_lib_prefix(Platform::Osx), "lib");
    assert_eq!(native_lib_ext(Platform::Windows), "dll");
    assert_eq!(native_lib_ext(Platform::Android), "so");
    assert_eq!(native_lib_ext(Platform::Ios), "dylib");
    assert_eq!(native_lib_ext(Platform::Osx), "dylib");
    assert_eq!(native_lib_filename(Platform::Windows), "rust_fractal.dll");
    assert_eq!(native_lib_filename(Platform::Android), "librust_fractal.so");
    assert_eq!(native_lib_filename(Platform::Ios), "librust_fractal.dylib");
    assert_eq!(native_lib_filename(Platform::Osx), "librust_fractal.dylib");
}

#[test]
fn target_framework_monikers() {
    assert_eq!(dotnet_tfm(DotNetVersion::Net8, Platform::Android), "net8.0-android");
    assert_eq!(dotnet_tfm(DotNetVersion::Net10, Platform::Android), "net10.0-android");
    assert_eq!(dotnet_tfm(DotNetVersion::Net8, Platform::Ios), "net8.0-ios");
    assert_eq!(dotnet_tfm(DotNetVersion::Net10, Platform::Osx), "net10.0-maccatalyst");
    assert_eq!(dotnet_tfm(DotNetVersion::Net8, Platform::Windows), "net8.0-windows10.0.19041.0");
    assert_eq!(
        dotnet_tfm(DotNetVersion::Net10, Platform::Windows),
        "net10.0-windows10.0.19041.0"
    );
}

#[test]
fn runtime_identifiers() {
    assert_eq!(dotnet_rid(Platform::Windows, Arch::X64), "win-x64");
    assert_eq!(dotnet_rid(Platform::Windows, Arch::Arm64), "win-arm64");
    assert_eq!(dotnet_rid(Platform::Android, Arch::Arm64), "android-arm64");
    assert_eq!(dotnet_rid(Platform::Android, Arch::X64), "android-x64");
    assert_eq!(dotnet_rid(Platform::Osx, Arch::Arm64), "maccatalyst-arm64");
    assert_eq!(dotnet_rid(Platform::Osx, Arch::X64), "maccatalyst-x64");
    assert_eq!(dotnet_rid(Platform::Ios, Arch::Arm64), "ios-arm64");
}

#[test]
fn staging_destinations() {
    assert_eq!(
        names(&destination_native_lib_path(Platform::Windows, Arch::X64)),
        vec![
            "rust_fractal",
            "nuget",
            "RustFractals",
            "runtimes",
            "win-x64",
            "native",
            "rust_fractal.dll"
        ]
    );
    assert_eq!(
        names(&destination_native_lib_path(Platform::Osx, Arch::Arm64)),
        vec![
            "rust_fractal",
            "nuget",
            "RustFractals",
            "runtimes",
            "osx-arm64",
            "native",
            "librust_fractal.dylib"
        ]
    );
    assert_eq!(
        names(&destination_native_lib_path(Platform::Android, Arch::Arm64)),
        vec![
            "rust_fractal",
            "nuget",
            "RustFractals",
            "runtimes",
            "android-arm64",
            "native",
            "librust_fractal.so"
        ]
    );
}
