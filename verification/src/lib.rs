//! Mandelbrot render kernel: colour mapping, request validation and frame
//! painting, together with the naming rules of the native build layout.

pub mod build_native;
pub mod colormap;
pub mod dotnet;
pub mod export;
pub mod orbit;
pub mod paths;
pub mod process;
pub mod render;
pub mod sync_cs;
