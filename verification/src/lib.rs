//! Icon resolution for Windows applications, modules and packaged apps.
//!
//! The library holds the decisions of the pipeline: which native request an
//! identifier stands for, how a native bitmap becomes an RGBA image, which
//! handles have to be released on every exit path, and which file of a
//! package directory is its icon. The calls into the operating system are
//! made by the caller, who drives the state machines of this crate: each
//! machine returns the action to perform and takes its result as an event.

pub mod dll_icons;
pub mod encode;
pub mod error;
pub mod handles;
pub mod locator;
pub mod paths;
pub mod raster;
pub mod resolver;
pub mod rgba;
pub mod source;
pub mod text;
pub mod uwp_apps;
pub mod wide;

pub use dll_icons::{locate_request, parse_selector, DllIcon, IconRequest, Selector};
pub use encode::{icon_file_to_base64, icon_file_to_image, image_to_base64, image_to_png, to_base64};
pub use error::{ErrorKind, IconError};
pub use handles::{HandleGuard, HandleKind, NativeHandle};
pub use locator::{Locator, LocatorAction, LocatorEvent};
pub use raster::{NativeLayout, RasterAction, RasterEvent, Rasterizer};
pub use resolver::{Resolver, ResolverAction, ResolverEvent};
pub use rgba::{bgra_to_rgba, RgbaImage};
pub use source::{begin, is_uwp_app, route_path, Identifier, Origin, PathRoute};
pub use uwp_apps::{extract_icon_path, Candidate};
