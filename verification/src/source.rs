//! Where an icon comes from: the way that a path is resolved, and the
//! outcomes of the two queries that give a path or an icon at once.

use crate::dll_icons::{DllIcon, ResourceModel};
use crate::error::IconError;
use crate::paths::{directory_of, split_path};
use crate::text::{chars_of, contains, contains_chars};
use vstd::prelude::*;

verus! {

/// Whether a path lies in the directory of the packaged applications and
/// not in that of the subsystem for Android.
pub open spec fn in_package_store(path: Seq<char>) -> bool {
    contains(path, "Programme/WindowsApps"@) && !contains(path, "WindowsSubsystemForAndroid"@)
}

/// Tests whether a path names a packaged application.
pub fn is_uwp_app(path: &str) -> (b: bool)
    ensures
        b == in_package_store(path@),
{
    let chars = chars_of(path);
    let store = chars_of("Programme/WindowsApps");
    let android = chars_of("WindowsSubsystemForAndroid");
    let is_uwp = contains_chars(chars.as_slice(), store.as_slice());
    let is_wsa = contains_chars(chars.as_slice(), android.as_slice());
    is_uwp && !is_wsa
}

/// The way that the icon of a file is resolved.
#[derive(Debug)]
pub enum PathRoute {
    /// The file belongs to a packaged application: its icon is a file of
    /// the package directory `directory`.
    Packaged { directory: String },
    /// The shell knows the icon of the file at `path`.
    Shell { path: String },
}

/// A route with its path as a sequence of characters.
pub enum PathRouteModel {
    Packaged { directory: Seq<char> },
    Shell { path: Seq<char> },
}

impl View for PathRoute {
    type V = PathRouteModel;

    open spec fn view(&self) -> PathRouteModel {
        match *self {
            PathRoute::Packaged { directory } => PathRouteModel::Packaged {
                directory: directory@,
            },
            PathRoute::Shell { path } => PathRouteModel::Shell { path: path@ },
        }
    }
}

/// The route of a path: through the package directory that holds the file
/// where the path names a packaged application, and else through the shell.
pub open spec fn route_of(path: Seq<char>) -> PathRouteModel {
    if in_package_store(path) {
        PathRouteModel::Packaged { directory: directory_of(path) }
    } else {
        PathRouteModel::Shell { path }
    }
}

/// Decides how the icon of the file at `path` is resolved.
pub fn route_path(path: &str) -> (route: PathRoute)
    ensures
        route@ == route_of(path@),
{
    if is_uwp_app(path) {
        let (directory, _) = split_path(path);
        PathRoute::Packaged { directory }
    } else {
        PathRoute::Shell { path: path.to_owned() }
    }
}

/// What an icon is asked for by.
#[derive(Debug)]
pub enum Identifier {
    /// The path of a file.
    FilePath(String),
    /// The identifier of a running process.
    ProcessId(u32),
    /// A resource of a module.
    ModuleResource(DllIcon),
    /// The directory of a packaged application.
    PackagedApp(String),
}

/// An identifier with its strings as sequences of characters.
pub enum IdentifierModel {
    FilePath(Seq<char>),
    ProcessId(u32),
    ModuleResource(ResourceModel),
    PackagedApp(Seq<char>),
}

impl View for Identifier {
    type V = IdentifierModel;

    open spec fn view(&self) -> IdentifierModel {
        match *self {
            Identifier::FilePath(path) => IdentifierModel::FilePath(path@),
            Identifier::ProcessId(id) => IdentifierModel::ProcessId(id),
            Identifier::ModuleResource(icon) => IdentifierModel::ModuleResource(icon@),
            Identifier::PackagedApp(directory) => IdentifierModel::PackagedApp(directory@),
        }
    }
}

/// Where the resolution of an identifier begins.
#[derive(Debug)]
pub enum Origin {
    /// With the shell's icon of the file at `path`.
    Shell { path: String },
    /// With the icon file of the package in `directory`.
    Package { directory: String },
    /// With the path of the executable of a process, which is then resolved
    /// as the path of a file.
    Process { process_id: u32 },
    /// With the search for a resource of a module.
    Module { icon: DllIcon },
}

/// An origin with its strings as sequences of characters.
pub enum OriginModel {
    Shell { path: Seq<char> },
    Package { directory: Seq<char> },
    Process { process_id: u32 },
    Module { icon: ResourceModel },
}

impl View for Origin {
    type V = OriginModel;

    open spec fn view(&self) -> OriginModel {
        match *self {
            Origin::Shell { path } => OriginModel::Shell { path: path@ },
            Origin::Package { directory } => OriginModel::Package { directory: directory@ },
            Origin::Process { process_id } => OriginModel::Process { process_id },
            Origin::Module { icon } => OriginModel::Module { icon: icon@ },
        }
    }
}

/// Where the resolution of an identifier begins: each kind of identifier has
/// its own way, and the path of a file goes the way of a package where it
/// names a packaged application.
pub open spec fn origin_of(identifier: IdentifierModel) -> OriginModel {
    match identifier {
        IdentifierModel::FilePath(path) => match route_of(path) {
            PathRouteModel::Packaged { directory } => OriginModel::Package { directory },
            PathRouteModel::Shell { path } => OriginModel::Shell { path },
        },
        IdentifierModel::ProcessId(process_id) => OriginModel::Process { process_id },
        IdentifierModel::ModuleResource(icon) => OriginModel::Module { icon },
        IdentifierModel::PackagedApp(directory) => OriginModel::Package { directory },
    }
}

/// Decides where the resolution of an identifier begins.
pub fn begin(identifier: Identifier) -> (origin: Origin)
    ensures
        origin@ == origin_of(identifier@),
{
    match identifier {
        Identifier::FilePath(path) => match route_path(path.as_str()) {
            PathRoute::Packaged { directory } => Origin::Package { directory },
            PathRoute::Shell { path } => Origin::Shell { path },
        },
        Identifier::ProcessId(process_id) => Origin::Process { process_id },
        Identifier::ModuleResource(icon) => Origin::Module { icon },
        Identifier::PackagedApp(directory) => Origin::Package { directory },
    }
}

/// The icon that the shell gave for a file, or the failure where its query
/// returned zero. `result` is what the query returned, `icon` the handle
/// that it wrote.
pub open spec fn shell_icon_of(result: usize, icon: usize, os_code: u32) -> Result<usize, IconError> {
    if result == 0 {
        Err(IconError::FileIconNotFound { os_code })
    } else {
        Ok(icon)
    }
}

/// Decides from the shell's answer whether there is an icon.
pub fn shell_icon_outcome(result: usize, icon: usize, os_code: u32) -> (r: Result<usize, IconError>)
    ensures
        r == shell_icon_of(result, icon, os_code),
{
    if result == 0 {
        Err(IconError::FileIconNotFound { os_code })
    } else {
        Ok(icon)
    }
}

/// What the queries for the path of a process gave.
#[derive(Clone, Copy, Debug, PartialEq, Eq, Structural)]
pub struct ProcessQuery {
    /// Whether the process could be opened.
    pub opened: bool,
    /// The error code of the system where it could not.
    pub open_code: u32,
    /// Whether the handle of the process could be closed again.
    pub closed: bool,
    /// The number of units that the query for the path wrote, zero where it
    /// failed.
    pub length: u32,
    /// The error code of the system where it failed.
    pub read_code: u32,
}

/// The path of a process in units of 16 bits, or the reason why there is
/// none: the first `length` units of the buffer, or all of them where there
/// are fewer.
pub open spec fn process_path_of(query: ProcessQuery, buffer: Seq<u16>) -> Result<Seq<u16>, IconError> {
    if !query.opened {
        Err(IconError::ProcessNotFound { os_code: query.open_code })
    } else if !query.closed {
        Err(IconError::ProcessHandleNotClosed)
    } else if query.length == 0 {
        Err(IconError::ProcessPathUnavailable { os_code: query.read_code })
    } else if query.length <= buffer.len() {
        Ok(buffer.take(query.length as int))
    } else {
        Ok(buffer)
    }
}

/// Decides from the answers of the system what the path of a process is.
pub fn process_path_outcome(query: ProcessQuery, buffer: Vec<u16>) -> (r: Result<Vec<u16>, IconError>)
    ensures
        match r {
            Ok(path) => process_path_of(query, buffer@) == Ok::<Seq<u16>, IconError>(path@),
            Err(e) => process_path_of(query, buffer@) == Err::<Seq<u16>, IconError>(e),
        },
{
    if !query.opened {
        return Err(IconError::ProcessNotFound { os_code: query.open_code });
    }
    if !query.closed {
        return Err(IconError::ProcessHandleNotClosed);
    }
    if query.length == 0 {
        return Err(IconError::ProcessPathUnavailable { os_code: query.read_code });
    }
    let mut path = buffer;
    if query.length as usize <= path.len() {
        path.truncate(query.length as usize);
    }
    Ok(path)
}

} // verus!
