//! Icons that are resources of a module: which one is meant, and what to ask
//! the system for.

use crate::error::IconError;
use crate::text::{chars_of, parse_decimal_i32, parse_i32, trim_bounds, trimmed};
use vstd::prelude::*;
use vstd::slice::slice_subrange;

verus! {

/// The resource that an identifier names.
#[derive(Clone, Debug, PartialEq, Eq)]
enum DllResource {
    System(String, u32),
    Other(String, String, u32),
}

/// What a `DllIcon` names: nothing yet, the icon at a one-based index of a
/// module of the system, or the icon that a name or number selects in the
/// module at a path, at a size in pixels.
pub enum ResourceModel {
    Unset,
    System { module: Seq<char>, index: u32 },
    Other { path: Seq<char>, name: Seq<char>, size: u32 },
}

/// The identifier of an icon that is a resource of a module.
#[derive(Clone, Debug, PartialEq, Eq)]
pub struct DllIcon(Option<DllResource>);

impl View for DllIcon {
    type V = ResourceModel;

    closed spec fn view(&self) -> ResourceModel {
        match self.0 {
            None => ResourceModel::Unset,
            Some(DllResource::System(module, index)) => ResourceModel::System {
                module: module@,
                index,
            },
            Some(DllResource::Other(path, name, size)) => ResourceModel::Other {
                path: path@,
                name: name@,
                size,
            },
        }
    }
}

impl Default for DllIcon {
    fn default() -> (icon: DllIcon)
        ensures
            icon@ == ResourceModel::Unset,
    {
        DllIcon::new()
    }
}

impl DllIcon {
    /// An identifier that names no resource yet.
    pub fn new() -> (icon: DllIcon)
        ensures
            icon@ == ResourceModel::Unset,
    {
        DllIcon(None)
    }

    /// Names the icon that `name` selects in the module at `path`, at `size`
    /// by `size` pixels. Where `name`, without the white space around it, is
    /// a decimal number, it selects by number.
    pub fn with_resource(self, path: &str, name: &str, size: u32) -> (icon: DllIcon)
        ensures
            icon@ == (ResourceModel::Other { path: path@, name: name@, size }),
    {
        DllIcon(Some(DllResource::Other(path.to_owned(), name.to_owned(), size)))
    }

    /// Names the icon at the one-based `index` of a module of the system.
    fn with_system(module: &str, index: u32) -> (icon: DllIcon)
        ensures
            icon@ == (ResourceModel::System { module: module@, index }),
    {
        DllIcon(Some(DllResource::System(module.to_owned(), index)))
    }

    /// Names the icon at the one-based `index` of `shell32.dll`.
    pub fn with_shell32(self, index: u32) -> (icon: DllIcon)
        ensures
            icon@ == (ResourceModel::System { module: "shell32.dll"@, index }),
    {
        DllIcon::with_system("shell32.dll", index)
    }

    /// Names the icon at the one-based `index` of `imageres.dll`.
    pub fn with_imageres(self, index: u32) -> (icon: DllIcon)
        ensures
            icon@ == (ResourceModel::System { module: "imageres.dll"@, index }),
    {
        DllIcon::with_system("imageres.dll", index)
    }

    /// Names the icon at the one-based `index` of `ddores.dll`.
    pub fn with_ddores(self, index: u32) -> (icon: DllIcon)
        ensures
            icon@ == (ResourceModel::System { module: "ddores.dll"@, index }),
    {
        DllIcon::with_system("ddores.dll", index)
    }

    /// Names the icon at the one-based `index` of `mmres.dll`.
    pub fn with_mmres(self, index: u32) -> (icon: DllIcon)
        ensures
            icon@ == (ResourceModel::System { module: "mmres.dll"@, index }),
    {
        DllIcon::with_system("mmres.dll", index)
    }

    /// Names the icon at the one-based `index` of `wmploc.dll`.
    pub fn with_wmploc(self, index: u32) -> (icon: DllIcon)
        ensures
            icon@ == (ResourceModel::System { module: "wmploc.dll"@, index }),
    {
        DllIcon::with_system("wmploc.dll", index)
    }

    /// Names the icon at the one-based `index` of `dmdskres.dll`.
    pub fn with_dmdskres(self, index: u32) -> (icon: DllIcon)
        ensures
            icon@ == (ResourceModel::System { module: "dmdskres.dll"@, index }),
    {
        DllIcon::with_system("dmdskres.dll", index)
    }

    /// Names the icon at the one-based `index` of `setupapi.dll`.
    pub fn with_setupapi(self, index: u32) -> (icon: DllIcon)
        ensures
            icon@ == (ResourceModel::System { module: "setupapi.dll"@, index }),
    {
        DllIcon::with_system("setupapi.dll", index)
    }

    /// Names the icon at the one-based `index` of `explorer.exe`.
    pub fn with_explorer(self, index: u32) -> (icon: DllIcon)
        ensures
            icon@ == (ResourceModel::System { module: "explorer.exe"@, index }),
    {
        DllIcon::with_system("explorer.exe", index)
    }

    /// Names the icon at the one-based `index` of `imagesp1.dll`.
    pub fn with_imagesp1(self, index: u32) -> (icon: DllIcon)
        ensures
            icon@ == (ResourceModel::System { module: "imagesp1.dll"@, index }),
    {
        DllIcon::with_system("imagesp1.dll", index)
    }

    /// Names the icon at the one-based `index` of `pifmgr.dll`.
    pub fn with_pifmgr(self, index: u32) -> (icon: DllIcon)
        ensures
            icon@ == (ResourceModel::System { module: "pifmgr.dll"@, index }),
    {
        DllIcon::with_system("pifmgr.dll", index)
    }

    /// Names the icon at the one-based `index` of `networkexplorer.dll`.
    pub fn with_networkexplorer(self, index: u32) -> (icon: DllIcon)
        ensures
            icon@ == (ResourceModel::System { module: "networkexplorer.dll"@, index }),
    {
        DllIcon::with_system("networkexplorer.dll", index)
    }
}

/// How a resource is selected in its module.
#[derive(Clone, Debug, PartialEq, Eq)]
pub enum Selector {
    /// By number.
    Id(i32),
    /// By name.
    Name(String),
}

/// A selector with its name as a sequence of characters.
pub enum SelectorModel {
    Id(i32),
    Name(Seq<char>),
}

impl View for Selector {
    type V = SelectorModel;

    open spec fn view(&self) -> SelectorModel {
        match *self {
            Selector::Id(id) => SelectorModel::Id(id),
            Selector::Name(name) => SelectorModel::Name(name@),
        }
    }
}

/// What to ask the system for.
#[derive(Clone, Debug, PartialEq, Eq)]
pub enum IconRequest {
    /// The icon at the zero-based position `position` of the module named
    /// `module`, which the system finds and loads by itself.
    Extract { module: String, position: u32 },
    /// The icon that `selector` selects in the module at `module`, at `size`
    /// by `size` pixels.
    Load { module: String, selector: Selector, size: i32 },
}

/// A request with its strings as sequences of characters.
pub enum RequestModel {
    Extract { module: Seq<char>, position: u32 },
    Load { module: Seq<char>, selector: SelectorModel, size: i32 },
}

impl View for IconRequest {
    type V = RequestModel;

    open spec fn view(&self) -> RequestModel {
        match *self {
            IconRequest::Extract { module, position } => RequestModel::Extract {
                module: module@,
                position,
            },
            IconRequest::Load { module, selector, size } => RequestModel::Load {
                module: module@,
                selector: selector@,
                size,
            },
        }
    }
}

/// The selector that a resource name stands for: the number that the name
/// writes once the white space around it is taken off, or else the name as
/// it is.
pub open spec fn selector_of(name: Seq<char>) -> SelectorModel {
    match parse_i32(trimmed(name)) {
        Some(id) => SelectorModel::Id(id as i32),
        None => SelectorModel::Name(name),
    }
}

/// The request that an identifier stands for, or the reason why it stands
/// for none. A one-based index becomes the zero-based position before it;
/// the index zero has none.
pub open spec fn request_of(resource: ResourceModel) -> Result<RequestModel, IconError> {
    match resource {
        ResourceModel::Unset => Err(IconError::NoResource),
        ResourceModel::System { module, index } => if index == 0 {
            Err(IconError::IndexUnderflow)
        } else {
            Ok(RequestModel::Extract { module, position: (index - 1) as u32 })
        },
        ResourceModel::Other { path, name, size } => if size > i32::MAX {
            Err(IconError::SizeOutOfRange)
        } else {
            Ok(RequestModel::Load { module: path, selector: selector_of(name), size: size as i32 })
        },
    }
}

/// Reads a resource name as a selector.
pub fn parse_selector(name: &str) -> (selector: Selector)
    ensures
        selector@ == selector_of(name@),
{
    let chars = chars_of(name);
    let (from, to) = trim_bounds(chars.as_slice());
    let inner = slice_subrange(chars.as_slice(), from, to);
    match parse_decimal_i32(inner) {
        Some(id) => Selector::Id(id),
        None => Selector::Name(name.to_owned()),
    }
}

/// Decides what to ask the system for.
pub fn locate_request(icon: &DllIcon) -> (r: Result<IconRequest, IconError>)
    ensures
        match r {
            Ok(request) => request_of(icon@) == Ok::<RequestModel, IconError>(request@),
            Err(e) => request_of(icon@) == Err::<RequestModel, IconError>(e),
        },
{
    match &icon.0 {
        None => Err(IconError::NoResource),
        Some(DllResource::System(module, index)) => {
            match index.checked_sub(1) {
                Some(position) => Ok(IconRequest::Extract { module: module.clone(), position }),
                None => Err(IconError::IndexUnderflow),
            }
        },
        Some(DllResource::Other(path, name, size)) => {
            if *size > i32::MAX as u32 {
                Err(IconError::SizeOutOfRange)
            } else {
                let selector = parse_selector(name.as_str());
                Ok(IconRequest::Load { module: path.clone(), selector, size: *size as i32 })
            }
        },
    }
}

/// The indices of the icons of a system module begin at one: the index one
/// stands for the position zero, every other index for the position before
/// it, and the index zero for none.
pub proof fn lemma_index_is_one_based(module: Seq<char>, index: u32)
    ensures
        index == 0 ==> request_of(ResourceModel::System { module, index }) == Err::<
            RequestModel,
            IconError,
        >(IconError::IndexUnderflow),
        index > 0 ==> request_of(ResourceModel::System { module, index }) == Ok::<
            RequestModel,
            IconError,
        >(RequestModel::Extract { module, position: (index - 1) as u32 }),
        request_of(ResourceModel::System { module, index: 1 }) == Ok::<RequestModel, IconError>(
            RequestModel::Extract { module, position: 0 },
        ),
{
}

} // verus!
