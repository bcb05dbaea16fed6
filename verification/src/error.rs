//! The failures that the pipeline reports.

use vstd::prelude::*;

verus! {

/// The coarse class of a failure.
#[derive(Clone, Copy, Debug, PartialEq, Eq, Structural)]
pub enum ErrorKind {
    /// A file, process, module, resource or manifest entry is missing.
    NotFound,
    /// An operating-system call returned a null or invalid handle.
    InvalidHandle,
    /// An operating-system call reported a failure.
    OsCallFailed,
    /// A size or a product does not fit its integer type.
    Overflow,
    /// The input is not well formed.
    MalformedInput,
}

/// A failure of the pipeline, named by the step at which it arose. Where the
/// operating system gave an error code, the failure carries it.
#[derive(Clone, Copy, Debug, PartialEq, Eq, Structural)]
pub enum IconError {
    /// The identifier names no resource.
    NoResource,
    /// A one-based resource index was zero.
    IndexUnderflow,
    /// The requested size does not fit the signed dimension type.
    SizeOutOfRange,
    /// The module could neither be found in the process nor be loaded.
    ModuleNotFound { os_code: u32 },
    /// The module holds no icon at the selector.
    ResourceNotFound { os_code: u32 },
    /// The shell has no icon for the file.
    FileIconNotFound { os_code: u32 },
    /// The size of a native structure does not fit the type that the system
    /// takes it in.
    LayoutOutOfRange,
    /// The icon's bitmaps could not be queried.
    IconInfoFailed { os_code: u32 },
    /// The description of the colour bitmap has another size than expected.
    BitmapLayoutMismatch { expected: i32, got: i32 },
    /// A dimension of the bitmap does not fit the signed dimension type.
    DimensionOutOfRange,
    /// The bitmap has no pixels.
    DegenerateDimensions,
    /// The number of bytes of the image does not fit the address space.
    PixelCountOverflow,
    /// No device context of the screen could be had.
    NoDeviceContext,
    /// The copy of the pixels failed.
    CopyFailed { os_code: u32 },
    /// The copy of the pixels gave another number of rows than asked for.
    RowCountMismatch { asked: u32, copied: i32 },
    /// The buffer that came back has another number of cells than asked for.
    BufferSizeMismatch,
    /// An event arrived that the state machine did not wait for.
    UnexpectedEvent,
    /// The package directory does not exist.
    PackageNotFound,
    /// The manifest exists and could not be read.
    ManifestUnreadable,
    /// The manifest holds no logo element.
    LogoNotInManifest,
    /// The logo path of the manifest names no file in a directory.
    LogoPathIncomplete,
    /// The search pattern was refused.
    PatternRefused,
    /// The size of a candidate file could not be read.
    FileSizeUnavailable,
    /// No file of the package directory looks like its icon.
    NoIconInPackage,
    /// The bytes are no image that can be decoded.
    DecodingFailed,
    /// The image could not be encoded.
    EncodingFailed,
    /// The decoder's buffer does not have four bytes for each pixel.
    ImageSizeMismatch,
    /// The text encoding of the bytes would not fit the address space.
    InputTooLong,
    /// The process could not be opened.
    ProcessNotFound { os_code: u32 },
    /// The path of the process's module could not be read.
    ProcessPathUnavailable { os_code: u32 },
    /// The handle of the process could not be closed.
    ProcessHandleNotClosed,
}

impl IconError {
    /// The class that a failure belongs to.
    pub open spec fn kind_of(self) -> ErrorKind {
        match self {
            IconError::NoResource => ErrorKind::NotFound,
            IconError::IndexUnderflow => ErrorKind::MalformedInput,
            IconError::SizeOutOfRange => ErrorKind::Overflow,
            IconError::ModuleNotFound { .. } => ErrorKind::NotFound,
            IconError::ResourceNotFound { .. } => ErrorKind::NotFound,
            IconError::FileIconNotFound { .. } => ErrorKind::NotFound,
            IconError::LayoutOutOfRange => ErrorKind::Overflow,
            IconError::IconInfoFailed { .. } => ErrorKind::OsCallFailed,
            IconError::BitmapLayoutMismatch { .. } => ErrorKind::OsCallFailed,
            IconError::DimensionOutOfRange => ErrorKind::Overflow,
            IconError::DegenerateDimensions => ErrorKind::MalformedInput,
            IconError::PixelCountOverflow => ErrorKind::Overflow,
            IconError::NoDeviceContext => ErrorKind::InvalidHandle,
            IconError::CopyFailed { .. } => ErrorKind::OsCallFailed,
            IconError::RowCountMismatch { .. } => ErrorKind::OsCallFailed,
            IconError::BufferSizeMismatch => ErrorKind::MalformedInput,
            IconError::UnexpectedEvent => ErrorKind::MalformedInput,
            IconError::PackageNotFound => ErrorKind::NotFound,
            IconError::ManifestUnreadable => ErrorKind::OsCallFailed,
            IconError::LogoNotInManifest => ErrorKind::NotFound,
            IconError::LogoPathIncomplete => ErrorKind::NotFound,
            IconError::PatternRefused => ErrorKind::MalformedInput,
            IconError::FileSizeUnavailable => ErrorKind::NotFound,
            IconError::NoIconInPackage => ErrorKind::NotFound,
            IconError::DecodingFailed => ErrorKind::MalformedInput,
            IconError::EncodingFailed => ErrorKind::MalformedInput,
            IconError::ImageSizeMismatch => ErrorKind::MalformedInput,
            IconError::InputTooLong => ErrorKind::Overflow,
            IconError::ProcessNotFound { .. } => ErrorKind::NotFound,
            IconError::ProcessPathUnavailable { .. } => ErrorKind::NotFound,
            IconError::ProcessHandleNotClosed => ErrorKind::OsCallFailed,
        }
    }

    /// Returns the class of this failure.
    pub fn kind(&self) -> (k: ErrorKind)
        ensures
            k == self.kind_of(),
    {
        match self {
            IconError::NoResource => ErrorKind::NotFound,
            IconError::IndexUnderflow => ErrorKind::MalformedInput,
            IconError::SizeOutOfRange => ErrorKind::Overflow,
            IconError::ModuleNotFound { .. } => ErrorKind::NotFound,
            IconError::ResourceNotFound { .. } => ErrorKind::NotFound,
            IconError::FileIconNotFound { .. } => ErrorKind::NotFound,
            IconError::LayoutOutOfRange => ErrorKind::Overflow,
            IconError::IconInfoFailed { .. } => ErrorKind::OsCallFailed,
            IconError::BitmapLayoutMismatch { .. } => ErrorKind::OsCallFailed,
            IconError::DimensionOutOfRange => ErrorKind::Overflow,
            IconError::DegenerateDimensions => ErrorKind::MalformedInput,
            IconError::PixelCountOverflow => ErrorKind::Overflow,
            IconError::NoDeviceContext => ErrorKind::InvalidHandle,
            IconError::CopyFailed { .. } => ErrorKind::OsCallFailed,
            IconError::RowCountMismatch { .. } => ErrorKind::OsCallFailed,
            IconError::BufferSizeMismatch => ErrorKind::MalformedInput,
            IconError::UnexpectedEvent => ErrorKind::MalformedInput,
            IconError::PackageNotFound => ErrorKind::NotFound,
            IconError::ManifestUnreadable => ErrorKind::OsCallFailed,
            IconError::LogoNotInManifest => ErrorKind::NotFound,
            IconError::LogoPathIncomplete => ErrorKind::NotFound,
            IconError::PatternRefused => ErrorKind::MalformedInput,
            IconError::FileSizeUnavailable => ErrorKind::NotFound,
            IconError::NoIconInPackage => ErrorKind::NotFound,
            IconError::DecodingFailed => ErrorKind::MalformedInput,
            IconError::EncodingFailed => ErrorKind::MalformedInput,
            IconError::ImageSizeMismatch => ErrorKind::MalformedInput,
            IconError::InputTooLong => ErrorKind::Overflow,
            IconError::ProcessNotFound { .. } => ErrorKind::NotFound,
            IconError::ProcessPathUnavailable { .. } => ErrorKind::NotFound,
            IconError::ProcessHandleNotClosed => ErrorKind::OsCallFailed,
        }
    }

    /// The words that say what failed.
    pub open spec fn text_of(self) -> Seq<char> {
        match self {
            IconError::NoResource => "no resource was named"@,
            IconError::IndexUnderflow => "index underflow"@,
            IconError::SizeOutOfRange => "the size does not fit the dimension type"@,
            IconError::ModuleNotFound { .. } => "the module was not found"@,
            IconError::ResourceNotFound { .. } => "the module holds no icon at the selector"@,
            IconError::FileIconNotFound { .. } => "the shell has no icon for the file"@,
            IconError::LayoutOutOfRange => "the size of a native structure is out of range"@,
            IconError::IconInfoFailed { .. } => "the bitmaps of the icon could not be queried"@,
            IconError::BitmapLayoutMismatch { .. } => "the description of the bitmap has an unexpected size"@,
            IconError::DimensionOutOfRange => "a dimension of the bitmap is out of range"@,
            IconError::DegenerateDimensions => "degenerate icon dimensions"@,
            IconError::PixelCountOverflow => "buffer size overflow"@,
            IconError::NoDeviceContext => "no device context could be had"@,
            IconError::CopyFailed { .. } => "the copy of the pixels failed"@,
            IconError::RowCountMismatch { .. } => "the copy of the pixels gave an unexpected number of rows"@,
            IconError::BufferSizeMismatch => "the pixel buffer has an unexpected size"@,
            IconError::UnexpectedEvent => "an answer arrived out of turn"@,
            IconError::PackageNotFound => "package folder not found"@,
            IconError::ManifestUnreadable => "the manifest could not be read"@,
            IconError::LogoNotInManifest => "icon path not found in manifest"@,
            IconError::LogoPathIncomplete => "the logo path has no file name or no extension"@,
            IconError::PatternRefused => "the search pattern was refused"@,
            IconError::FileSizeUnavailable => "the size of a candidate file could not be read"@,
            IconError::NoIconInPackage => "no icon found in package folder"@,
            IconError::DecodingFailed => "the image could not be decoded"@,
            IconError::EncodingFailed => "the image could not be encoded"@,
            IconError::ImageSizeMismatch => "the decoded buffer has an unexpected size"@,
            IconError::InputTooLong => "the input is too long to be written as text"@,
            IconError::ProcessNotFound { .. } => "the process could not be opened"@,
            IconError::ProcessPathUnavailable { .. } => "the path of the process could not be read"@,
            IconError::ProcessHandleNotClosed => "the handle of the process could not be closed"@,
        }
    }

    /// Returns the words that say what failed.
    pub fn message(&self) -> (text: String)
        ensures
            text@ == self.text_of(),
    {
        match self {
            IconError::NoResource => "no resource was named".to_owned(),
            IconError::IndexUnderflow => "index underflow".to_owned(),
            IconError::SizeOutOfRange => "the size does not fit the dimension type".to_owned(),
            IconError::ModuleNotFound { .. } => "the module was not found".to_owned(),
            IconError::ResourceNotFound { .. } => "the module holds no icon at the selector".to_owned(),
            IconError::FileIconNotFound { .. } => "the shell has no icon for the file".to_owned(),
            IconError::LayoutOutOfRange => "the size of a native structure is out of range".to_owned(),
            IconError::IconInfoFailed { .. } => "the bitmaps of the icon could not be queried".to_owned(),
            IconError::BitmapLayoutMismatch { .. } => "the description of the bitmap has an unexpected size".to_owned(),
            IconError::DimensionOutOfRange => "a dimension of the bitmap is out of range".to_owned(),
            IconError::DegenerateDimensions => "degenerate icon dimensions".to_owned(),
            IconError::PixelCountOverflow => "buffer size overflow".to_owned(),
            IconError::NoDeviceContext => "no device context could be had".to_owned(),
            IconError::CopyFailed { .. } => "the copy of the pixels failed".to_owned(),
            IconError::RowCountMismatch { .. } => "the copy of the pixels gave an unexpected number of rows".to_owned(),
            IconError::BufferSizeMismatch => "the pixel buffer has an unexpected size".to_owned(),
            IconError::UnexpectedEvent => "an answer arrived out of turn".to_owned(),
            IconError::PackageNotFound => "package folder not found".to_owned(),
            IconError::ManifestUnreadable => "the manifest could not be read".to_owned(),
            IconError::LogoNotInManifest => "icon path not found in manifest".to_owned(),
            IconError::LogoPathIncomplete => "the logo path has no file name or no extension".to_owned(),
            IconError::PatternRefused => "the search pattern was refused".to_owned(),
            IconError::FileSizeUnavailable => "the size of a candidate file could not be read".to_owned(),
            IconError::NoIconInPackage => "no icon found in package folder".to_owned(),
            IconError::DecodingFailed => "the image could not be decoded".to_owned(),
            IconError::EncodingFailed => "the image could not be encoded".to_owned(),
            IconError::ImageSizeMismatch => "the decoded buffer has an unexpected size".to_owned(),
            IconError::InputTooLong => "the input is too long to be written as text".to_owned(),
            IconError::ProcessNotFound { .. } => "the process could not be opened".to_owned(),
            IconError::ProcessPathUnavailable { .. } => "the path of the process could not be read".to_owned(),
            IconError::ProcessHandleNotClosed => "the handle of the process could not be closed".to_owned(),
        }
    }

    /// The error code of the operating system that a failure carries.
    pub open spec fn os_code_of(self) -> Option<u32> {
        match self {
            IconError::ModuleNotFound { os_code } => Some(os_code),
            IconError::ResourceNotFound { os_code } => Some(os_code),
            IconError::FileIconNotFound { os_code } => Some(os_code),
            IconError::IconInfoFailed { os_code } => Some(os_code),
            IconError::CopyFailed { os_code } => Some(os_code),
            IconError::ProcessNotFound { os_code } => Some(os_code),
            IconError::ProcessPathUnavailable { os_code } => Some(os_code),
            _ => None,
        }
    }

    /// Returns the error code of the operating system, where the failure
    /// carries one.
    pub fn os_code(&self) -> (code: Option<u32>)
        ensures
            code == self.os_code_of(),
    {
        match self {
            IconError::ModuleNotFound { os_code } => Some(*os_code),
            IconError::ResourceNotFound { os_code } => Some(*os_code),
            IconError::FileIconNotFound { os_code } => Some(*os_code),
            IconError::IconInfoFailed { os_code } => Some(*os_code),
            IconError::CopyFailed { os_code } => Some(*os_code),
            IconError::ProcessNotFound { os_code } => Some(*os_code),
            IconError::ProcessPathUnavailable { os_code } => Some(*os_code),
            _ => None,
        }
    }
}

} // verus!
