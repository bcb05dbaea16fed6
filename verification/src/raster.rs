//! The rasterizer: from a native icon handle to an RGBA image.
//!
//! The rasterizer is a state machine. It asks for one native operation at a
//! time by returning a `RasterAction`; the caller performs the operation and
//! hands the result back as a `RasterEvent`. The machine owns every handle
//! that it was given, the icon's and those that the events bring, and its
//! last action names the handles to release: each non-null handle once,
//! whether the image was made or not.

use crate::error::IconError;
use crate::handles::{
    guarded_by, lemma_releases_add, release_all, releases_of, HandleGuard, HandleKind, NativeHandle,
};
use crate::rgba::{bytes_of_cells, cells_to_rgba, rgba_of_bgra, ImageModel, RgbaImage};
use vstd::prelude::*;

verus! {

/// What the rasterizer waits for.
#[derive(Clone, Copy, Debug, PartialEq, Eq, Structural)]
pub enum RasterPhase {
    /// For the two bitmaps of the icon.
    AwaitIconInfo,
    /// For the description of the colour bitmap.
    AwaitBitmap,
    /// For a device context of the screen.
    AwaitDeviceContext,
    /// For the copied pixels.
    AwaitBits,
    /// For nothing: the last action has been given.
    Finished,
}

/// The sizes in bytes of the two native structures that the rasterizer has
/// filled, as the platform lays them out.
#[derive(Clone, Copy, Debug, PartialEq, Eq, Structural)]
pub struct NativeLayout {
    /// The size of the structure that describes a bitmap.
    pub bitmap_size: usize,
    /// The size of the header of a bitmap descriptor.
    pub header_size: usize,
}

/// The header of the descriptor that a copy of device-independent bits is
/// asked with. The fields not listed are zero.
#[derive(Clone, Copy, Debug, PartialEq, Eq, Structural)]
pub struct DibHeader {
    pub size: u32,
    pub width: i32,
    pub height: i32,
    pub planes: u16,
    pub bit_count: u16,
    pub compression: u32,
}

/// The header that asks for `width` by `height` pixels of 32 bits,
/// uncompressed, the top row first: its height is negative.
pub open spec fn top_down_header(size: u32, width: u32, height: u32) -> DibHeader {
    DibHeader {
        size,
        width: width as i32,
        height: (-(height as int)) as i32,
        planes: 1,
        bit_count: 32,
        compression: 0,
    }
}

/// The result of a native operation, as the caller reports it.
#[derive(Debug)]
pub enum RasterEvent {
    /// The query for the icon's bitmaps returned. Where it succeeded, `mask`
    /// and `color` are the two bitmaps, which the rasterizer now owns.
    IconInfo { succeeded: bool, mask: usize, color: usize, os_code: u32 },
    /// The description of the colour bitmap returned: the number of bytes
    /// written, and the width and height as the bitmap reports them.
    BitmapDescribed { written: i32, width: i32, height: i32 },
    /// The request for a device context returned `dc`, null where it failed.
    DeviceContext { dc: usize },
    /// The copy of the pixels returned the number of rows copied, with the
    /// buffer that it filled.
    BitsCopied { rows: i32, os_code: u32, cells: Vec<u32> },
}

/// An event with its buffer as a sequence.
pub enum RasterEventModel {
    IconInfo { succeeded: bool, mask: usize, color: usize, os_code: u32 },
    BitmapDescribed { written: i32, width: i32, height: i32 },
    DeviceContext { dc: usize },
    BitsCopied { rows: i32, os_code: u32, cells: Seq<u32> },
}

impl View for RasterEvent {
    type V = RasterEventModel;

    open spec fn view(&self) -> RasterEventModel {
        match *self {
            RasterEvent::IconInfo { succeeded, mask, color, os_code } => RasterEventModel::IconInfo {
                succeeded,
                mask,
                color,
                os_code,
            },
            RasterEvent::BitmapDescribed { written, width, height } => RasterEventModel::BitmapDescribed {
                written,
                width,
                height,
            },
            RasterEvent::DeviceContext { dc } => RasterEventModel::DeviceContext { dc },
            RasterEvent::BitsCopied { rows, os_code, cells } => RasterEventModel::BitsCopied {
                rows,
                os_code,
                cells: cells@,
            },
        }
    }
}

/// What the caller has to do next.
#[derive(Debug)]
pub enum RasterAction {
    /// Query the two bitmaps of `icon`.
    QueryIconInfo { icon: usize },
    /// Describe the bitmap `bitmap` into a structure of `size` bytes.
    DescribeBitmap { bitmap: usize, size: i32 },
    /// Get a device context of the screen.
    AcquireDeviceContext,
    /// Copy `rows` rows of `bitmap`, from the first, into a zeroed buffer of
    /// `cells` cells of 32 bits, with the descriptor `header`.
    CopyBits { dc: usize, bitmap: usize, rows: u32, cells: usize, header: DibHeader },
    /// Release the handles of `release`, in this order, and return `outcome`.
    Finish { outcome: Result<RgbaImage, IconError>, release: Vec<NativeHandle> },
}

/// An action with its image and its list as mathematical values.
pub enum RasterActionModel {
    QueryIconInfo { icon: usize },
    DescribeBitmap { bitmap: usize, size: i32 },
    AcquireDeviceContext,
    CopyBits { dc: usize, bitmap: usize, rows: u32, cells: usize, header: DibHeader },
    Finish { outcome: Result<ImageModel, IconError>, release: Seq<NativeHandle> },
}

impl View for RasterAction {
    type V = RasterActionModel;

    open spec fn view(&self) -> RasterActionModel {
        match *self {
            RasterAction::QueryIconInfo { icon } => RasterActionModel::QueryIconInfo { icon },
            RasterAction::DescribeBitmap { bitmap, size } => RasterActionModel::DescribeBitmap {
                bitmap,
                size,
            },
            RasterAction::AcquireDeviceContext => RasterActionModel::AcquireDeviceContext,
            RasterAction::CopyBits { dc, bitmap, rows, cells, header } => RasterActionModel::CopyBits {
                dc,
                bitmap,
                rows,
                cells,
                header,
            },
            RasterAction::Finish { outcome, release } => RasterActionModel::Finish {
                outcome: match outcome {
                    Ok(image) => Ok(image@),
                    Err(e) => Err(e),
                },
                release: release@,
            },
        }
    }
}

/// The state of the rasterizer: what it waits for, the handles that it owns
/// (zero where it owns none), the sizes it was started with and, once the
/// bitmap is described, the dimensions of the image.
pub struct RasterState {
    pub phase: RasterPhase,
    pub icon: usize,
    pub mask: usize,
    pub color: usize,
    pub dc: usize,
    pub bitmap_size: i32,
    pub header_size: u32,
    pub width: u32,
    pub height: u32,
}

/// The magnitude of a signed dimension.
pub open spec fn magnitude(v: i32) -> int {
    if v < 0 {
        -(v as int)
    } else {
        v as int
    }
}

/// The dimensions of the image that a described bitmap gives, or the reason
/// why it gives none. `expected` is the size of the describing structure and
/// `written` the number of bytes that the system wrote to it; `width` and
/// `height` are taken by their magnitudes.
pub open spec fn dimensions_of(expected: i32, written: i32, width: i32, height: i32) -> Result<
    (u32, u32),
    IconError,
> {
    if written != expected {
        Err(IconError::BitmapLayoutMismatch { expected, got: written })
    } else if magnitude(width) > i32::MAX || magnitude(height) > i32::MAX {
        Err(IconError::DimensionOutOfRange)
    } else if width == 0 || height == 0 {
        Err(IconError::DegenerateDimensions)
    } else if 4 * (magnitude(width) * magnitude(height)) > usize::MAX {
        Err(IconError::PixelCountOverflow)
    } else {
        Ok((magnitude(width) as u32, magnitude(height) as u32))
    }
}

/// The image that a copy of `rows` rows into `cells` gives where `height`
/// rows of `width` pixels were asked for, or the reason why it gives none.
pub open spec fn image_of(width: u32, height: u32, rows: i32, os_code: u32, cells: Seq<u32>) -> Result<
    ImageModel,
    IconError,
> {
    if rows == 0 {
        Err(IconError::CopyFailed { os_code })
    } else if rows != height {
        Err(IconError::RowCountMismatch { asked: height, copied: rows })
    } else if cells.len() != width * height {
        Err(IconError::BufferSizeMismatch)
    } else {
        Ok(
            ImageModel {
                width: width as nat,
                height: height as nat,
                pixels: rgba_of_bgra(bytes_of_cells(cells)),
            },
        )
    }
}

/// The handles that a state owns, in the order of their release: the device
/// context, the icon, the colour bitmap, the mask bitmap.
pub open spec fn held(s: RasterState) -> Seq<NativeHandle> {
    seq![
        NativeHandle { kind: HandleKind::DeviceContext, raw: s.dc },
        NativeHandle { kind: HandleKind::Icon, raw: s.icon },
        NativeHandle { kind: HandleKind::Bitmap, raw: s.color },
        NativeHandle { kind: HandleKind::Bitmap, raw: s.mask },
    ]
}

/// The handles that an event brings.
pub open spec fn carried(e: RasterEventModel) -> Seq<NativeHandle> {
    match e {
        RasterEventModel::IconInfo { succeeded, mask, color, .. } => if succeeded {
            seq![
                NativeHandle { kind: HandleKind::Bitmap, raw: color },
                NativeHandle { kind: HandleKind::Bitmap, raw: mask },
            ]
        } else {
            Seq::empty()
        },
        RasterEventModel::DeviceContext { dc } => seq![
            NativeHandle { kind: HandleKind::DeviceContext, raw: dc },
        ],
        _ => Seq::empty(),
    }
}

/// The last step: the machine owns nothing any more, and the action
/// releases what it owned and what the event brought.
pub open spec fn finish(s: RasterState, e: RasterEventModel, outcome: Result<ImageModel, IconError>) -> (
    RasterState,
    RasterActionModel,
) {
    (
        RasterState { phase: RasterPhase::Finished, icon: 0, mask: 0, color: 0, dc: 0, ..s },
        RasterActionModel::Finish { outcome, release: releases_of(held(s) + carried(e)) },
    )
}

/// A rasterizer that owns `icon` and nothing else, and knows no sizes yet.
pub open spec fn raster_initial(icon: usize) -> RasterState {
    RasterState {
        phase: RasterPhase::AwaitIconInfo,
        icon,
        mask: 0,
        color: 0,
        dc: 0,
        bitmap_size: 0,
        header_size: 0,
        width: 0,
        height: 0,
    }
}

/// The state in which the rasterizer starts on `icon`, and its first action.
pub open spec fn raster_start(icon: usize, layout: NativeLayout) -> (RasterState, RasterActionModel) {
    let s = raster_initial(icon);
    if layout.bitmap_size > i32::MAX || layout.header_size > u32::MAX {
        (
            RasterState { phase: RasterPhase::Finished, icon: 0, ..s },
            RasterActionModel::Finish {
                outcome: Err(IconError::LayoutOutOfRange),
                release: releases_of(held(s)),
            },
        )
    } else {
        (
            RasterState {
                bitmap_size: layout.bitmap_size as i32,
                header_size: layout.header_size as u32,
                ..s
            },
            RasterActionModel::QueryIconInfo { icon },
        )
    }
}

/// The state that follows `s` on the event `e`, and the action to take.
pub open spec fn raster_next(s: RasterState, e: RasterEventModel) -> (RasterState, RasterActionModel) {
    match (s.phase, e) {
        (RasterPhase::AwaitIconInfo, RasterEventModel::IconInfo { succeeded, mask, color, os_code }) => {
            if succeeded {
                (
                    RasterState { phase: RasterPhase::AwaitBitmap, mask, color, ..s },
                    RasterActionModel::DescribeBitmap { bitmap: color, size: s.bitmap_size },
                )
            } else {
                finish(s, e, Err(IconError::IconInfoFailed { os_code }))
            }
        },
        (RasterPhase::AwaitBitmap, RasterEventModel::BitmapDescribed { written, width, height }) => {
            match dimensions_of(s.bitmap_size, written, width, height) {
                Ok((w, h)) => (
                    RasterState { phase: RasterPhase::AwaitDeviceContext, width: w, height: h, ..s },
                    RasterActionModel::AcquireDeviceContext,
                ),
                Err(err) => finish(s, e, Err(err)),
            }
        },
        (RasterPhase::AwaitDeviceContext, RasterEventModel::DeviceContext { dc }) => {
            if dc == 0 {
                finish(s, e, Err(IconError::NoDeviceContext))
            } else {
                (
                    RasterState { phase: RasterPhase::AwaitBits, dc, ..s },
                    RasterActionModel::CopyBits {
                        dc,
                        bitmap: s.color,
                        rows: s.height,
                        cells: (s.width * s.height) as usize,
                        header: top_down_header(s.header_size, s.width, s.height),
                    },
                )
            }
        },
        (RasterPhase::AwaitBits, RasterEventModel::BitsCopied { rows, os_code, cells }) => finish(
            s,
            e,
            image_of(s.width, s.height, rows, os_code, cells),
        ),
        _ => finish(s, e, Err(IconError::UnexpectedEvent)),
    }
}

/// What holds of every state that the rasterizer reaches: once the bitmap is
/// described its dimensions are positive and in range, and a finished
/// machine owns nothing.
pub open spec fn consistent(s: RasterState) -> bool {
    &&& (s.phase == RasterPhase::AwaitDeviceContext || s.phase == RasterPhase::AwaitBits) ==> {
        &&& 0 < s.width <= i32::MAX
        &&& 0 < s.height <= i32::MAX
        &&& 4 * (s.width * s.height) <= usize::MAX
    }
    &&& s.phase == RasterPhase::AwaitDeviceContext ==> s.dc == 0
    &&& s.phase == RasterPhase::AwaitIconInfo ==> s.dc == 0 && s.mask == 0 && s.color == 0
    &&& s.phase == RasterPhase::AwaitBitmap ==> s.dc == 0
    &&& s.phase == RasterPhase::Finished ==> s.dc == 0 && s.icon == 0 && s.mask == 0 && s.color
        == 0
}

/// The product of two dimensions of 32 bits fits 64.
proof fn lemma_area_bound(width: u32, height: u32)
    ensures
        0 <= (width as int) * (height as int) <= 0xffff_ffff * 0xffff_ffff,
{
    assert(0 <= (width as int) * (height as int) <= 0xffff_ffff * 0xffff_ffff) by (nonlinear_arith)
        requires
            0 <= width <= 0xffff_ffff,
            0 <= height <= 0xffff_ffff,
    ;
}

/// Decides from the description of a bitmap which image to ask for.
/// `expected` is the size of the describing structure, `written` the number
/// of bytes that the system wrote to it.
pub fn plan_dimensions(expected: i32, written: i32, width: i32, height: i32) -> (r: Result<
    (u32, u32),
    IconError,
>)
    ensures
        r == dimensions_of(expected, written, width, height),
{
    if written != expected {
        return Err(IconError::BitmapLayoutMismatch { expected, got: written });
    }
    if width == i32::MIN || height == i32::MIN {
        return Err(IconError::DimensionOutOfRange);
    }
    if width == 0 || height == 0 {
        return Err(IconError::DegenerateDimensions);
    }
    let w: u32 = if width < 0 {
        (-width) as u32
    } else {
        width as u32
    };
    let h: u32 = if height < 0 {
        (-height) as u32
    } else {
        height as u32
    };
    proof {
        lemma_area_bound(w, h);
    }
    let bytes: u128 = 4 * ((w as u128) * (h as u128));
    if bytes > usize::MAX as u128 {
        return Err(IconError::PixelCountOverflow);
    }
    Ok((w, h))
}

/// Makes the image from the buffer that a copy of the pixels filled.
/// `width` and `height` are the dimensions that were asked for, `rows` the
/// number of rows that the system says it copied, `cells` the buffer, one
/// cell for each pixel, blue in its least significant byte.
pub fn finish_image(width: u32, height: u32, rows: i32, os_code: u32, cells: Vec<u32>) -> (r: Result<
    RgbaImage,
    IconError,
>)
    ensures
        match r {
            Ok(image) => image_of(width, height, rows, os_code, cells@) == Ok::<
                ImageModel,
                IconError,
            >(image@),
            Err(e) => image_of(width, height, rows, os_code, cells@) == Err::<ImageModel, IconError>(
                e,
            ),
        },
{
    if rows == 0 {
        return Err(IconError::CopyFailed { os_code });
    }
    if rows as i64 != height as i64 {
        return Err(IconError::RowCountMismatch { asked: height, copied: rows });
    }
    proof {
        lemma_area_bound(width, height);
    }
    let area: u128 = (width as u128) * (height as u128);
    if cells.len() as u128 != area {
        return Err(IconError::BufferSizeMismatch);
    }
    let pixels = cells_to_rgba(cells.as_slice());
    assert(4 * width * height == 4 * ((width as int) * (height as int))) by (nonlinear_arith);
    Ok(RgbaImage::from_fitting(width, height, pixels))
}

/// The rasterizer of one icon.
#[derive(Debug)]
pub struct Rasterizer {
    phase: RasterPhase,
    icon: HandleGuard,
    mask: HandleGuard,
    color: HandleGuard,
    dc: HandleGuard,
    bitmap_size: i32,
    header_size: u32,
    width: u32,
    height: u32,
}

impl View for Rasterizer {
    type V = RasterState;

    closed spec fn view(&self) -> RasterState {
        RasterState {
            phase: self.phase,
            icon: self.icon@.raw,
            mask: self.mask@.raw,
            color: self.color@.raw,
            dc: self.dc@.raw,
            bitmap_size: self.bitmap_size,
            header_size: self.header_size,
            width: self.width,
            height: self.height,
        }
    }
}

impl Rasterizer {
    #[verifier::type_invariant]
    spec fn valid(self) -> bool {
        &&& self.icon@.kind == HandleKind::Icon
        &&& self.mask@.kind == HandleKind::Bitmap
        &&& self.color@.kind == HandleKind::Bitmap
        &&& self.dc@.kind == HandleKind::DeviceContext
        &&& consistent(self@)
    }

    /// Takes ownership of `icon` and says how to begin. `layout` gives the
    /// sizes of the native structures on this platform.
    pub fn start(icon: usize, layout: NativeLayout) -> (r: (Rasterizer, RasterAction))
        ensures
            (r.0@, r.1@) == raster_start(icon, layout),
            consistent(r.0@),
    {
        let guard = HandleGuard::new(HandleKind::Icon, icon);
        if layout.bitmap_size > i32::MAX as usize || layout.header_size > u32::MAX as usize {
            let machine = Rasterizer {
                phase: RasterPhase::Finished,
                icon: HandleGuard::empty(HandleKind::Icon),
                mask: HandleGuard::empty(HandleKind::Bitmap),
                color: HandleGuard::empty(HandleKind::Bitmap),
                dc: HandleGuard::empty(HandleKind::DeviceContext),
                bitmap_size: 0,
                header_size: 0,
                width: 0,
                height: 0,
            };
            let guards = vec![
                HandleGuard::empty(HandleKind::DeviceContext),
                guard,
                HandleGuard::empty(HandleKind::Bitmap),
                HandleGuard::empty(HandleKind::Bitmap),
            ];
            assert(guarded_by(guards@) =~= held(raster_initial(icon)));
            let release = release_all(guards);
            (machine, RasterAction::Finish { outcome: Err(IconError::LayoutOutOfRange), release })
        } else {
            let machine = Rasterizer {
                phase: RasterPhase::AwaitIconInfo,
                icon: guard,
                mask: HandleGuard::empty(HandleKind::Bitmap),
                color: HandleGuard::empty(HandleKind::Bitmap),
                dc: HandleGuard::empty(HandleKind::DeviceContext),
                bitmap_size: layout.bitmap_size as i32,
                header_size: layout.header_size as u32,
                width: 0,
                height: 0,
            };
            (machine, RasterAction::QueryIconInfo { icon })
        }
    }

    /// Ends the work: releases what the machine owns, then what the last
    /// event brought, and gives `outcome`.
    fn conclude(self, brought: Vec<HandleGuard>, outcome: Result<RgbaImage, IconError>) -> (r: (
        Rasterizer,
        RasterAction,
    ))
        ensures
            r.0@ == (RasterState {
                phase: RasterPhase::Finished,
                icon: 0,
                mask: 0,
                color: 0,
                dc: 0,
                ..self@
            }),
            r.1@ == (RasterActionModel::Finish {
                outcome: match outcome {
                    Ok(image) => Ok(image@),
                    Err(e) => Err(e),
                },
                release: releases_of(held(self@) + guarded_by(brought@)),
            }),
            consistent(r.0@),
    {
        proof {
            use_type_invariant(&self);
        }
        let Rasterizer { phase: _, icon, mask, color, dc, bitmap_size, header_size, width, height } =
            self;
        let mut brought = brought;
        let mut guards = vec![dc, icon, color, mask];
        assert(guarded_by(guards@) =~= held(self@));
        let ghost first = guards@;
        let ghost second = brought@;
        guards.append(&mut brought);
        assert(guarded_by(guards@) =~= guarded_by(first) + guarded_by(second));
        let release = release_all(guards);
        let machine = Rasterizer {
            phase: RasterPhase::Finished,
            icon: HandleGuard::empty(HandleKind::Icon),
            mask: HandleGuard::empty(HandleKind::Bitmap),
            color: HandleGuard::empty(HandleKind::Bitmap),
            dc: HandleGuard::empty(HandleKind::DeviceContext),
            bitmap_size,
            header_size,
            width,
            height,
        };
        (machine, RasterAction::Finish { outcome, release })
    }

    /// Takes the result of the operation that the last action asked for, and
    /// says what to do next. An event that the machine does not wait for
    /// ends the work.
    pub fn step(self, event: RasterEvent) -> (r: (Rasterizer, RasterAction))
        ensures
            (r.0@, r.1@) == raster_next(self@, event@),
            consistent(r.0@),
            r.1 matches RasterAction::Finish { outcome: Ok(image), .. } ==> {
                &&& image@.well_formed()
                &&& image@.width > 0
                &&& image@.height > 0
            },
    {
        proof {
            use_type_invariant(&self);
        }
        let ghost e = event@;
        match event {
            RasterEvent::IconInfo { succeeded, mask, color, os_code } => {
                if !succeeded {
                    assert(guarded_by(Seq::<HandleGuard>::empty()) =~= carried(e));
                    if self.phase == RasterPhase::AwaitIconInfo {
                        self.conclude(Vec::new(), Err(IconError::IconInfoFailed { os_code }))
                    } else {
                        self.conclude(Vec::new(), Err(IconError::UnexpectedEvent))
                    }
                } else if self.phase == RasterPhase::AwaitIconInfo {
                    let machine = Rasterizer {
                        phase: RasterPhase::AwaitBitmap,
                        icon: self.icon,
                        mask: HandleGuard::new(HandleKind::Bitmap, mask),
                        color: HandleGuard::new(HandleKind::Bitmap, color),
                        dc: self.dc,
                        bitmap_size: self.bitmap_size,
                        header_size: self.header_size,
                        width: self.width,
                        height: self.height,
                    };
                    let size: i32 = machine.bitmap_size;
                    (machine, RasterAction::DescribeBitmap { bitmap: color, size })
                } else {
                    let brought = vec![
                        HandleGuard::new(HandleKind::Bitmap, color),
                        HandleGuard::new(HandleKind::Bitmap, mask),
                    ];
                    assert(guarded_by(brought@) =~= carried(e));
                    self.conclude(brought, Err(IconError::UnexpectedEvent))
                }
            },
            RasterEvent::BitmapDescribed { written, width, height } => {
                assert(guarded_by(Seq::<HandleGuard>::empty()) =~= carried(e));
                if self.phase == RasterPhase::AwaitBitmap {
                    match plan_dimensions(self.bitmap_size, written, width, height) {
                        Ok((w, h)) => {
                            let machine = Rasterizer {
                                phase: RasterPhase::AwaitDeviceContext,
                                icon: self.icon,
                                mask: self.mask,
                                color: self.color,
                                dc: self.dc,
                                bitmap_size: self.bitmap_size,
                                header_size: self.header_size,
                                width: w,
                                height: h,
                            };
                            (machine, RasterAction::AcquireDeviceContext)
                        },
                        Err(err) => self.conclude(Vec::new(), Err(err)),
                    }
                } else {
                    self.conclude(Vec::new(), Err(IconError::UnexpectedEvent))
                }
            },
            RasterEvent::DeviceContext { dc } => {
                if self.phase == RasterPhase::AwaitDeviceContext && dc != 0 {
                    proof {
                        lemma_area_bound(self.width, self.height);
                    }
                    let bitmap: usize = self.color.raw();
                    let rows: u32 = self.height;
                    let cells: usize = (self.width as u64 * self.height as u64) as usize;
                    let header = DibHeader {
                        size: self.header_size,
                        width: self.width as i32,
                        height: -(self.height as i32),
                        planes: 1,
                        bit_count: 32,
                        compression: 0,
                    };
                    let machine = Rasterizer {
                        phase: RasterPhase::AwaitBits,
                        icon: self.icon,
                        mask: self.mask,
                        color: self.color,
                        dc: HandleGuard::new(HandleKind::DeviceContext, dc),
                        bitmap_size: self.bitmap_size,
                        header_size: self.header_size,
                        width: self.width,
                        height: self.height,
                    };
                    (machine, RasterAction::CopyBits { dc, bitmap, rows, cells, header })
                } else {
                    let brought = vec![HandleGuard::new(HandleKind::DeviceContext, dc)];
                    assert(guarded_by(brought@) =~= carried(e));
                    if self.phase == RasterPhase::AwaitDeviceContext {
                        self.conclude(brought, Err(IconError::NoDeviceContext))
                    } else {
                        self.conclude(brought, Err(IconError::UnexpectedEvent))
                    }
                }
            },
            RasterEvent::BitsCopied { rows, os_code, cells } => {
                assert(guarded_by(Seq::<HandleGuard>::empty()) =~= carried(e));
                if self.phase == RasterPhase::AwaitBits {
                    let outcome = finish_image(self.width, self.height, rows, os_code, cells);
                    proof {
                        assert(4 * (self.width * self.height) == 4 * self.width * self.height)
                            by (nonlinear_arith);
                    }
                    self.conclude(Vec::new(), outcome)
                } else {
                    self.conclude(Vec::new(), Err(IconError::UnexpectedEvent))
                }
            },
        }
    }
}

/// The handles that an action tells the caller to release.
pub open spec fn released_by(a: RasterActionModel) -> Seq<NativeHandle> {
    match a {
        RasterActionModel::Finish { release, .. } => release,
        _ => Seq::empty(),
    }
}

/// The state that the rasterizer is in after the events of `events`, taken
/// one after the other from the state `s`.
pub open spec fn raster_run(s: RasterState, events: Seq<RasterEventModel>) -> RasterState
    decreases events.len(),
{
    if events.len() == 0 {
        s
    } else {
        raster_next(raster_run(s, events.drop_last()), events.last()).0
    }
}

/// The handles that the rasterizer tells the caller to release while it
/// takes the events of `events` from the state `s`.
pub open spec fn raster_released(s: RasterState, events: Seq<RasterEventModel>) -> Seq<NativeHandle>
    decreases events.len(),
{
    if events.len() == 0 {
        Seq::empty()
    } else {
        raster_released(s, events.drop_last()) + released_by(
            raster_next(raster_run(s, events.drop_last()), events.last()).1,
        )
    }
}

/// The handles that the events of `events` bring.
pub open spec fn raster_brought(events: Seq<RasterEventModel>) -> Seq<NativeHandle>
    decreases events.len(),
{
    if events.len() == 0 {
        Seq::empty()
    } else {
        raster_brought(events.drop_last()) + carried(events.last())
    }
}

proof fn lemma_releases_of_nulls(kinds: Seq<NativeHandle>)
    requires
        forall|i: int| 0 <= i < kinds.len() ==> kinds[i].is_null(),
    ensures
        releases_of(kinds) == Seq::<NativeHandle>::empty(),
    decreases kinds.len(),
{
    reveal(Seq::filter);
    if kinds.len() > 0 {
        lemma_releases_of_nulls(kinds.drop_last());
    }
}

/// The rasterizer starts in a consistent state.
pub proof fn lemma_raster_start_consistent(icon: usize, layout: NativeLayout)
    ensures
        consistent(raster_start(icon, layout).0),
{
}

/// A step keeps the state consistent.
pub proof fn lemma_raster_next_consistent(s: RasterState, e: RasterEventModel)
    requires
        consistent(s),
    ensures
        consistent(raster_next(s, e).0),
{
}

/// Every image that the rasterizer gives has exactly four bytes for each of
/// its pixels, and has pixels: its width and its height are positive.
pub proof fn lemma_rasterized_image_is_whole(s: RasterState, e: RasterEventModel)
    requires
        consistent(s),
    ensures
        raster_next(s, e).1 matches RasterActionModel::Finish { outcome: Ok(image), .. } ==> {
            &&& image.pixels.len() == 4 * image.width * image.height
            &&& image.width > 0
            &&& image.height > 0
        },
{
    if let RasterActionModel::Finish { outcome: Ok(image), .. } = raster_next(s, e).1 {
        assert(4 * (s.width * s.height) == 4 * s.width * s.height) by (nonlinear_arith);
    }
}

/// Every failure ends the work: an action that gives a failure is the last
/// one, and after it the rasterizer owns nothing.
pub proof fn lemma_raster_failure_finishes(s: RasterState, e: RasterEventModel)
    ensures
        raster_next(s, e).1 is Finish ==> {
            &&& raster_next(s, e).0.phase == RasterPhase::Finished
            &&& releases_of(held(raster_next(s, e).0)) == Seq::<NativeHandle>::empty()
            &&& raster_next(s, e).1->release == releases_of(held(s) + carried(e))
        },
        raster_next(s, e).1 !is Finish ==> raster_next(s, e).0.phase != RasterPhase::Finished,
{
    if raster_next(s, e).1 is Finish {
        lemma_releases_of_nulls(held(raster_next(s, e).0));
    }
}

/// In one step, what is released and what stays owned is, counted with
/// multiplicity, what was owned and what the event brought.
pub proof fn lemma_raster_step_balance(s: RasterState, e: RasterEventModel)
    requires
        consistent(s),
    ensures
        released_by(raster_next(s, e).1).to_multiset().add(
            releases_of(held(raster_next(s, e).0)).to_multiset(),
        ) == releases_of(held(s)).to_multiset().add(releases_of(carried(e)).to_multiset()),
{
    let (t, a) = raster_next(s, e);
    let nothing = Seq::<NativeHandle>::empty();
    lemma_releases_of_nulls(nothing);
    vstd::seq_lib::lemma_multiset_commutative(releases_of(held(s)), releases_of(carried(e)));
    lemma_releases_add(held(s), carried(e));
    if a is Finish {
        lemma_releases_of_nulls(held(t));
        assert(released_by(a) + nothing =~= released_by(a));
        assert(released_by(a).to_multiset().add(nothing.to_multiset()) =~= released_by(
            a,
        ).to_multiset()) by {
            vstd::seq_lib::lemma_multiset_commutative(released_by(a), nothing);
        }
    } else {
        assert(releases_of(held(t)) == releases_of(held(s)) + releases_of(carried(e))
            || releases_of(held(t)) == releases_of(carried(e)) + releases_of(held(s))) by {
            lemma_raster_accept_keeps(s, e);
        }
        vstd::seq_lib::lemma_multiset_commutative(releases_of(carried(e)), releases_of(held(s)));
        assert(nothing.to_multiset().add(releases_of(held(t)).to_multiset()) =~= releases_of(
            held(t),
        ).to_multiset()) by {
            vstd::seq_lib::lemma_multiset_commutative(nothing, releases_of(held(t)));
            assert(nothing + releases_of(held(t)) =~= releases_of(held(t)));
        }
        assert(releases_of(carried(e)).to_multiset().add(releases_of(held(s)).to_multiset())
            =~= releases_of(held(s)).to_multiset().add(releases_of(carried(e)).to_multiset()));
    }
}

proof fn lemma_raster_accept_keeps(s: RasterState, e: RasterEventModel)
    requires
        consistent(s),
        raster_next(s, e).1 !is Finish,
    ensures
        releases_of(held(raster_next(s, e).0)) == releases_of(held(s)) + releases_of(carried(e))
            || releases_of(held(raster_next(s, e).0)) == releases_of(carried(e)) + releases_of(
            held(s),
        ),
{
    let t = raster_next(s, e).0;
    let nothing = Seq::<NativeHandle>::empty();
    lemma_releases_of_nulls(nothing);
    let dc_s = seq![NativeHandle { kind: HandleKind::DeviceContext, raw: s.dc }];
    let icon_s = seq![NativeHandle { kind: HandleKind::Icon, raw: s.icon }];
    let maps_s = seq![
        NativeHandle { kind: HandleKind::Bitmap, raw: s.color },
        NativeHandle { kind: HandleKind::Bitmap, raw: s.mask },
    ];
    let dc_t = seq![NativeHandle { kind: HandleKind::DeviceContext, raw: t.dc }];
    let maps_t = seq![
        NativeHandle { kind: HandleKind::Bitmap, raw: t.color },
        NativeHandle { kind: HandleKind::Bitmap, raw: t.mask },
    ];
    assert(held(s) =~= dc_s + icon_s + maps_s);
    assert(held(t) =~= dc_t + icon_s + maps_t);
    lemma_releases_add(dc_s + icon_s, maps_s);
    lemma_releases_add(dc_s, icon_s);
    lemma_releases_add(dc_t + icon_s, maps_t);
    lemma_releases_add(dc_t, icon_s);
    match e {
        RasterEventModel::IconInfo { .. } => {
            lemma_releases_of_nulls(maps_s);
            assert(maps_t =~= carried(e));
            assert(releases_of(held(s)) + releases_of(carried(e)) =~= releases_of(held(t)));
        },
        RasterEventModel::BitmapDescribed { .. } => {
            assert(releases_of(held(s)) + nothing =~= releases_of(held(s)));
        },
        RasterEventModel::DeviceContext { .. } => {
            lemma_releases_of_nulls(dc_s);
            assert(dc_t =~= carried(e));
            assert(releases_of(carried(e)) + releases_of(held(s)) =~= releases_of(held(t)));
        },
        RasterEventModel::BitsCopied { .. } => {},
    }
}

/// Over any run from a consistent state, what was released and what is still
/// owned is, counted with multiplicity, what was owned at first and what the
/// events brought.
pub proof fn lemma_raster_run_balance(s: RasterState, events: Seq<RasterEventModel>)
    requires
        consistent(s),
    ensures
        consistent(raster_run(s, events)),
        raster_released(s, events).to_multiset().add(
            releases_of(held(raster_run(s, events))).to_multiset(),
        ) == releases_of(held(s)).to_multiset().add(
            releases_of(raster_brought(events)).to_multiset(),
        ),
    decreases events.len(),
{
    let nothing = Seq::<NativeHandle>::empty();
    lemma_releases_of_nulls(nothing);
    if events.len() == 0 {
        assert(nothing.to_multiset().add(releases_of(held(s)).to_multiset()) =~= releases_of(
            held(s),
        ).to_multiset().add(nothing.to_multiset()));
    } else {
        let before = events.drop_last();
        let e = events.last();
        let mid = raster_run(s, before);
        lemma_raster_run_balance(s, before);
        lemma_raster_step_balance(mid, e);
        let (t, a) = raster_next(mid, e);
        lemma_releases_add(raster_brought(before), carried(e));
        vstd::seq_lib::lemma_multiset_commutative(raster_released(s, before), released_by(a));
        vstd::seq_lib::lemma_multiset_commutative(
            releases_of(raster_brought(before)),
            releases_of(carried(e)),
        );
        let r0 = raster_released(s, before).to_multiset();
        let r1 = released_by(a).to_multiset();
        let h0 = releases_of(held(s)).to_multiset();
        let hm = releases_of(held(mid)).to_multiset();
        let ht = releases_of(held(t)).to_multiset();
        let b0 = releases_of(raster_brought(before)).to_multiset();
        let b1 = releases_of(carried(e)).to_multiset();
        assert(r0.add(hm) == h0.add(b0));
        assert(r1.add(ht) == hm.add(b1));
        assert(r0.add(r1).add(ht) =~= r0.add(r1.add(ht)));
        assert(r0.add(hm.add(b1)) =~= r0.add(hm).add(b1));
        assert(h0.add(b0).add(b1) =~= h0.add(b0.add(b1)));
    }
}

/// Whatever the events are, failures among them or not: once the rasterizer
/// has finished, the handles that it told the caller to release are the icon
/// and the handles that the events brought, each non-null one as often as it
/// was brought, and none else.
pub proof fn lemma_raster_releases_everything(
    icon: usize,
    layout: NativeLayout,
    events: Seq<RasterEventModel>,
)
    ensures
        ({
            let (s, first) = raster_start(icon, layout);
            raster_run(s, events).phase == RasterPhase::Finished ==> (released_by(first)
                + raster_released(s, events)).to_multiset() == releases_of(
                seq![NativeHandle { kind: HandleKind::Icon, raw: icon }] + raster_brought(events),
            ).to_multiset()
        }),
{
    let (s, first) = raster_start(icon, layout);
    let own = seq![NativeHandle { kind: HandleKind::Icon, raw: icon }];
    let nothing = Seq::<NativeHandle>::empty();
    lemma_releases_of_nulls(nothing);
    lemma_raster_run_balance(s, events);
    let t = raster_run(s, events);
    if t.phase == RasterPhase::Finished {
        lemma_releases_of_nulls(held(t));
        let dc0 = seq![NativeHandle { kind: HandleKind::DeviceContext, raw: 0 }];
        let maps0 = seq![
            NativeHandle { kind: HandleKind::Bitmap, raw: 0 },
            NativeHandle { kind: HandleKind::Bitmap, raw: 0 },
        ];
        lemma_releases_of_nulls(dc0);
        lemma_releases_of_nulls(maps0);
        assert(held(raster_initial(icon)) =~= dc0 + own + maps0);
        lemma_releases_add(dc0 + own, maps0);
        lemma_releases_add(dc0, own);
        assert(releases_of(held(raster_initial(icon))) =~= releases_of(own));
        // What the first action releases and what the first state owns is the icon.
        assert(released_by(first) + releases_of(held(s)) =~= releases_of(own)) by {
            if first is Finish {
                lemma_releases_of_nulls(held(s));
            } else {
                assert(held(s) =~= held(raster_initial(icon)));
            }
        }
        lemma_releases_add(own, raster_brought(events));
        vstd::seq_lib::lemma_multiset_commutative(released_by(first), raster_released(s, events));
        vstd::seq_lib::lemma_multiset_commutative(released_by(first), releases_of(held(s)));
        vstd::seq_lib::lemma_multiset_commutative(
            releases_of(own),
            releases_of(raster_brought(events)),
        );
        let f = released_by(first).to_multiset();
        let r = raster_released(s, events).to_multiset();
        let h = releases_of(held(s)).to_multiset();
        let b = releases_of(raster_brought(events)).to_multiset();
        let z = nothing.to_multiset();
        assert(r.add(z) == h.add(b));
        assert(r.add(z) =~= r) by {
            vstd::seq_lib::lemma_multiset_commutative(raster_released(s, events), nothing);
            assert(raster_released(s, events) + nothing =~= raster_released(s, events));
        }
        assert(f.add(h.add(b)) =~= f.add(h).add(b));
    }
}

/// Every image that a rasterizer gives, whatever the events were that it was
/// started on and driven with, has exactly four bytes for each of its
/// pixels, and a positive width and height.
pub proof fn lemma_every_rasterized_image_is_whole(
    icon: usize,
    layout: NativeLayout,
    events: Seq<RasterEventModel>,
    e: RasterEventModel,
)
    ensures
        raster_next(raster_run(raster_start(icon, layout).0, events), e).1 matches RasterActionModel::Finish {
            outcome: Ok(image),
            ..
        } ==> {
            &&& image.pixels.len() == 4 * image.width * image.height
            &&& image.width > 0
            &&& image.height > 0
        },
{
    lemma_raster_run_balance(raster_start(icon, layout).0, events);
    lemma_rasterized_image_is_whole(raster_run(raster_start(icon, layout).0, events), e);
}

/// Once the device context is there, whatever comes next ends the work, and
/// the last action releases the device context, the icon and both bitmaps:
/// each of them that is not null, before anything that the event brought.
pub proof fn lemma_after_device_context_all_are_released(s: RasterState, e: RasterEventModel)
    requires
        s.phase == RasterPhase::AwaitBits,
    ensures
        raster_next(s, e).1 is Finish,
        raster_next(s, e).1->release == releases_of(
            seq![
                NativeHandle { kind: HandleKind::DeviceContext, raw: s.dc },
                NativeHandle { kind: HandleKind::Icon, raw: s.icon },
                NativeHandle { kind: HandleKind::Bitmap, raw: s.color },
                NativeHandle { kind: HandleKind::Bitmap, raw: s.mask },
            ],
        ) + releases_of(carried(e)),
{
    lemma_releases_add(held(s), carried(e));
}

} // verus!
