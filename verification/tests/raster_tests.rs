use windows_icons::error::{ErrorKind, IconError};
use windows_icons::handles::{HandleKind, NativeHandle};
use windows_icons::raster::{
    finish_image, plan_dimensions, DibHeader, NativeLayout, RasterAction, RasterEvent, Rasterizer,
};

const ICON: usize = 0x1000;
const MASK: usize = 0x2000;
const COLOR: usize = 0x3000;
const DC: usize = 0x4000;

fn layout() -> NativeLayout {
    NativeLayout { bitmap_size: 32, header_size: 40 }
}

fn handle(kind: HandleKind, raw: usize) -> NativeHandle {
    NativeHandle { kind, raw }
}

fn all_four() -> Vec<NativeHandle> {
    vec![
        handle(HandleKind::DeviceContext, DC),
        handle(HandleKind::Icon, ICON),
        handle(HandleKind::Bitmap, COLOR),
        handle(HandleKind::Bitmap, MASK),
    ]
}

/// Drives a rasterizer up to the request for the pixels of a bitmap that
/// reports `width` by `height`.
fn until_copy(width: i32, height: i32) -> (Rasterizer, RasterAction) {
    let (machine, _) = Rasterizer::start(ICON, layout());
    let (machine, _) =
        machine.step(RasterEvent::IconInfo { succeeded: true, mask: MASK, color: COLOR, os_code: 0 });
    let (machine, _) = machine.step(RasterEvent::BitmapDescribed { written: 32, width, height });
    machine.step(RasterEvent::DeviceContext { dc: DC })
}

fn expect_failure(action: RasterAction, error: IconError, released: Vec<NativeHandle>) {
    match action {
        RasterAction::Finish { outcome, release } => {
            assert_eq!(outcome.err(), Some(error));
            assert_eq!(release, released);
        }
        other => panic!("the rasterizer went on: {:?}", other),
    }
}

#[test]
fn the_rasterizer_begins_with_the_query_for_the_bitmaps() {
    let (_, action) = Rasterizer::start(ICON, layout());
    assert!(matches!(action, RasterAction::QueryIconInfo { icon: ICON }));
}

#[test]
fn the_rasterizer_asks_for_each_operation_in_turn() {
    let (machine, _) = Rasterizer::start(ICON, layout());
    let (machine, action) =
        machine.step(RasterEvent::IconInfo { succeeded: true, mask: MASK, color: COLOR, os_code: 0 });
    assert!(matches!(action, RasterAction::DescribeBitmap { bitmap: COLOR, size: 32 }));
    let (machine, action) =
        machine.step(RasterEvent::BitmapDescribed { written: 32, width: 3, height: 2 });
    assert!(matches!(action, RasterAction::AcquireDeviceContext));
    let (_, action) = machine.step(RasterEvent::DeviceContext { dc: DC });
    match action {
        RasterAction::CopyBits { dc, bitmap, rows, cells, header } => {
            assert_eq!(dc, DC);
            assert_eq!(bitmap, COLOR);
            assert_eq!(rows, 2);
            assert_eq!(cells, 6);
            assert_eq!(
                header,
                DibHeader { size: 40, width: 3, height: -2, planes: 1, bit_count: 32, compression: 0 }
            );
        }
        other => panic!("no copy was asked for: {:?}", other),
    }
}

#[test]
fn a_rasterized_icon_has_four_bytes_for_each_pixel() {
    let (machine, _) = until_copy(2, 2);
    let cells = vec![0xFF_11_22_33, 0x80_44_55_66, 0x00_77_88_99, 0x01_AA_BB_CC];
    let (_, action) = machine.step(RasterEvent::BitsCopied { rows: 2, os_code: 0, cells });
    match action {
        RasterAction::Finish { outcome, release } => {
            let image = outcome.unwrap();
            assert_eq!(image.width(), 2);
            assert_eq!(image.height(), 2);
            assert!(image.width() > 0 && image.height() > 0);
            assert_eq!(image.pixels().len(), 4 * 2 * 2);
            assert_eq!(
                image.into_raw(),
                vec![
                    0x11, 0x22, 0x33, 0xFF, 0x44, 0x55, 0x66, 0x80, 0x77, 0x88, 0x99, 0x00, 0xAA,
                    0xBB, 0xCC, 0x01
                ]
            );
            assert_eq!(release, all_four());
        }
        other => panic!("the rasterizer went on: {:?}", other),
    }
}

#[test]
fn a_bitmap_that_reports_a_negative_height_is_taken_by_its_magnitude() {
    let (machine, action) = until_copy(2, -3);
    match action {
        RasterAction::CopyBits { rows, cells, header, .. } => {
            assert_eq!(rows, 3);
            assert_eq!(cells, 6);
            assert_eq!(header.width, 2);
            assert_eq!(header.height, -3);
        }
        other => panic!("no copy was asked for: {:?}", other),
    }
    let (_, action) = machine.step(RasterEvent::BitsCopied { rows: 3, os_code: 0, cells: vec![0; 6] });
    match action {
        RasterAction::Finish { outcome, .. } => {
            let image = outcome.unwrap();
            assert_eq!((image.width(), image.height()), (2, 3));
        }
        other => panic!("the rasterizer went on: {:?}", other),
    }
}

#[test]
fn a_failure_after_the_device_context_releases_all_four_handles() {
    let (machine, _) = until_copy(4, 4);
    let (_, action) = machine.step(RasterEvent::BitsCopied { rows: 0, os_code: 87, cells: vec![0; 16] });
    expect_failure(action, IconError::CopyFailed { os_code: 87 }, all_four());
}

#[test]
fn a_wrong_number_of_rows_fails_and_releases_all_four_handles() {
    let (machine, _) = until_copy(4, 4);
    let (_, action) = machine.step(RasterEvent::BitsCopied { rows: 3, os_code: 0, cells: vec![0; 16] });
    expect_failure(action, IconError::RowCountMismatch { asked: 4, copied: 3 }, all_four());
}

#[test]
fn a_buffer_of_another_size_fails_and_releases_all_four_handles() {
    let (machine, _) = until_copy(4, 4);
    let (_, action) = machine.step(RasterEvent::BitsCopied { rows: 4, os_code: 0, cells: vec![0; 15] });
    expect_failure(action, IconError::BufferSizeMismatch, all_four());
}

#[test]
fn a_failed_query_for_the_bitmaps_releases_the_icon() {
    let (machine, _) = Rasterizer::start(ICON, layout());
    let (_, action) =
        machine.step(RasterEvent::IconInfo { succeeded: false, mask: 7, color: 9, os_code: 6 });
    expect_failure(
        action,
        IconError::IconInfoFailed { os_code: 6 },
        vec![handle(HandleKind::Icon, ICON)],
    );
}

#[test]
fn a_description_of_another_size_releases_the_icon_and_the_bitmaps() {
    let (machine, _) = Rasterizer::start(ICON, layout());
    let (machine, _) =
        machine.step(RasterEvent::IconInfo { succeeded: true, mask: MASK, color: COLOR, os_code: 0 });
    let (_, action) = machine.step(RasterEvent::BitmapDescribed { written: 24, width: 1, height: 1 });
    expect_failure(
        action,
        IconError::BitmapLayoutMismatch { expected: 32, got: 24 },
        vec![
            handle(HandleKind::Icon, ICON),
            handle(HandleKind::Bitmap, COLOR),
            handle(HandleKind::Bitmap, MASK),
        ],
    );
}

#[test]
fn a_null_device_context_fails_and_is_not_released() {
    let (machine, _) = Rasterizer::start(ICON, layout());
    let (machine, _) =
        machine.step(RasterEvent::IconInfo { succeeded: true, mask: MASK, color: COLOR, os_code: 0 });
    let (machine, _) = machine.step(RasterEvent::BitmapDescribed { written: 32, width: 1, height: 1 });
    let (_, action) = machine.step(RasterEvent::DeviceContext { dc: 0 });
    expect_failure(
        action,
        IconError::NoDeviceContext,
        vec![
            handle(HandleKind::Icon, ICON),
            handle(HandleKind::Bitmap, COLOR),
            handle(HandleKind::Bitmap, MASK),
        ],
    );
}

#[test]
fn null_bitmaps_are_guarded_and_not_released() {
    let (machine, _) = Rasterizer::start(ICON, layout());
    let (machine, _) =
        machine.step(RasterEvent::IconInfo { succeeded: true, mask: 0, color: COLOR, os_code: 0 });
    let (_, action) = machine.step(RasterEvent::BitmapDescribed { written: 0, width: 1, height: 1 });
    expect_failure(
        action,
        IconError::BitmapLayoutMismatch { expected: 32, got: 0 },
        vec![handle(HandleKind::Icon, ICON), handle(HandleKind::Bitmap, COLOR)],
    );
}

#[test]
fn a_null_icon_is_guarded_and_not_released() {
    let (machine, action) = Rasterizer::start(0, layout());
    assert!(matches!(action, RasterAction::QueryIconInfo { icon: 0 }));
    let (_, action) =
        machine.step(RasterEvent::IconInfo { succeeded: false, mask: 0, color: 0, os_code: 1402 });
    expect_failure(action, IconError::IconInfoFailed { os_code: 1402 }, vec![]);
}

#[test]
fn a_layout_that_does_not_fit_fails_at_once_and_releases_the_icon() {
    let (_, action) =
        Rasterizer::start(ICON, NativeLayout { bitmap_size: usize::MAX, header_size: 40 });
    expect_failure(action, IconError::LayoutOutOfRange, vec![handle(HandleKind::Icon, ICON)]);
}

#[test]
fn an_event_that_was_not_waited_for_ends_the_work_and_releases_what_it_brought() {
    let (machine, _) = Rasterizer::start(ICON, layout());
    let (machine, action) = machine.step(RasterEvent::DeviceContext { dc: DC });
    expect_failure(
        action,
        IconError::UnexpectedEvent,
        vec![handle(HandleKind::Icon, ICON), handle(HandleKind::DeviceContext, DC)],
    );
    let (_, action) =
        machine.step(RasterEvent::IconInfo { succeeded: true, mask: MASK, color: COLOR, os_code: 0 });
    expect_failure(
        action,
        IconError::UnexpectedEvent,
        vec![handle(HandleKind::Bitmap, COLOR), handle(HandleKind::Bitmap, MASK)],
    );
}

#[test]
fn a_finished_rasterizer_releases_nothing_twice() {
    let (machine, _) = until_copy(1, 1);
    let (machine, first) = machine.step(RasterEvent::BitsCopied { rows: 1, os_code: 0, cells: vec![0] });
    assert!(matches!(first, RasterAction::Finish { outcome: Ok(_), .. }));
    let (_, second) = machine.step(RasterEvent::BitsCopied { rows: 1, os_code: 0, cells: vec![0] });
    expect_failure(second, IconError::UnexpectedEvent, vec![]);
}

#[test]
fn dimensions_are_taken_by_their_magnitudes() {
    assert_eq!(plan_dimensions(32, 32, 16, 16), Ok((16, 16)));
    assert_eq!(plan_dimensions(32, 32, -16, 48), Ok((16, 48)));
    assert_eq!(plan_dimensions(32, 32, 256, -256), Ok((256, 256)));
    assert_eq!(plan_dimensions(24, 24, i32::MAX, 1), Ok((i32::MAX as u32, 1)));
}

#[test]
fn degenerate_dimensions_are_refused() {
    assert_eq!(plan_dimensions(32, 32, 0, 16), Err(IconError::DegenerateDimensions));
    assert_eq!(plan_dimensions(32, 32, 16, 0), Err(IconError::DegenerateDimensions));
    assert_eq!(plan_dimensions(32, 32, 0, 0), Err(IconError::DegenerateDimensions));
}

#[test]
fn dimensions_out_of_range_are_refused() {
    assert_eq!(plan_dimensions(32, 32, i32::MIN, 16), Err(IconError::DimensionOutOfRange));
    assert_eq!(plan_dimensions(32, 32, 16, i32::MIN), Err(IconError::DimensionOutOfRange));
    assert_eq!(plan_dimensions(32, 32, i32::MIN, 0), Err(IconError::DimensionOutOfRange));
}

#[test]
fn a_description_of_another_size_is_refused_first() {
    assert_eq!(
        plan_dimensions(32, 31, 0, i32::MIN),
        Err(IconError::BitmapLayoutMismatch { expected: 32, got: 31 })
    );
}

#[test]
fn a_number_of_bytes_that_does_not_fit_is_refused() {
    let fits = (usize::MAX as u128) >= 4 * (i32::MAX as u128) * (i32::MAX as u128);
    let expected = if fits {
        Ok((i32::MAX as u32, i32::MAX as u32))
    } else {
        Err(IconError::PixelCountOverflow)
    };
    assert_eq!(plan_dimensions(32, 32, i32::MAX, i32::MAX), expected);
}

#[test]
fn a_copy_is_made_into_an_image() {
    let image = finish_image(1, 2, 2, 0, vec![0x04_03_02_01, 0x08_07_06_05]).unwrap();
    assert_eq!((image.width(), image.height()), (1, 2));
    assert_eq!(image.into_raw(), vec![3, 2, 1, 4, 7, 6, 5, 8]);
}

#[test]
fn a_copy_that_failed_gives_the_code_of_the_system() {
    assert_eq!(finish_image(1, 1, 0, 5, vec![0]).err(), Some(IconError::CopyFailed { os_code: 5 }));
    assert_eq!(
        finish_image(1, 1, -1, 5, vec![0]).err(),
        Some(IconError::RowCountMismatch { asked: 1, copied: -1 })
    );
    assert_eq!(
        finish_image(1, u32::MAX, 1, 0, vec![0]).err(),
        Some(IconError::RowCountMismatch { asked: u32::MAX, copied: 1 })
    );
    assert_eq!(finish_image(2, 1, 1, 0, vec![0]).err(), Some(IconError::BufferSizeMismatch));
}

#[test]
fn failures_of_the_rasterizer_have_their_kinds() {
    assert_eq!(IconError::NoDeviceContext.kind(), ErrorKind::InvalidHandle);
    assert_eq!(IconError::CopyFailed { os_code: 1 }.kind(), ErrorKind::OsCallFailed);
    assert_eq!(IconError::RowCountMismatch { asked: 1, copied: 2 }.kind(), ErrorKind::OsCallFailed);
    assert_eq!(IconError::BitmapLayoutMismatch { expected: 1, got: 2 }.kind(), ErrorKind::OsCallFailed);
    assert_eq!(IconError::IconInfoFailed { os_code: 1 }.kind(), ErrorKind::OsCallFailed);
    assert_eq!(IconError::PixelCountOverflow.kind(), ErrorKind::Overflow);
    assert_eq!(IconError::DimensionOutOfRange.kind(), ErrorKind::Overflow);
    assert_eq!(IconError::LayoutOutOfRange.kind(), ErrorKind::Overflow);
    assert_eq!(IconError::DegenerateDimensions.kind(), ErrorKind::MalformedInput);
    assert_eq!(IconError::BufferSizeMismatch.kind(), ErrorKind::MalformedInput);
    assert_eq!(IconError::UnexpectedEvent.kind(), ErrorKind::MalformedInput);
}

fn sample_event(which: usize) -> RasterEvent {
    match which {
        0 => RasterEvent::IconInfo { succeeded: true, mask: MASK, color: COLOR, os_code: 0 },
        1 => RasterEvent::IconInfo { succeeded: false, mask: 0x77, color: 0x78, os_code: 5 },
        2 => RasterEvent::IconInfo { succeeded: true, mask: 0, color: COLOR + 1, os_code: 0 },
        3 => RasterEvent::BitmapDescribed { written: 32, width: 1, height: -2 },
        4 => RasterEvent::BitmapDescribed { written: 32, width: 0, height: 2 },
        5 => RasterEvent::DeviceContext { dc: DC },
        6 => RasterEvent::DeviceContext { dc: 0 },
        7 => RasterEvent::BitsCopied { rows: 2, os_code: 0, cells: vec![1, 2] },
        _ => RasterEvent::BitsCopied { rows: 0, os_code: 8, cells: vec![] },
    }
}

fn brought_by(which: usize) -> Vec<NativeHandle> {
    match which {
        0 => vec![handle(HandleKind::Bitmap, COLOR), handle(HandleKind::Bitmap, MASK)],
        2 => vec![handle(HandleKind::Bitmap, COLOR + 1)],
        5 => vec![handle(HandleKind::DeviceContext, DC)],
        _ => vec![],
    }
}

fn sorted(mut handles: Vec<NativeHandle>) -> Vec<(usize, usize)> {
    let mut keys: Vec<(usize, usize)> = handles
        .drain(..)
        .map(|h| {
            let kind = match h.kind {
                HandleKind::Module => 0,
                HandleKind::DeviceContext => 1,
                HandleKind::Bitmap => 2,
                HandleKind::Icon => 3,
            };
            (kind, h.raw)
        })
        .collect();
    keys.sort();
    keys
}

#[test]
fn whatever_the_events_every_handle_is_released_once() {
    let kinds = 9usize;
    let length = 5u32;
    let mut finished_runs = 0;
    for code in 0..kinds.pow(length) {
        let (mut machine, first) = Rasterizer::start(ICON, layout());
        assert!(matches!(first, RasterAction::QueryIconInfo { .. }));
        let mut acquired = vec![handle(HandleKind::Icon, ICON)];
        let mut released = Vec::new();
        let mut finished = false;
        let mut rest = code;
        for _ in 0..length {
            let which = rest % kinds;
            rest /= kinds;
            acquired.extend(brought_by(which));
            let (next, action) = machine.step(sample_event(which));
            machine = next;
            match action {
                RasterAction::Finish { outcome, release } => {
                    if let Ok(image) = outcome {
                        assert!(!finished);
                        assert!(image.width() > 0 && image.height() > 0);
                        assert_eq!(
                            image.pixels().len() as u64,
                            4 * image.width() as u64 * image.height() as u64
                        );
                    }
                    assert!(release.iter().all(|h| h.raw != 0));
                    released.extend(release);
                    finished = true;
                }
                _ => assert!(!finished),
            }
            if finished {
                assert_eq!(sorted(released.clone()), sorted(acquired.clone()));
            } else {
                assert!(released.is_empty());
            }
        }
        if finished {
            finished_runs += 1;
        }
    }
    assert!(finished_runs > 0);
}
