use windows_icons::error::{ErrorKind, IconError};
use windows_icons::source::{
    is_uwp_app, process_path_outcome, route_path, shell_icon_outcome, PathRoute, ProcessQuery,
};

fn query(opened: bool, closed: bool, length: u32) -> ProcessQuery {
    ProcessQuery { opened, open_code: 5, closed, length, read_code: 299 }
}

#[test]
fn a_path_in_the_package_store_names_a_packaged_application() {
    assert!(is_uwp_app("C:/Programme/WindowsApps/Vendor.App_1.0/App.exe"));
    assert!(is_uwp_app("Programme/WindowsApps"));
}

#[test]
fn other_paths_name_no_packaged_application() {
    assert!(!is_uwp_app("C:\\Windows\\System32\\notepad.exe"));
    assert!(!is_uwp_app("C:\\Programme\\WindowsApps\\Vendor.App\\App.exe"));
    assert!(!is_uwp_app("C:/programme/windowsapps/Vendor.App/App.exe"));
    assert!(!is_uwp_app(""));
}

#[test]
fn the_subsystem_for_android_is_no_packaged_application() {
    assert!(!is_uwp_app("C:/Programme/WindowsApps/MicrosoftCorporationII.WindowsSubsystemForAndroid_1/x.exe"));
}

#[test]
fn a_packaged_application_is_resolved_through_its_directory() {
    match route_path("C:/Programme/WindowsApps/Vendor.App_1.0/App.exe") {
        PathRoute::Packaged { directory } => {
            assert_eq!(directory, "C:/Programme/WindowsApps/Vendor.App_1.0");
        }
        other => panic!("the wrong route: {:?}", other),
    }
}

#[test]
fn another_file_is_resolved_through_the_shell() {
    match route_path("C:\\Windows\\System32\\notepad.exe") {
        PathRoute::Shell { path } => assert_eq!(path, "C:\\Windows\\System32\\notepad.exe"),
        other => panic!("the wrong route: {:?}", other),
    }
}

#[test]
fn the_shell_gives_an_icon_unless_its_query_returned_zero() {
    assert_eq!(shell_icon_outcome(1, 77, 0), Ok(77));
    assert_eq!(shell_icon_outcome(1, 0, 0), Ok(0));
    assert_eq!(shell_icon_outcome(0, 77, 2), Err(IconError::FileIconNotFound { os_code: 2 }));
    assert_eq!(IconError::FileIconNotFound { os_code: 2 }.kind(), ErrorKind::NotFound);
}

#[test]
fn the_path_of_a_process_is_the_written_part_of_the_buffer() {
    assert_eq!(process_path_outcome(query(true, true, 3), vec![67, 58, 92, 0, 0]), Ok(vec![67, 58, 92]));
    assert_eq!(process_path_outcome(query(true, true, 5), vec![67, 58, 92, 0, 0]), Ok(vec![67, 58, 92, 0, 0]));
    assert_eq!(process_path_outcome(query(true, true, 9), vec![67, 58]), Ok(vec![67, 58]));
}

#[test]
fn a_process_that_cannot_be_opened_is_not_found() {
    assert_eq!(
        process_path_outcome(query(false, false, 0), vec![0; 4]),
        Err(IconError::ProcessNotFound { os_code: 5 })
    );
    assert_eq!(IconError::ProcessNotFound { os_code: 5 }.kind(), ErrorKind::NotFound);
}

#[test]
fn a_handle_that_cannot_be_closed_fails_before_the_path_is_looked_at() {
    assert_eq!(process_path_outcome(query(true, false, 3), vec![0; 4]), Err(IconError::ProcessHandleNotClosed));
    assert_eq!(process_path_outcome(query(true, false, 0), vec![0; 4]), Err(IconError::ProcessHandleNotClosed));
    assert_eq!(IconError::ProcessHandleNotClosed.kind(), ErrorKind::OsCallFailed);
}

#[test]
fn a_path_that_cannot_be_read_is_not_found() {
    assert_eq!(
        process_path_outcome(query(true, true, 0), vec![0; 4]),
        Err(IconError::ProcessPathUnavailable { os_code: 299 })
    );
    assert_eq!(IconError::ProcessPathUnavailable { os_code: 299 }.kind(), ErrorKind::NotFound);
}

#[test]
fn every_other_failure_has_its_kind() {
    assert_eq!(IconError::ManifestUnreadable.kind(), ErrorKind::OsCallFailed);
    assert_eq!(IconError::LogoPathIncomplete.kind(), ErrorKind::NotFound);
    assert_eq!(IconError::FileSizeUnavailable.kind(), ErrorKind::NotFound);
    assert_eq!(IconError::EncodingFailed.kind(), ErrorKind::MalformedInput);
    assert_eq!(IconError::ImageSizeMismatch.kind(), ErrorKind::MalformedInput);
    assert_eq!(IconError::InputTooLong.kind(), ErrorKind::Overflow);
}

#[test]
fn a_failure_says_what_failed() {
    assert_eq!(IconError::IndexUnderflow.message(), "index underflow");
    assert_eq!(IconError::LogoNotInManifest.message(), "icon path not found in manifest");
    assert_eq!(IconError::NoIconInPackage.message(), "no icon found in package folder");
    assert_eq!(IconError::DegenerateDimensions.message(), "degenerate icon dimensions");
    assert_eq!(IconError::CopyFailed { os_code: 3 }.message(), "the copy of the pixels failed");
}

#[test]
fn a_failure_carries_the_code_of_the_system_where_there_is_one() {
    assert_eq!(IconError::CopyFailed { os_code: 3 }.os_code(), Some(3));
    assert_eq!(IconError::ModuleNotFound { os_code: 126 }.os_code(), Some(126));
    assert_eq!(IconError::ResourceNotFound { os_code: 1813 }.os_code(), Some(1813));
    assert_eq!(IconError::FileIconNotFound { os_code: 2 }.os_code(), Some(2));
    assert_eq!(IconError::IconInfoFailed { os_code: 6 }.os_code(), Some(6));
    assert_eq!(IconError::ProcessNotFound { os_code: 5 }.os_code(), Some(5));
    assert_eq!(IconError::ProcessPathUnavailable { os_code: 299 }.os_code(), Some(299));
    assert_eq!(IconError::IndexUnderflow.os_code(), None);
    assert_eq!(IconError::RowCountMismatch { asked: 1, copied: 2 }.os_code(), None);
}
