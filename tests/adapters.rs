use vr_errors::errors::{
    ETrackedPropertyError, EVRApplicationError, EVRInitError, EVRInputError, EVROverlayError,
    InitError,
};
use vr_errors::sys;
use vr_errors::text::format_error;

const INPUT_CODES: [(sys::EVRInputError, &str, u32); 21] = [
    (sys::EVRInputError::VRInputError_None, "None", 0),
    (sys::EVRInputError::VRInputError_NameNotFound, "NameNotFound", 2),
    (sys::EVRInputError::VRInputError_WrongType, "WrongType", 3),
    (sys::EVRInputError::VRInputError_InvalidHandle, "InvalidHandle", 4),
    (sys::EVRInputError::VRInputError_InvalidParam, "InvalidParam", 5),
    (sys::EVRInputError::VRInputError_NoSteam, "NoSteam", 6),
    (sys::EVRInputError::VRInputError_MaxCapacityReached, "MaxCapacityReached", 7),
    (sys::EVRInputError::VRInputError_IPCError, "IPCError", 8),
    (sys::EVRInputError::VRInputError_NoActiveActionSet, "NoActiveActionSet", 9),
    (sys::EVRInputError::VRInputError_InvalidDevice, "InvalidDevice", 10),
    (sys::EVRInputError::VRInputError_InvalidSkeleton, "InvalidSkeleton", 11),
    (sys::EVRInputError::VRInputError_InvalidBoneCount, "InvalidBoneCount", 12),
    (sys::EVRInputError::VRInputError_InvalidCompressedData, "InvalidCompressedData", 13),
    (sys::EVRInputError::VRInputError_NoData, "NoData", 14),
    (sys::EVRInputError::VRInputError_BufferTooSmall, "BufferTooSmall", 15),
    (sys::EVRInputError::VRInputError_MismatchedActionManifest, "MismatchedActionManifest", 16),
    (sys::EVRInputError::VRInputError_MissingSkeletonData, "MissingSkeletonData", 17),
    (sys::EVRInputError::VRInputError_InvalidBoneIndex, "InvalidBoneIndex", 18),
    (sys::EVRInputError::VRInputError_InvalidPriority, "InvalidPriority", 19),
    (sys::EVRInputError::VRInputError_PermissionDenied, "PermissionDenied", 20),
    (sys::EVRInputError::VRInputError_InvalidRenderModel, "InvalidRenderModel", 21),
];

const APPLICATION_CODES: [(sys::EVRApplicationError, &str, u32); 22] = [
    (sys::EVRApplicationError::VRApplicationError_None, "None", 0),
    (sys::EVRApplicationError::VRApplicationError_AppKeyAlreadyExists, "AppKeyAlreadyExists", 100),
    (sys::EVRApplicationError::VRApplicationError_NoManifest, "NoManifest", 101),
    (sys::EVRApplicationError::VRApplicationError_NoApplication, "NoApplication", 102),
    (sys::EVRApplicationError::VRApplicationError_InvalidIndex, "InvalidIndex", 103),
    (sys::EVRApplicationError::VRApplicationError_UnknownApplication, "UnknownApplication", 104),
    (sys::EVRApplicationError::VRApplicationError_IPCFailed, "IPCFailed", 105),
    (sys::EVRApplicationError::VRApplicationError_ApplicationAlreadyRunning, "ApplicationAlreadyRunning", 106),
    (sys::EVRApplicationError::VRApplicationError_InvalidManifest, "InvalidManifest", 107),
    (sys::EVRApplicationError::VRApplicationError_InvalidApplication, "InvalidApplication", 108),
    (sys::EVRApplicationError::VRApplicationError_LaunchFailed, "LaunchFailed", 109),
    (sys::EVRApplicationError::VRApplicationError_ApplicationAlreadyStarting, "ApplicationAlreadyStarting", 110),
    (sys::EVRApplicationError::VRApplicationError_LaunchInProgress, "LaunchInProgress", 111),
    (sys::EVRApplicationError::VRApplicationError_OldApplicationQuitting, "OldApplicationQuitting", 112),
    (sys::EVRApplicationError::VRApplicationError_TransitionAborted, "TransitionAborted", 113),
    (sys::EVRApplicationError::VRApplicationError_IsTemplate, "IsTemplate", 114),
    (sys::EVRApplicationError::VRApplicationError_SteamVRIsExiting, "SteamVRIsExiting", 115),
    (sys::EVRApplicationError::VRApplicationError_BufferTooSmall, "BufferTooSmall", 200),
    (sys::EVRApplicationError::VRApplicationError_PropertyNotSet, "PropertyNotSet", 201),
    (sys::EVRApplicationError::VRApplicationError_UnknownProperty, "UnknownProperty", 202),
    (sys::EVRApplicationError::VRApplicationError_InvalidParameter, "InvalidParameter", 203),
    (sys::EVRApplicationError::VRApplicationError_NotImplemented, "NotImplemented", 300),
];

#[test]
fn success_code_classifies_as_success() {
    assert!(EVRInitError::new(sys::EVRInitError(0)).is_ok());
    assert!(EVROverlayError::new(sys::EVROverlayError(0)).is_ok());
    assert!(ETrackedPropertyError::new(sys::ETrackedPropertyError(0)).is_ok());
    assert!(EVRInputError::new(sys::EVRInputError::VRInputError_None).is_ok());
    assert!(EVRApplicationError::new(sys::EVRApplicationError::VRApplicationError_None).is_ok());
}

#[test]
fn input_name_not_found_scenario() {
    let e = EVRInputError::new(sys::EVRInputError::VRInputError_NameNotFound).unwrap_err();
    assert_eq!(e.description(), "NameNotFound");
    assert_eq!(e.to_string(), "EVRInputError(2): NameNotFound");
    assert_eq!(e.inner(), sys::EVRInputError::VRInputError_NameNotFound);
}

#[test]
fn already_initialized_wins_over_foreign_code() {
    let r = InitError::from_init_call(true, sys::EVRInitError(108));
    assert!(matches!(r, Err(InitError::AlreadyInitialized)));
    let r = InitError::from_init_call(true, sys::EVRInitError(0));
    assert!(matches!(r, Err(InitError::AlreadyInitialized)));
}

#[test]
fn init_call_outcome_when_not_initialized() {
    assert!(InitError::from_init_call(false, sys::EVRInitError(0)).is_ok());
    match InitError::from_init_call(false, sys::EVRInitError(108)) {
        Err(InitError::Sys(e)) => assert_eq!(e.inner(), sys::EVRInitError(108)),
        other => panic!("unexpected outcome {:?}", other),
    }
}

#[test]
fn init_error_from_wraps_the_code() {
    let e = EVRInitError::new(sys::EVRInitError(2000)).unwrap_err();
    match InitError::from(e) {
        InitError::Sys(inner) => assert_eq!(inner.inner(), sys::EVRInitError(2000)),
        InitError::AlreadyInitialized => panic!("the code was lost"),
    }
}

#[test]
fn failure_wraps_exactly_the_code() {
    for code in [1u32, 7, 255, 256, 1000, u32::MAX] {
        assert_eq!(EVRInitError::new(sys::EVRInitError(code)).unwrap_err().inner(), sys::EVRInitError(code));
        assert_eq!(EVROverlayError::new(sys::EVROverlayError(code)).unwrap_err().inner(), sys::EVROverlayError(code));
        assert_eq!(
            ETrackedPropertyError::new(sys::ETrackedPropertyError(code)).unwrap_err().inner(),
            sys::ETrackedPropertyError(code)
        );
    }
    for (code, _, _) in INPUT_CODES.iter().skip(1) {
        assert_eq!(EVRInputError::new(*code).unwrap_err().inner(), *code);
    }
    for (code, _, _) in APPLICATION_CODES.iter().skip(1) {
        assert_eq!(EVRApplicationError::new(*code).unwrap_err().inner(), *code);
    }
}

#[test]
fn input_table_gives_each_symbolic_name() {
    for (code, name, num) in INPUT_CODES.iter().skip(1) {
        let e = EVRInputError::new(*code).unwrap_err();
        assert_eq!(e.description(), *name);
        assert_eq!(code.code(), *num);
    }
    let mut names: Vec<&str> = INPUT_CODES.iter().map(|c| c.1).collect();
    names.sort();
    names.dedup();
    assert_eq!(names.len(), INPUT_CODES.len());
}

#[test]
fn application_table_gives_each_symbolic_name() {
    for (code, name, num) in APPLICATION_CODES.iter().skip(1) {
        let e = EVRApplicationError::new(*code).unwrap_err();
        assert_eq!(e.description(), *name);
        assert!(!e.description().is_empty());
        assert_eq!(code.code(), *num);
    }
    let mut names: Vec<&str> = APPLICATION_CODES.iter().map(|c| c.1).collect();
    names.sort();
    names.dedup();
    assert_eq!(names.len(), APPLICATION_CODES.len());
}

#[test]
fn log_lines_of_each_subsystem() {
    let e = EVRApplicationError::new(sys::EVRApplicationError::VRApplicationError_NotImplemented).unwrap_err();
    assert_eq!(e.to_string(), "EVRApplicationError(300): NotImplemented");
    let e = EVROverlayError::new(sys::EVROverlayError(10)).unwrap_err();
    assert_eq!(e.description(), "Unmapped");
    assert_eq!(e.to_string(), "EVROverlayError(10): Unmapped");
    let e = ETrackedPropertyError::new(sys::ETrackedPropertyError(1)).unwrap_err();
    assert_eq!(e.to_string(), "ETrackedPropertyError(1): Unmapped");
}

#[test]
fn log_line_is_stable_and_tells_codes_apart() {
    let a = EVRInputError::new(sys::EVRInputError::VRInputError_WrongType).unwrap_err();
    let b = EVRInputError::new(sys::EVRInputError::VRInputError_InvalidHandle).unwrap_err();
    assert_eq!(a.to_string(), a.to_string());
    assert_ne!(a.to_string(), b.to_string());
    let x = EVROverlayError::new(sys::EVROverlayError(1)).unwrap_err();
    let y = EVROverlayError::new(sys::EVROverlayError(11)).unwrap_err();
    assert_ne!(x.to_string(), y.to_string());
}

#[test]
fn format_error_writes_decimal_codes() {
    assert_eq!(format_error("EVRInitError", 0, "None"), "EVRInitError(0): None");
    assert_eq!(format_error("EVRInitError", 108, "Init_HmdNotFound"), "EVRInitError(108): Init_HmdNotFound");
    assert_eq!(format_error("X", 4294967295, ""), "X(4294967295): ");
    assert_eq!(format_error("", 10, "d"), "(10): d");
}

#[test]
fn composite_error_variants() {
    let local = InitError::AlreadyInitialized;
    assert!(!matches!(local, InitError::Sys(_)));
    let foreign = InitError::from(EVRInitError::new(sys::EVRInitError(1)).unwrap_err());
    assert!(matches!(foreign, InitError::Sys(_)));
}
