//! The status codes that the runtime's C interface returns, one type per subsystem.
//! Each code is read by value; a code of zero means that the call succeeded.
use vstd::prelude::*;

verus! {

/// A status code of the runtime's initialization calls.
#[derive(Clone, Copy, Debug, PartialEq, Eq, Structural)]
pub struct EVRInitError(pub u32);

/// The initialization code that means no error.
pub const VR_INIT_ERROR_NONE: u32 = 0;

/// A status code of the overlay subsystem.
#[derive(Clone, Copy, Debug, PartialEq, Eq, Structural)]
pub struct EVROverlayError(pub u32);

/// The overlay code that means no error.
pub const VR_OVERLAY_ERROR_NONE: u32 = 0;

/// A status code of the tracked-device property calls.
#[derive(Clone, Copy, Debug, PartialEq, Eq, Structural)]
pub struct ETrackedPropertyError(pub u32);

/// The property code that means success.
pub const TRACKED_PROP_SUCCESS: u32 = 0;

/// A status code of the input subsystem.
#[allow(non_camel_case_types)]
#[derive(Clone, Copy, Debug, PartialEq, Eq, Structural)]
pub enum EVRInputError {
    VRInputError_None,
    VRInputError_NameNotFound,
    VRInputError_WrongType,
    VRInputError_InvalidHandle,
    VRInputError_InvalidParam,
    VRInputError_NoSteam,
    VRInputError_MaxCapacityReached,
    VRInputError_IPCError,
    VRInputError_NoActiveActionSet,
    VRInputError_InvalidDevice,
    VRInputError_InvalidSkeleton,
    VRInputError_InvalidBoneCount,
    VRInputError_InvalidCompressedData,
    VRInputError_NoData,
    VRInputError_BufferTooSmall,
    VRInputError_MismatchedActionManifest,
    VRInputError_MissingSkeletonData,
    VRInputError_InvalidBoneIndex,
    VRInputError_InvalidPriority,
    VRInputError_PermissionDenied,
    VRInputError_InvalidRenderModel,
}

impl EVRInputError {
    /// The numeric value of the code in the runtime's ABI.
    pub open spec fn spec_code(self) -> u32 {
        match self {
            EVRInputError::VRInputError_None => 0,
            EVRInputError::VRInputError_NameNotFound => 2,
            EVRInputError::VRInputError_WrongType => 3,
            EVRInputError::VRInputError_InvalidHandle => 4,
            EVRInputError::VRInputError_InvalidParam => 5,
            EVRInputError::VRInputError_NoSteam => 6,
            EVRInputError::VRInputError_MaxCapacityReached => 7,
            EVRInputError::VRInputError_IPCError => 8,
            EVRInputError::VRInputError_NoActiveActionSet => 9,
            EVRInputError::VRInputError_InvalidDevice => 10,
            EVRInputError::VRInputError_InvalidSkeleton => 11,
            EVRInputError::VRInputError_InvalidBoneCount => 12,
            EVRInputError::VRInputError_InvalidCompressedData => 13,
            EVRInputError::VRInputError_NoData => 14,
            EVRInputError::VRInputError_BufferTooSmall => 15,
            EVRInputError::VRInputError_MismatchedActionManifest => 16,
            EVRInputError::VRInputError_MissingSkeletonData => 17,
            EVRInputError::VRInputError_InvalidBoneIndex => 18,
            EVRInputError::VRInputError_InvalidPriority => 19,
            EVRInputError::VRInputError_PermissionDenied => 20,
            EVRInputError::VRInputError_InvalidRenderModel => 21,
        }
    }

    /// The symbolic name of the code: its enumerator's name without the prefix.
    pub open spec fn spec_name(self) -> Seq<char> {
        match self {
            EVRInputError::VRInputError_None => "None"@,
            EVRInputError::VRInputError_NameNotFound => "NameNotFound"@,
            EVRInputError::VRInputError_WrongType => "WrongType"@,
            EVRInputError::VRInputError_InvalidHandle => "InvalidHandle"@,
            EVRInputError::VRInputError_InvalidParam => "InvalidParam"@,
            EVRInputError::VRInputError_NoSteam => "NoSteam"@,
            EVRInputError::VRInputError_MaxCapacityReached => "MaxCapacityReached"@,
            EVRInputError::VRInputError_IPCError => "IPCError"@,
            EVRInputError::VRInputError_NoActiveActionSet => "NoActiveActionSet"@,
            EVRInputError::VRInputError_InvalidDevice => "InvalidDevice"@,
            EVRInputError::VRInputError_InvalidSkeleton => "InvalidSkeleton"@,
            EVRInputError::VRInputError_InvalidBoneCount => "InvalidBoneCount"@,
            EVRInputError::VRInputError_InvalidCompressedData => "InvalidCompressedData"@,
            EVRInputError::VRInputError_NoData => "NoData"@,
            EVRInputError::VRInputError_BufferTooSmall => "BufferTooSmall"@,
            EVRInputError::VRInputError_MismatchedActionManifest => "MismatchedActionManifest"@,
            EVRInputError::VRInputError_MissingSkeletonData => "MissingSkeletonData"@,
            EVRInputError::VRInputError_InvalidBoneIndex => "InvalidBoneIndex"@,
            EVRInputError::VRInputError_InvalidPriority => "InvalidPriority"@,
            EVRInputError::VRInputError_PermissionDenied => "PermissionDenied"@,
            EVRInputError::VRInputError_InvalidRenderModel => "InvalidRenderModel"@,
        }
    }

    /// The numeric value of the code in the runtime's ABI.
    pub fn code(&self) -> (r: u32)
        ensures
            r == self.spec_code(),
    {
        match self {
            EVRInputError::VRInputError_None => 0,
            EVRInputError::VRInputError_NameNotFound => 2,
            EVRInputError::VRInputError_WrongType => 3,
            EVRInputError::VRInputError_InvalidHandle => 4,
            EVRInputError::VRInputError_InvalidParam => 5,
            EVRInputError::VRInputError_NoSteam => 6,
            EVRInputError::VRInputError_MaxCapacityReached => 7,
            EVRInputError::VRInputError_IPCError => 8,
            EVRInputError::VRInputError_NoActiveActionSet => 9,
            EVRInputError::VRInputError_InvalidDevice => 10,
            EVRInputError::VRInputError_InvalidSkeleton => 11,
            EVRInputError::VRInputError_InvalidBoneCount => 12,
            EVRInputError::VRInputError_InvalidCompressedData => 13,
            EVRInputError::VRInputError_NoData => 14,
            EVRInputError::VRInputError_BufferTooSmall => 15,
            EVRInputError::VRInputError_MismatchedActionManifest => 16,
            EVRInputError::VRInputError_MissingSkeletonData => 17,
            EVRInputError::VRInputError_InvalidBoneIndex => 18,
            EVRInputError::VRInputError_InvalidPriority => 19,
            EVRInputError::VRInputError_PermissionDenied => 20,
            EVRInputError::VRInputError_InvalidRenderModel => 21,
        }
    }
}

/// A status code of the applications subsystem.
#[allow(non_camel_case_types)]
#[derive(Clone, Copy, Debug, PartialEq, Eq, Structural)]
pub enum EVRApplicationError {
    VRApplicationError_None,
    VRApplicationError_AppKeyAlreadyExists,
    VRApplicationError_NoManifest,
    VRApplicationError_NoApplication,
    VRApplicationError_InvalidIndex,
    VRApplicationError_UnknownApplication,
    VRApplicationError_IPCFailed,
    VRApplicationError_ApplicationAlreadyRunning,
    VRApplicationError_InvalidManifest,
    VRApplicationError_InvalidApplication,
    VRApplicationError_LaunchFailed,
    VRApplicationError_ApplicationAlreadyStarting,
    VRApplicationError_LaunchInProgress,
    VRApplicationError_OldApplicationQuitting,
    VRApplicationError_TransitionAborted,
    VRApplicationError_IsTemplate,
    VRApplicationError_SteamVRIsExiting,
    VRApplicationError_BufferTooSmall,
    VRApplicationError_PropertyNotSet,
    VRApplicationError_UnknownProperty,
    VRApplicationError_InvalidParameter,
    VRApplicationError_NotImplemented,
}

impl EVRApplicationError {
    /// The numeric value of the code in the runtime's ABI.
    pub open spec fn spec_code(self) -> u32 {
        match self {
            EVRApplicationError::VRApplicationError_None => 0,
            EVRApplicationError::VRApplicationError_AppKeyAlreadyExists => 100,
            EVRApplicationError::VRApplicationError_NoManifest => 101,
            EVRApplicationError::VRApplicationError_NoApplication => 102,
            EVRApplicationError::VRApplicationError_InvalidIndex => 103,
            EVRApplicationError::VRApplicationError_UnknownApplication => 104,
            EVRApplicationError::VRApplicationError_IPCFailed => 105,
            EVRApplicationError::VRApplicationError_ApplicationAlreadyRunning => 106,
            EVRApplicationError::VRApplicationError_InvalidManifest => 107,
            EVRApplicationError::VRApplicationError_InvalidApplication => 108,
            EVRApplicationError::VRApplicationError_LaunchFailed => 109,
            EVRApplicationError::VRApplicationError_ApplicationAlreadyStarting => 110,
            EVRApplicationError::VRApplicationError_LaunchInProgress => 111,
            EVRApplicationError::VRApplicationError_OldApplicationQuitting => 112,
            EVRApplicationError::VRApplicationError_TransitionAborted => 113,
            EVRApplicationError::VRApplicationError_IsTemplate => 114,
            EVRApplicationError::VRApplicationError_SteamVRIsExiting => 115,
            EVRApplicationError::VRApplicationError_BufferTooSmall => 200,
            EVRApplicationError::VRApplicationError_PropertyNotSet => 201,
            EVRApplicationError::VRApplicationError_UnknownProperty => 202,
            EVRApplicationError::VRApplicationError_InvalidParameter => 203,
            EVRApplicationError::VRApplicationError_NotImplemented => 300,
        }
    }

    /// The symbolic name of the code: its enumerator's name without the prefix.
    pub open spec fn spec_name(self) -> Seq<char> {
        match self {
            EVRApplicationError::VRApplicationError_None => "None"@,
            EVRApplicationError::VRApplicationError_AppKeyAlreadyExists => "AppKeyAlreadyExists"@,
            EVRApplicationError::VRApplicationError_NoManifest => "NoManifest"@,
            EVRApplicationError::VRApplicationError_NoApplication => "NoApplication"@,
            EVRApplicationError::VRApplicationError_InvalidIndex => "InvalidIndex"@,
            EVRApplicationError::VRApplicationError_UnknownApplication => "UnknownApplication"@,
            EVRApplicationError::VRApplicationError_IPCFailed => "IPCFailed"@,
            EVRApplicationError::VRApplicationError_ApplicationAlreadyRunning => "ApplicationAlreadyRunning"@,
            EVRApplicationError::VRApplicationError_InvalidManifest => "InvalidManifest"@,
            EVRApplicationError::VRApplicationError_InvalidApplication => "InvalidApplication"@,
            EVRApplicationError::VRApplicationError_LaunchFailed => "LaunchFailed"@,
            EVRApplicationError::VRApplicationError_ApplicationAlreadyStarting => "ApplicationAlreadyStarting"@,
            EVRApplicationError::VRApplicationError_LaunchInProgress => "LaunchInProgress"@,
            EVRApplicationError::VRApplicationError_OldApplicationQuitting => "OldApplicationQuitting"@,
            EVRApplicationError::VRApplicationError_TransitionAborted => "TransitionAborted"@,
            EVRApplicationError::VRApplicationError_IsTemplate => "IsTemplate"@,
            EVRApplicationError::VRApplicationError_SteamVRIsExiting => "SteamVRIsExiting"@,
            EVRApplicationError::VRApplicationError_BufferTooSmall => "BufferTooSmall"@,
            EVRApplicationError::VRApplicationError_PropertyNotSet => "PropertyNotSet"@,
            EVRApplicationError::VRApplicationError_UnknownProperty => "UnknownProperty"@,
            EVRApplicationError::VRApplicationError_InvalidParameter => "InvalidParameter"@,
            EVRApplicationError::VRApplicationError_NotImplemented => "NotImplemented"@,
        }
    }

    /// The numeric value of the code in the runtime's ABI.
    pub fn code(&self) -> (r: u32)
        ensures
            r == self.spec_code(),
    {
        match self {
            EVRApplicationError::VRApplicationError_None => 0,
            EVRApplicationError::VRApplicationError_AppKeyAlreadyExists => 100,
            EVRApplicationError::VRApplicationError_NoManifest => 101,
            EVRApplicationError::VRApplicationError_NoApplication => 102,
            EVRApplicationError::VRApplicationError_InvalidIndex => 103,
            EVRApplicationError::VRApplicationError_UnknownApplication => 104,
            EVRApplicationError::VRApplicationError_IPCFailed => 105,
            EVRApplicationError::VRApplicationError_ApplicationAlreadyRunning => 106,
            EVRApplicationError::VRApplicationError_InvalidManifest => 107,
            EVRApplicationError::VRApplicationError_InvalidApplication => 108,
            EVRApplicationError::VRApplicationError_LaunchFailed => 109,
            EVRApplicationError::VRApplicationError_ApplicationAlreadyStarting => 110,
            EVRApplicationError::VRApplicationError_LaunchInProgress => 111,
            EVRApplicationError::VRApplicationError_OldApplicationQuitting => 112,
            EVRApplicationError::VRApplicationError_TransitionAborted => 113,
            EVRApplicationError::VRApplicationError_IsTemplate => 114,
            EVRApplicationError::VRApplicationError_SteamVRIsExiting => 115,
            EVRApplicationError::VRApplicationError_BufferTooSmall => 200,
            EVRApplicationError::VRApplicationError_PropertyNotSet => 201,
            EVRApplicationError::VRApplicationError_UnknownProperty => 202,
            EVRApplicationError::VRApplicationError_InvalidParameter => 203,
            EVRApplicationError::VRApplicationError_NotImplemented => 300,
        }
    }
}

/// The length, first, last and second-to-last characters of a name of at least two characters.
spec fn name_key(s: Seq<char>) -> (nat, char, char, char) {
    (s.len(), s[0], s[s.len() - 1], s[s.len() - 2])
}

proof fn lemma_input_name_key(a: EVRInputError)
    ensures
        name_key(a.spec_name()) == match a {
            EVRInputError::VRInputError_None => (4nat, 'N', 'e', 'n'),
            EVRInputError::VRInputError_NameNotFound => (12nat, 'N', 'd', 'n'),
            EVRInputError::VRInputError_WrongType => (9nat, 'W', 'e', 'p'),
            EVRInputError::VRInputError_InvalidHandle => (13nat, 'I', 'e', 'l'),
            EVRInputError::VRInputError_InvalidParam => (12nat, 'I', 'm', 'a'),
            EVRInputError::VRInputError_NoSteam => (7nat, 'N', 'm', 'a'),
            EVRInputError::VRInputError_MaxCapacityReached => (18nat, 'M', 'd', 'e'),
            EVRInputError::VRInputError_IPCError => (8nat, 'I', 'r', 'o'),
            EVRInputError::VRInputError_NoActiveActionSet => (17nat, 'N', 't', 'e'),
            EVRInputError::VRInputError_InvalidDevice => (13nat, 'I', 'e', 'c'),
            EVRInputError::VRInputError_InvalidSkeleton => (15nat, 'I', 'n', 'o'),
            EVRInputError::VRInputError_InvalidBoneCount => (16nat, 'I', 't', 'n'),
            EVRInputError::VRInputError_InvalidCompressedData => (21nat, 'I', 'a', 't'),
            EVRInputError::VRInputError_NoData => (6nat, 'N', 'a', 't'),
            EVRInputError::VRInputError_BufferTooSmall => (14nat, 'B', 'l', 'l'),
            EVRInputError::VRInputError_MismatchedActionManifest => (24nat, 'M', 't', 's'),
            EVRInputError::VRInputError_MissingSkeletonData => (19nat, 'M', 'a', 't'),
            EVRInputError::VRInputError_InvalidBoneIndex => (16nat, 'I', 'x', 'e'),
            EVRInputError::VRInputError_InvalidPriority => (15nat, 'I', 'y', 't'),
            EVRInputError::VRInputError_PermissionDenied => (16nat, 'P', 'd', 'e'),
            EVRInputError::VRInputError_InvalidRenderModel => (18nat, 'I', 'l', 'e'),
        },
{
    match a {
        EVRInputError::VRInputError_None => reveal_strlit("None"),
        EVRInputError::VRInputError_NameNotFound => reveal_strlit("NameNotFound"),
        EVRInputError::VRInputError_WrongType => reveal_strlit("WrongType"),
        EVRInputError::VRInputError_InvalidHandle => reveal_strlit("InvalidHandle"),
        EVRInputError::VRInputError_InvalidParam => reveal_strlit("InvalidParam"),
        EVRInputError::VRInputError_NoSteam => reveal_strlit("NoSteam"),
        EVRInputError::VRInputError_MaxCapacityReached => reveal_strlit("MaxCapacityReached"),
        EVRInputError::VRInputError_IPCError => reveal_strlit("IPCError"),
        EVRInputError::VRInputError_NoActiveActionSet => reveal_strlit("NoActiveActionSet"),
        EVRInputError::VRInputError_InvalidDevice => reveal_strlit("InvalidDevice"),
        EVRInputError::VRInputError_InvalidSkeleton => reveal_strlit("InvalidSkeleton"),
        EVRInputError::VRInputError_InvalidBoneCount => reveal_strlit("InvalidBoneCount"),
        EVRInputError::VRInputError_InvalidCompressedData => reveal_strlit("InvalidCompressedData"),
        EVRInputError::VRInputError_NoData => reveal_strlit("NoData"),
        EVRInputError::VRInputError_BufferTooSmall => reveal_strlit("BufferTooSmall"),
        EVRInputError::VRInputError_MismatchedActionManifest => reveal_strlit("MismatchedActionManifest"),
        EVRInputError::VRInputError_MissingSkeletonData => reveal_strlit("MissingSkeletonData"),
        EVRInputError::VRInputError_InvalidBoneIndex => reveal_strlit("InvalidBoneIndex"),
        EVRInputError::VRInputError_InvalidPriority => reveal_strlit("InvalidPriority"),
        EVRInputError::VRInputError_PermissionDenied => reveal_strlit("PermissionDenied"),
        EVRInputError::VRInputError_InvalidRenderModel => reveal_strlit("InvalidRenderModel"),
    }
}

/// Every input code has a non-empty symbolic name, and no two codes share one.
pub proof fn lemma_input_names_distinct(a: EVRInputError, b: EVRInputError)
    ensures
        a.spec_name().len() > 0,
        a.spec_name() == b.spec_name() ==> a == b,
{
    lemma_input_name_key(a);
    lemma_input_name_key(b);
}

proof fn lemma_application_name_key(a: EVRApplicationError)
    ensures
        name_key(a.spec_name()) == match a {
            EVRApplicationError::VRApplicationError_None => (4nat, 'N', 'e', 'n'),
            EVRApplicationError::VRApplicationError_AppKeyAlreadyExists => (19nat, 'A', 's', 't'),
            EVRApplicationError::VRApplicationError_NoManifest => (10nat, 'N', 't', 's'),
            EVRApplicationError::VRApplicationError_NoApplication => (13nat, 'N', 'n', 'o'),
            EVRApplicationError::VRApplicationError_InvalidIndex => (12nat, 'I', 'x', 'e'),
            EVRApplicationError::VRApplicationError_UnknownApplication => (18nat, 'U', 'n', 'o'),
            EVRApplicationError::VRApplicationError_IPCFailed => (9nat, 'I', 'd', 'e'),
            EVRApplicationError::VRApplicationError_ApplicationAlreadyRunning => (25nat, 'A', 'g', 'n'),
            EVRApplicationError::VRApplicationError_InvalidManifest => (15nat, 'I', 't', 's'),
            EVRApplicationError::VRApplicationError_InvalidApplication => (18nat, 'I', 'n', 'o'),
            EVRApplicationError::VRApplicationError_LaunchFailed => (12nat, 'L', 'd', 'e'),
            EVRApplicationError::VRApplicationError_ApplicationAlreadyStarting => (26nat, 'A', 'g', 'n'),
            EVRApplicationError::VRApplicationError_LaunchInProgress => (16nat, 'L', 's', 's'),
            EVRApplicationError::VRApplicationError_OldApplicationQuitting => (22nat, 'O', 'g', 'n'),
            EVRApplicationError::VRApplicationError_TransitionAborted => (17nat, 'T', 'd', 'e'),
            EVRApplicationError::VRApplicationError_IsTemplate => (10nat, 'I', 'e', 't'),
            EVRApplicationError::VRApplicationError_SteamVRIsExiting => (16nat, 'S', 'g', 'n'),
            EVRApplicationError::VRApplicationError_BufferTooSmall => (14nat, 'B', 'l', 'l'),
            EVRApplicationError::VRApplicationError_PropertyNotSet => (14nat, 'P', 't', 'e'),
            EVRApplicationError::VRApplicationError_UnknownProperty => (15nat, 'U', 'y', 't'),
            EVRApplicationError::VRApplicationError_InvalidParameter => (16nat, 'I', 'r', 'e'),
            EVRApplicationError::VRApplicationError_NotImplemented => (14nat, 'N', 'd', 'e'),
        },
{
    match a {
        EVRApplicationError::VRApplicationError_None => reveal_strlit("None"),
        EVRApplicationError::VRApplicationError_AppKeyAlreadyExists => reveal_strlit("AppKeyAlreadyExists"),
        EVRApplicationError::VRApplicationError_NoManifest => reveal_strlit("NoManifest"),
        EVRApplicationError::VRApplicationError_NoApplication => reveal_strlit("NoApplication"),
        EVRApplicationError::VRApplicationError_InvalidIndex => reveal_strlit("InvalidIndex"),
        EVRApplicationError::VRApplicationError_UnknownApplication => reveal_strlit("UnknownApplication"),
        EVRApplicationError::VRApplicationError_IPCFailed => reveal_strlit("IPCFailed"),
        EVRApplicationError::VRApplicationError_ApplicationAlreadyRunning => reveal_strlit("ApplicationAlreadyRunning"),
        EVRApplicationError::VRApplicationError_InvalidManifest => reveal_strlit("InvalidManifest"),
        EVRApplicationError::VRApplicationError_InvalidApplication => reveal_strlit("InvalidApplication"),
        EVRApplicationError::VRApplicationError_LaunchFailed => reveal_strlit("LaunchFailed"),
        EVRApplicationError::VRApplicationError_ApplicationAlreadyStarting => reveal_strlit("ApplicationAlreadyStarting"),
        EVRApplicationError::VRApplicationError_LaunchInProgress => reveal_strlit("LaunchInProgress"),
        EVRApplicationError::VRApplicationError_OldApplicationQuitting => reveal_strlit("OldApplicationQuitting"),
        EVRApplicationError::VRApplicationError_TransitionAborted => reveal_strlit("TransitionAborted"),
        EVRApplicationError::VRApplicationError_IsTemplate => reveal_strlit("IsTemplate"),
        EVRApplicationError::VRApplicationError_SteamVRIsExiting => reveal_strlit("SteamVRIsExiting"),
        EVRApplicationError::VRApplicationError_BufferTooSmall => reveal_strlit("BufferTooSmall"),
        EVRApplicationError::VRApplicationError_PropertyNotSet => reveal_strlit("PropertyNotSet"),
        EVRApplicationError::VRApplicationError_UnknownProperty => reveal_strlit("UnknownProperty"),
        EVRApplicationError::VRApplicationError_InvalidParameter => reveal_strlit("InvalidParameter"),
        EVRApplicationError::VRApplicationError_NotImplemented => reveal_strlit("NotImplemented"),
    }
}

/// Every applications code has a non-empty symbolic name, and no two codes share one.
pub proof fn lemma_application_names_distinct(a: EVRApplicationError, b: EVRApplicationError)
    ensures
        a.spec_name().len() > 0,
        a.spec_name() == b.spec_name() ==> a == b,
{
    lemma_application_name_key(a);
    lemma_application_name_key(b);
}

} // verus!
