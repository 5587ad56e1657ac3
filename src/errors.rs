//! Typed errors of the runtime's subsystems. Each one wraps exactly one status
//! code that is not the subsystem's success code.
use vstd::prelude::*;

use crate::sys;
use crate::text::{display_text, format_error};

verus! {

/// A failure of the runtime's initialization: a code other than `VR_INIT_ERROR_NONE`.
#[derive(Clone, Copy, Debug, PartialEq, Eq)]
pub struct EVRInitError(sys::EVRInitError);

impl EVRInitError {
    #[verifier::type_invariant]
    spec fn never_success(self) -> bool {
        self.0.0 != sys::VR_INIT_ERROR_NONE
    }

    /// The wrapped code.
    pub closed spec fn spec_inner(self) -> sys::EVRInitError {
        self.0
    }

    /// Succeeds exactly on `VR_INIT_ERROR_NONE`; any other code comes back as the error that
    /// wraps it.
    pub fn new(err: sys::EVRInitError) -> (r: Result<(), Self>)
        ensures
            r is Ok <==> err.0 == sys::VR_INIT_ERROR_NONE,
            r matches Err(e) ==> e.spec_inner() == err,
    {
        if err.0 == sys::VR_INIT_ERROR_NONE {
            Ok(())
        } else {
            Err(Self(err))
        }
    }

    /// A copy of the wrapped code, which is never `VR_INIT_ERROR_NONE`.
    pub fn inner(&self) -> (r: sys::EVRInitError)
        ensures
            r == self.spec_inner(),
            r.0 != sys::VR_INIT_ERROR_NONE,
    {
        proof {
            use_type_invariant(self);
        }
        self.0
    }
}

/// The failure of initializing the runtime: either detected by this library before
/// the runtime was consulted, or a code that the runtime returned.
#[derive(Debug)]
pub enum InitError {
    /// The runtime is already initialized.
    AlreadyInitialized,
    /// The runtime's initialization call failed with this code.
    Sys(EVRInitError),
}

impl InitError {
    /// The runtime's code that the error carries, if it carries one.
    pub open spec fn wrapped(self) -> Option<sys::EVRInitError> {
        match self {
            InitError::AlreadyInitialized => None,
            InitError::Sys(e) => Some(e.spec_inner()),
        }
    }

    /// The outcome of an initialization: `AlreadyInitialized` when the runtime was
    /// already initialized, whatever code the call returned; otherwise the code,
    /// classified.
    pub fn from_init_call(already_initialized: bool, code: sys::EVRInitError) -> (r: Result<(), InitError>)
        ensures
            already_initialized ==> r matches Err(InitError::AlreadyInitialized),
            !already_initialized ==> (r is Ok <==> code.0 == sys::VR_INIT_ERROR_NONE),
            !already_initialized ==> (r matches Err(e) ==> e.wrapped() == Some(code)),
    {
        if already_initialized {
            Err(InitError::AlreadyInitialized)
        } else {
            match EVRInitError::new(code) {
                Ok(()) => Ok(()),
                Err(e) => Err(InitError::from(e)),
            }
        }
    }
}

impl From<EVRInitError> for InitError {
    fn from(e: EVRInitError) -> Self {
        InitError::Sys(e)
    }
}

impl vstd::std_specs::convert::FromSpecImpl<EVRInitError> for InitError {
    open spec fn obeys_from_spec() -> bool {
        true
    }

    open spec fn from_spec(e: EVRInitError) -> Self {
        InitError::Sys(e)
    }
}

/// A local failure carries no code of the runtime; a failure of the runtime always
/// carries its code.
pub proof fn lemma_init_error_variants(e: InitError)
    ensures
        e is AlreadyInitialized <==> e.wrapped() is None,
        e is Sys <==> e.wrapped() is Some,
        e matches InitError::Sys(inner) ==> e.wrapped() == Some(inner.spec_inner()),
{
}

/// A failure of the overlay subsystem: a code other than `VR_OVERLAY_ERROR_NONE`.
#[derive(Clone, Copy, Debug, PartialEq, Eq)]
pub struct EVROverlayError(sys::EVROverlayError);

impl EVROverlayError {
    #[verifier::type_invariant]
    spec fn never_success(self) -> bool {
        self.0.0 != sys::VR_OVERLAY_ERROR_NONE
    }

    /// The wrapped code.
    pub closed spec fn spec_inner(self) -> sys::EVROverlayError {
        self.0
    }

    /// Succeeds exactly on `VR_OVERLAY_ERROR_NONE`; any other code comes back as the error that
    /// wraps it.
    pub fn new(err: sys::EVROverlayError) -> (r: Result<(), Self>)
        ensures
            r is Ok <==> err.0 == sys::VR_OVERLAY_ERROR_NONE,
            r matches Err(e) ==> e.spec_inner() == err,
    {
        if err.0 == sys::VR_OVERLAY_ERROR_NONE {
            Ok(())
        } else {
            Err(Self(err))
        }
    }

    /// No symbolic-name table is kept for overlay codes: every code reads as `Unmapped`.
    pub fn description(&self) -> (r: &'static str)
        ensures
            r@ == "Unmapped"@,
            r@.len() > 0,
    {
        proof {
            reveal_strlit("Unmapped");
        }
        "Unmapped"
    }

    /// A copy of the wrapped code, which is never `VR_OVERLAY_ERROR_NONE`.
    pub fn inner(&self) -> (r: sys::EVROverlayError)
        ensures
            r == self.spec_inner(),
            r.0 != sys::VR_OVERLAY_ERROR_NONE,
    {
        proof {
            use_type_invariant(self);
        }
        self.0
    }

    /// The log line `EVROverlayError(<numeric code>): Unmapped`.
    pub fn to_string(&self) -> (r: String)
        ensures
            r@ == display_text("EVROverlayError"@, self.spec_inner().0 as nat, "Unmapped"@),
    {
        format_error("EVROverlayError", self.0.0, self.description())
    }
}

/// A failure of the tracked-device property calls: a code other than `TRACKED_PROP_SUCCESS`.
#[derive(Clone, Copy, Debug, PartialEq, Eq)]
pub struct ETrackedPropertyError(sys::ETrackedPropertyError);

impl ETrackedPropertyError {
    #[verifier::type_invariant]
    spec fn never_success(self) -> bool {
        self.0.0 != sys::TRACKED_PROP_SUCCESS
    }

    /// The wrapped code.
    pub closed spec fn spec_inner(self) -> sys::ETrackedPropertyError {
        self.0
    }

    /// Succeeds exactly on `TRACKED_PROP_SUCCESS`; any other code comes back as the error that
    /// wraps it.
    pub fn new(err: sys::ETrackedPropertyError) -> (r: Result<(), Self>)
        ensures
            r is Ok <==> err.0 == sys::TRACKED_PROP_SUCCESS,
            r matches Err(e) ==> e.spec_inner() == err,
    {
        if err.0 == sys::TRACKED_PROP_SUCCESS {
            Ok(())
        } else {
            Err(Self(err))
        }
    }

    /// No symbolic-name table is kept for property codes: every code reads as `Unmapped`.
    pub fn description(&self) -> (r: &'static str)
        ensures
            r@ == "Unmapped"@,
            r@.len() > 0,
    {
        proof {
            reveal_strlit("Unmapped");
        }
        "Unmapped"
    }

    /// A copy of the wrapped code, which is never `TRACKED_PROP_SUCCESS`.
    pub fn inner(&self) -> (r: sys::ETrackedPropertyError)
        ensures
            r == self.spec_inner(),
            r.0 != sys::TRACKED_PROP_SUCCESS,
    {
        proof {
            use_type_invariant(self);
        }
        self.0
    }

    /// The log line `ETrackedPropertyError(<numeric code>): Unmapped`.
    pub fn to_string(&self) -> (r: String)
        ensures
            r@ == display_text("ETrackedPropertyError"@, self.spec_inner().0 as nat, "Unmapped"@),
    {
        format_error("ETrackedPropertyError", self.0.0, self.description())
    }
}

/// A failure of the input subsystem: a code other than `VRInputError_None`.
#[derive(Clone, Copy, Debug, PartialEq, Eq)]
pub struct EVRInputError(sys::EVRInputError);

impl EVRInputError {
    #[verifier::type_invariant]
    spec fn never_success(self) -> bool {
        self.0 != sys::EVRInputError::VRInputError_None
    }

    /// The wrapped code.
    pub closed spec fn spec_inner(self) -> sys::EVRInputError {
        self.0
    }

    /// Succeeds exactly on `VRInputError_None`; any other code comes back as the error
    /// that wraps it.
    pub fn new(err: sys::EVRInputError) -> (r: Result<(), Self>)
        ensures
            r is Ok <==> err == sys::EVRInputError::VRInputError_None,
            r matches Err(e) ==> e.spec_inner() == err,
    {
        if err == sys::EVRInputError::VRInputError_None {
            Ok(())
        } else {
            Err(Self(err))
        }
    }

    /// The symbolic name of the wrapped code.
    pub fn description(&self) -> (r: &'static str)
        ensures
            r@ == self.spec_inner().spec_name(),
            r@.len() > 0,
    {
        proof {
            reveal_strlit("None");
            reveal_strlit("NameNotFound");
            reveal_strlit("WrongType");
            reveal_strlit("InvalidHandle");
            reveal_strlit("InvalidParam");
            reveal_strlit("NoSteam");
            reveal_strlit("MaxCapacityReached");
            reveal_strlit("IPCError");
            reveal_strlit("NoActiveActionSet");
            reveal_strlit("InvalidDevice");
            reveal_strlit("InvalidSkeleton");
            reveal_strlit("InvalidBoneCount");
            reveal_strlit("InvalidCompressedData");
            reveal_strlit("NoData");
            reveal_strlit("BufferTooSmall");
            reveal_strlit("MismatchedActionManifest");
            reveal_strlit("MissingSkeletonData");
            reveal_strlit("InvalidBoneIndex");
            reveal_strlit("InvalidPriority");
            reveal_strlit("PermissionDenied");
            reveal_strlit("InvalidRenderModel");
        }
        match self.0 {
            sys::EVRInputError::VRInputError_None => "None",
            sys::EVRInputError::VRInputError_NameNotFound => "NameNotFound",
            sys::EVRInputError::VRInputError_WrongType => "WrongType",
            sys::EVRInputError::VRInputError_InvalidHandle => "InvalidHandle",
            sys::EVRInputError::VRInputError_InvalidParam => "InvalidParam",
            sys::EVRInputError::VRInputError_NoSteam => "NoSteam",
            sys::EVRInputError::VRInputError_MaxCapacityReached => "MaxCapacityReached",
            sys::EVRInputError::VRInputError_IPCError => "IPCError",
            sys::EVRInputError::VRInputError_NoActiveActionSet => "NoActiveActionSet",
            sys::EVRInputError::VRInputError_InvalidDevice => "InvalidDevice",
            sys::EVRInputError::VRInputError_InvalidSkeleton => "InvalidSkeleton",
            sys::EVRInputError::VRInputError_InvalidBoneCount => "InvalidBoneCount",
            sys::EVRInputError::VRInputError_InvalidCompressedData => "InvalidCompressedData",
            sys::EVRInputError::VRInputError_NoData => "NoData",
            sys::EVRInputError::VRInputError_BufferTooSmall => "BufferTooSmall",
            sys::EVRInputError::VRInputError_MismatchedActionManifest => "MismatchedActionManifest",
            sys::EVRInputError::VRInputError_MissingSkeletonData => "MissingSkeletonData",
            sys::EVRInputError::VRInputError_InvalidBoneIndex => "InvalidBoneIndex",
            sys::EVRInputError::VRInputError_InvalidPriority => "InvalidPriority",
            sys::EVRInputError::VRInputError_PermissionDenied => "PermissionDenied",
            sys::EVRInputError::VRInputError_InvalidRenderModel => "InvalidRenderModel",
        }
    }

    /// A copy of the wrapped code, which is never `VRInputError_None`.
    pub fn inner(&self) -> (r: sys::EVRInputError)
        ensures
            r == self.spec_inner(),
            r != sys::EVRInputError::VRInputError_None,
    {
        proof {
            use_type_invariant(self);
        }
        self.0
    }

    /// The log line `EVRInputError(<numeric code>): <description>`.
    pub fn to_string(&self) -> (r: String)
        ensures
            r@ == display_text("EVRInputError"@, self.spec_inner().spec_code() as nat, self.spec_inner().spec_name()),
    {
        format_error("EVRInputError", self.0.code(), self.description())
    }
}

/// A failure of the applications subsystem: a code other than `VRApplicationError_None`.
#[derive(Clone, Copy, Debug, PartialEq, Eq)]
pub struct EVRApplicationError(sys::EVRApplicationError);

impl EVRApplicationError {
    #[verifier::type_invariant]
    spec fn never_success(self) -> bool {
        self.0 != sys::EVRApplicationError::VRApplicationError_None
    }

    /// The wrapped code.
    pub closed spec fn spec_inner(self) -> sys::EVRApplicationError {
        self.0
    }

    /// Succeeds exactly on `VRApplicationError_None`; any other code comes back as the error
    /// that wraps it.
    pub fn new(err: sys::EVRApplicationError) -> (r: Result<(), Self>)
        ensures
            r is Ok <==> err == sys::EVRApplicationError::VRApplicationError_None,
            r matches Err(e) ==> e.spec_inner() == err,
    {
        if err == sys::EVRApplicationError::VRApplicationError_None {
            Ok(())
        } else {
            Err(Self(err))
        }
    }

    /// The symbolic name of the wrapped code.
    pub fn description(&self) -> (r: &'static str)
        ensures
            r@ == self.spec_inner().spec_name(),
            r@.len() > 0,
    {
        proof {
            reveal_strlit("None");
            reveal_strlit("AppKeyAlreadyExists");
            reveal_strlit("NoManifest");
            reveal_strlit("NoApplication");
            reveal_strlit("InvalidIndex");
            reveal_strlit("UnknownApplication");
            reveal_strlit("IPCFailed");
            reveal_strlit("ApplicationAlreadyRunning");
            reveal_strlit("InvalidManifest");
            reveal_strlit("InvalidApplication");
            reveal_strlit("LaunchFailed");
            reveal_strlit("ApplicationAlreadyStarting");
            reveal_strlit("LaunchInProgress");
            reveal_strlit("OldApplicationQuitting");
            reveal_strlit("TransitionAborted");
            reveal_strlit("IsTemplate");
            reveal_strlit("SteamVRIsExiting");
            reveal_strlit("BufferTooSmall");
            reveal_strlit("PropertyNotSet");
            reveal_strlit("UnknownProperty");
            reveal_strlit("InvalidParameter");
            reveal_strlit("NotImplemented");
        }
        match self.0 {
            sys::EVRApplicationError::VRApplicationError_None => "None",
            sys::EVRApplicationError::VRApplicationError_AppKeyAlreadyExists => "AppKeyAlreadyExists",
            sys::EVRApplicationError::VRApplicationError_NoManifest => "NoManifest",
            sys::EVRApplicationError::VRApplicationError_NoApplication => "NoApplication",
            sys::EVRApplicationError::VRApplicationError_InvalidIndex => "InvalidIndex",
            sys::EVRApplicationError::VRApplicationError_UnknownApplication => "UnknownApplication",
            sys::EVRApplicationError::VRApplicationError_IPCFailed => "IPCFailed",
            sys::EVRApplicationError::VRApplicationError_ApplicationAlreadyRunning => "ApplicationAlreadyRunning",
            sys::EVRApplicationError::VRApplicationError_InvalidManifest => "InvalidManifest",
            sys::EVRApplicationError::VRApplicationError_InvalidApplication => "InvalidApplication",
            sys::EVRApplicationError::VRApplicationError_LaunchFailed => "LaunchFailed",
            sys::EVRApplicationError::VRApplicationError_ApplicationAlreadyStarting => "ApplicationAlreadyStarting",
            sys::EVRApplicationError::VRApplicationError_LaunchInProgress => "LaunchInProgress",
            sys::EVRApplicationError::VRApplicationError_OldApplicationQuitting => "OldApplicationQuitting",
            sys::EVRApplicationError::VRApplicationError_TransitionAborted => "TransitionAborted",
            sys::EVRApplicationError::VRApplicationError_IsTemplate => "IsTemplate",
            sys::EVRApplicationError::VRApplicationError_SteamVRIsExiting => "SteamVRIsExiting",
            sys::EVRApplicationError::VRApplicationError_BufferTooSmall => "BufferTooSmall",
            sys::EVRApplicationError::VRApplicationError_PropertyNotSet => "PropertyNotSet",
            sys::EVRApplicationError::VRApplicationError_UnknownProperty => "UnknownProperty",
            sys::EVRApplicationError::VRApplicationError_InvalidParameter => "InvalidParameter",
            sys::EVRApplicationError::VRApplicationError_NotImplemented => "NotImplemented",
        }
    }

    /// A copy of the wrapped code, which is never `VRApplicationError_None`.
    pub fn inner(&self) -> (r: sys::EVRApplicationError)
        ensures
            r == self.spec_inner(),
            r != sys::EVRApplicationError::VRApplicationError_None,
    {
        proof {
            use_type_invariant(self);
        }
        self.0
    }

    /// The log line `EVRApplicationError(<numeric code>): <description>`.
    pub fn to_string(&self) -> (r: String)
        ensures
            r@ == display_text("EVRApplicationError"@, self.spec_inner().spec_code() as nat, self.spec_inner().spec_name()),
    {
        format_error("EVRApplicationError", self.0.code(), self.description())
    }
}

} // verus!
