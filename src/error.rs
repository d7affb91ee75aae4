use vstd::prelude::*;

verus! {

/// Function returned successfully.
pub const QHYCCD_SUCCESS: u32 = 0;

/// Function returned unsuccessfully; its meaning depends on the call.
pub const QHYCCD_ERROR: u32 = 0xFFFFFFFF;

/// The camera is using PCIE to transfer data
pub const QHYCCD_PCIE: u32 = 9;

/// The camera using WINPCAP to transfer data
pub const QHYCCD_WINPCAP: u32 = 8;

/// The camera is using GiGaE to transfer data
pub const QHYCCD_QGIGAE: u32 = 7;

/// The camera using usb sync to transfer data
pub const QHYCCD_USBSYNC: u32 = 6;

/// The camera using usb async to transfer data
pub const QHYCCD_USBASYNC: u32 = 5;

/// It is a color camera
pub const QHYCCD_COLOR: u32 = 4;

/// It is a monochrome camera
pub const QHYCCD_MONO: u32 = 3;

/// Camera has a cooler
pub const QHYCCD_COOL: u32 = 2;

/// Camera does not have a cooler
pub const QHYCCD_NOTCOO: u32 = 1;

/// Every way an operation of this crate can fail.
///
/// The variants that carry `error_code` report a non-success status of the
/// native call verbatim. The others are raised by this crate before any
/// native call is made, when the call would be out of order.
#[derive(Debug, Clone, Copy, PartialEq, Eq, Structural)]
pub enum QHYError {
    InitSDKError { error_code: u32 },
    GetSDKVersionError { error_code: u32 },
    ScanQHYCCDError,
    GetCameraIdError { error_code: u32 },
    OpenCameraError,
    GetFirmwareVersionError { error_code: u32 },
    SetCameraReadModeError { error_code: u32 },
    SetCameraStreamModeError { error_code: u32 },
    InitCameraError { error_code: u32 },
    GetCameraCCDInfoError { error_code: u32 },
    GetCameraOverscanAreaError { error_code: u32 },
    GetCameraEffectiveAreaError { error_code: u32 },
    SetCameraBitModeError { error_code: u32 },
    SetCameraDebayerOnOffError { error_code: u32 },
    SetCameraBinModeError { error_code: u32 },
    SetCameraSubFrameError { error_code: u32 },
    SetCameraParameterError { error_code: u32 },
    StartSingleFrameExposureError { error_code: u32 },
    GetCameraSingleFrameError { error_code: u32 },
    BeginCameraLiveError { error_code: u32 },
    EndCameraLiveError { error_code: u32 },
    GetImageSizeError,
    GetCameraLiveFrameError { error_code: u32 },
    CloseCameraError { error_code: u32 },
    ReleaseSDKError { error_code: u32 },
    /// The SDK is not in the state that the call needs (not initialized,
    /// initialized twice, or already released).
    SdkStateError,
    /// A camera index at or beyond the device count of the latest scan.
    CameraIndexError,
    /// The session is not in the state that the call needs (closed, not yet
    /// initialized, capturing, or configured for the other capture mode).
    CameraStateError,
    /// The device reported the feature absent at its latest probe.
    FeatureNotSupportedError,
    /// A region of interest that leaves the queried effective area.
    RoiOutsideEffectiveAreaError,
    /// A frame buffer whose length is not the image size queried last.
    ImageBufferSizeError,
}

/// The native calls whose status is a plain success-or-code.
#[derive(Debug, Clone, Copy, PartialEq, Eq, Structural)]
pub enum Operation {
    InitSdk,
    GetSdkVersion,
    GetCameraId,
    GetFirmwareVersion,
    SetReadMode,
    SetStreamMode,
    InitCamera,
    GetChipInfo,
    GetOverscanArea,
    GetEffectiveArea,
    SetBitMode,
    SetDebayer,
    SetBinMode,
    SetRoi,
    SetParameter,
    StartSingleExposure,
    GetSingleFrame,
    BeginLive,
    EndLive,
    GetLiveFrame,
    CloseCamera,
    ReleaseSdk,
}

/// The typed error that a failed `op` reports, carrying the native code.
pub open spec fn spec_error_for(op: Operation, code: u32) -> QHYError {
    match op {
        Operation::InitSdk => QHYError::InitSDKError { error_code: code },
        Operation::GetSdkVersion => QHYError::GetSDKVersionError { error_code: code },
        Operation::GetCameraId => QHYError::GetCameraIdError { error_code: code },
        Operation::GetFirmwareVersion => QHYError::GetFirmwareVersionError { error_code: code },
        Operation::SetReadMode => QHYError::SetCameraReadModeError { error_code: code },
        Operation::SetStreamMode => QHYError::SetCameraStreamModeError { error_code: code },
        Operation::InitCamera => QHYError::InitCameraError { error_code: code },
        Operation::GetChipInfo => QHYError::GetCameraCCDInfoError { error_code: code },
        Operation::GetOverscanArea => QHYError::GetCameraOverscanAreaError { error_code: code },
        Operation::GetEffectiveArea => QHYError::GetCameraEffectiveAreaError { error_code: code },
        Operation::SetBitMode => QHYError::SetCameraBitModeError { error_code: code },
        Operation::SetDebayer => QHYError::SetCameraDebayerOnOffError { error_code: code },
        Operation::SetBinMode => QHYError::SetCameraBinModeError { error_code: code },
        Operation::SetRoi => QHYError::SetCameraSubFrameError { error_code: code },
        Operation::SetParameter => QHYError::SetCameraParameterError { error_code: code },
        Operation::StartSingleExposure => QHYError::StartSingleFrameExposureError {
            error_code: code,
        },
        Operation::GetSingleFrame => QHYError::GetCameraSingleFrameError { error_code: code },
        Operation::BeginLive => QHYError::BeginCameraLiveError { error_code: code },
        Operation::EndLive => QHYError::EndCameraLiveError { error_code: code },
        Operation::GetLiveFrame => QHYError::GetCameraLiveFrameError { error_code: code },
        Operation::CloseCamera => QHYError::CloseCameraError { error_code: code },
        Operation::ReleaseSdk => QHYError::ReleaseSDKError { error_code: code },
    }
}

/// What a native status means for `op`: success on zero, else its error.
pub open spec fn spec_check_status(op: Operation, code: u32) -> Result<(), QHYError> {
    if code == QHYCCD_SUCCESS {
        Ok(())
    } else {
        Err(spec_error_for(op, code))
    }
}

/// The typed error that a failed `op` reports, carrying the native code.
pub fn error_for(op: Operation, code: u32) -> (r: QHYError)
    ensures
        r == spec_error_for(op, code),
{
    match op {
        Operation::InitSdk => QHYError::InitSDKError { error_code: code },
        Operation::GetSdkVersion => QHYError::GetSDKVersionError { error_code: code },
        Operation::GetCameraId => QHYError::GetCameraIdError { error_code: code },
        Operation::GetFirmwareVersion => QHYError::GetFirmwareVersionError { error_code: code },
        Operation::SetReadMode => QHYError::SetCameraReadModeError { error_code: code },
        Operation::SetStreamMode => QHYError::SetCameraStreamModeError { error_code: code },
        Operation::InitCamera => QHYError::InitCameraError { error_code: code },
        Operation::GetChipInfo => QHYError::GetCameraCCDInfoError { error_code: code },
        Operation::GetOverscanArea => QHYError::GetCameraOverscanAreaError { error_code: code },
        Operation::GetEffectiveArea => QHYError::GetCameraEffectiveAreaError { error_code: code },
        Operation::SetBitMode => QHYError::SetCameraBitModeError { error_code: code },
        Operation::SetDebayer => QHYError::SetCameraDebayerOnOffError { error_code: code },
        Operation::SetBinMode => QHYError::SetCameraBinModeError { error_code: code },
        Operation::SetRoi => QHYError::SetCameraSubFrameError { error_code: code },
        Operation::SetParameter => QHYError::SetCameraParameterError { error_code: code },
        Operation::StartSingleExposure => QHYError::StartSingleFrameExposureError {
            error_code: code,
        },
        Operation::GetSingleFrame => QHYError::GetCameraSingleFrameError { error_code: code },
        Operation::BeginLive => QHYError::BeginCameraLiveError { error_code: code },
        Operation::EndLive => QHYError::EndCameraLiveError { error_code: code },
        Operation::GetLiveFrame => QHYError::GetCameraLiveFrameError { error_code: code },
        Operation::CloseCamera => QHYError::CloseCameraError { error_code: code },
        Operation::ReleaseSdk => QHYError::ReleaseSDKError { error_code: code },
    }
}

/// Turns the native status of `op` into a result: `Ok` exactly on success,
/// otherwise the error of `op` carrying the code.
pub fn check_status(op: Operation, code: u32) -> (r: Result<(), QHYError>)
    ensures
        r == spec_check_status(op, code),
        r is Ok <==> code == QHYCCD_SUCCESS,
{
    if code == QHYCCD_SUCCESS {
        Ok(())
    } else {
        Err(error_for(op, code))
    }
}

/// The code that an error carries, if it came from a native call.
pub open spec fn spec_error_code(e: QHYError) -> Option<u32> {
    match e {
        QHYError::InitSDKError { error_code } => Some(error_code),
        QHYError::GetSDKVersionError { error_code } => Some(error_code),
        QHYError::GetCameraIdError { error_code } => Some(error_code),
        QHYError::GetFirmwareVersionError { error_code } => Some(error_code),
        QHYError::SetCameraReadModeError { error_code } => Some(error_code),
        QHYError::SetCameraStreamModeError { error_code } => Some(error_code),
        QHYError::InitCameraError { error_code } => Some(error_code),
        QHYError::GetCameraCCDInfoError { error_code } => Some(error_code),
        QHYError::GetCameraOverscanAreaError { error_code } => Some(error_code),
        QHYError::GetCameraEffectiveAreaError { error_code } => Some(error_code),
        QHYError::SetCameraBitModeError { error_code } => Some(error_code),
        QHYError::SetCameraDebayerOnOffError { error_code } => Some(error_code),
        QHYError::SetCameraBinModeError { error_code } => Some(error_code),
        QHYError::SetCameraSubFrameError { error_code } => Some(error_code),
        QHYError::SetCameraParameterError { error_code } => Some(error_code),
        QHYError::StartSingleFrameExposureError { error_code } => Some(error_code),
        QHYError::GetCameraSingleFrameError { error_code } => Some(error_code),
        QHYError::BeginCameraLiveError { error_code } => Some(error_code),
        QHYError::EndCameraLiveError { error_code } => Some(error_code),
        QHYError::GetCameraLiveFrameError { error_code } => Some(error_code),
        QHYError::CloseCameraError { error_code } => Some(error_code),
        QHYError::ReleaseSDKError { error_code } => Some(error_code),
        _ => None,
    }
}

impl QHYError {
    /// The raw native code this error carries, if it came from a native call.
    pub fn error_code(&self) -> (r: Option<u32>)
        ensures
            r == spec_error_code(*self),
    {
        match *self {
            QHYError::InitSDKError { error_code } => Some(error_code),
            QHYError::GetSDKVersionError { error_code } => Some(error_code),
            QHYError::GetCameraIdError { error_code } => Some(error_code),
            QHYError::GetFirmwareVersionError { error_code } => Some(error_code),
            QHYError::SetCameraReadModeError { error_code } => Some(error_code),
            QHYError::SetCameraStreamModeError { error_code } => Some(error_code),
            QHYError::InitCameraError { error_code } => Some(error_code),
            QHYError::GetCameraCCDInfoError { error_code } => Some(error_code),
            QHYError::GetCameraOverscanAreaError { error_code } => Some(error_code),
            QHYError::GetCameraEffectiveAreaError { error_code } => Some(error_code),
            QHYError::SetCameraBitModeError { error_code } => Some(error_code),
            QHYError::SetCameraDebayerOnOffError { error_code } => Some(error_code),
            QHYError::SetCameraBinModeError { error_code } => Some(error_code),
            QHYError::SetCameraSubFrameError { error_code } => Some(error_code),
            QHYError::SetCameraParameterError { error_code } => Some(error_code),
            QHYError::StartSingleFrameExposureError { error_code } => Some(error_code),
            QHYError::GetCameraSingleFrameError { error_code } => Some(error_code),
            QHYError::BeginCameraLiveError { error_code } => Some(error_code),
            QHYError::EndCameraLiveError { error_code } => Some(error_code),
            QHYError::GetCameraLiveFrameError { error_code } => Some(error_code),
            QHYError::CloseCameraError { error_code } => Some(error_code),
            QHYError::ReleaseSDKError { error_code } => Some(error_code),
            _ => None,
        }
    }
}

/// A failed native call reports the very code it was given.
pub proof fn lemma_error_keeps_code(op: Operation, code: u32)
    ensures
        spec_error_code(spec_error_for(op, code)) == Some(code),
{
}

} // verus!
