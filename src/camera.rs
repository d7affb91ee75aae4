use std::sync::Arc;
use vstd::prelude::*;
use crate::error::{QHYError, Operation, QHYCCD_ERROR, QHYCCD_SUCCESS, check_status, spec_check_status};
use crate::feature::{CameraFeature, CameraStreamMode, spec_feature_code};
use crate::firmware::{decode_firmware_version, firmware_version_text};
use crate::sdk::{Sdk, SdkCall, SdkState};

verus! {

/// Where a camera session stands.
///
/// A session is opened, given its stream mode and read mode, initialized, and then moves
/// between `Initialized` and one of the two capture states until it is
/// closed. `Closed` is final.
#[derive(Debug, Clone, Copy, PartialEq, Eq, Structural)]
pub enum CameraState {
    Opened,
    StreamConfigured,
    Initialized,
    Exposing,
    Live,
    Closed,
}

/// The device-scoped calls of a session.
#[derive(Debug, Clone, Copy, PartialEq, Eq, Structural)]
pub enum CameraCall {
    GetFirmwareVersion,
    IsFeatureSupported(CameraFeature),
    SetReadMode,
    SetStreamMode(CameraStreamMode),
    InitCamera,
    GetChipInfo,
    GetOverscanArea,
    GetEffectiveArea,
    SetBitMode,
    SetDebayer,
    SetBinMode,
    SetRoi(Area),
    SetParameter(CameraFeature),
    StartSingleExposure,
    GetImageSize,
    GetSingleFrame(usize),
    BeginLive,
    GetLiveFrame(usize),
    EndLive,
    Close,
}

/// A rectangle of the sensor, in pixels.
#[derive(Debug, Clone, Copy, PartialEq, Eq, Structural)]
pub struct Area {
    pub start_x: u32,
    pub start_y: u32,
    pub width: u32,
    pub height: u32,
}

/// Whether rectangle `inner` lies wholly within rectangle `outer`.
pub open spec fn spec_area_within(inner: Area, outer: Area) -> bool {
    &&& outer.start_x <= inner.start_x
    &&& outer.start_y <= inner.start_y
    &&& inner.start_x + inner.width <= outer.start_x + outer.width
    &&& inner.start_y + inner.height <= outer.start_y + outer.height
}

impl Area {
    /// Whether this rectangle lies wholly within `outer`, as a region of
    /// interest must lie within the effective area.
    pub fn is_within(&self, outer: &Area) -> (r: bool)
        ensures
            r == spec_area_within(*self, *outer),
    {
        outer.start_x <= self.start_x && outer.start_y <= self.start_y && self.start_x as u64
            + self.width as u64 <= outer.start_x as u64 + outer.width as u64 && self.start_y as u64
            + self.height as u64 <= outer.start_y as u64 + outer.height as u64
    }
}

/// The integer part of the sensor description: the full image size in
/// pixels and the bit depth.
#[derive(Debug, Clone, Copy, PartialEq, Eq, Structural)]
pub struct ChipResolution {
    pub image_width: u32,
    pub image_height: u32,
    pub bits_per_pixel: u32,
}

/// What the native frame read reports beside the pixel bytes.
#[derive(Debug, Clone, Copy, PartialEq, Eq, Structural)]
pub struct FrameFormat {
    pub width: u32,
    pub height: u32,
    pub bits_per_pixel: u32,
    pub channels: u32,
}

/// A captured frame: the pixel bytes and their layout.
#[derive(Debug, PartialEq)]
pub struct ImageData {
    pub data: Vec<u8>,
    pub width: u32,
    pub height: u32,
    pub bits_per_pixel: u32,
    pub channels: u32,
}

/// An open camera: the device identity, the native handle, and where the
/// session stands.
///
/// The handle is the native library's pointer-sized token; it is meaningful
/// only to that library and is valid from a successful open until a
/// successful close.
#[derive(Debug)]
pub struct QhyccdCamera {
    pub id: Arc<[u8; 32]>,
    pub handle: usize,
    state: CameraState,
    stream_mode: Option<CameraStreamMode>,
    read_mode_set: bool,
    image_size: Option<u32>,
    effective_area: Option<Area>,
    absent: Vec<u32>,
}

fn same_identity(a: &[u8; 32], b: &[u8; 32]) -> (r: bool)
    ensures
        r == (a@ == b@),
{
    let mut i: usize = 0;
    while i < 32
        invariant
            0 <= i <= 32,
            a@.len() == 32,
            b@.len() == 32,
            forall|j: int| 0 <= j < i ==> a@[j] == b@[j],
        decreases 32 - i,
    {
        if a[i] != b[i] {
            return false;
        }
        i = i + 1;
    }
    assert(a@ =~= b@);
    true
}

/// Two sessions are equal when they hold the same identity bytes and the
/// same handle.
impl PartialEq for QhyccdCamera {
    fn eq(&self, other: &QhyccdCamera) -> (r: bool) {
        same_identity(&self.id, &other.id) && self.handle == other.handle
    }
}

impl vstd::std_specs::cmp::PartialEqSpecImpl for QhyccdCamera {
    open spec fn obeys_eq_spec() -> bool {
        true
    }

    open spec fn eq_spec(&self, other: &QhyccdCamera) -> bool {
        self@.id == other@.id && self@.handle == other@.handle
    }
}

/// What a session holds: its identity bytes, handle, state, chosen stream
/// mode, whether a read mode has been written, the image size queried since the last configuration write, the
/// effective area if queried, and the codes of the features that the device reported absent at their latest
/// probe.
pub struct CameraView {
    pub id: Seq<u8>,
    pub handle: usize,
    pub state: CameraState,
    pub stream_mode: Option<CameraStreamMode>,
    pub read_mode_set: bool,
    pub image_size: Option<u32>,
    pub effective_area: Option<Area>,
    pub absent: Set<u32>,
}

impl View for QhyccdCamera {
    type V = CameraView;

    closed spec fn view(&self) -> CameraView {
        CameraView {
            id: self.id@,
            handle: self.handle,
            state: self.state,
            stream_mode: self.stream_mode,
            read_mode_set: self.read_mode_set,
            image_size: self.image_size,
            effective_area: self.effective_area,
            absent: Set::new(|c: u32| self.absent@.contains(c)),
        }
    }
}

/// Whether a session in state `st` has finished initialization.
pub open spec fn is_initialized(st: CameraState) -> bool {
    st == CameraState::Initialized || st == CameraState::Exposing || st == CameraState::Live
}

/// The reason why `call` may not be made on session `v` while the SDK is in
/// state `sdk`, or `None` when it may.
pub open spec fn spec_camera_refusal(sdk: SdkState, v: CameraView, call: CameraCall) -> Option<
    QHYError,
> {
    if sdk != SdkState::Ready {
        Some(QHYError::SdkStateError)
    } else if v.state == CameraState::Closed {
        Some(QHYError::CameraStateError)
    } else {
        match call {
            CameraCall::GetFirmwareVersion | CameraCall::IsFeatureSupported(_)
            | CameraCall::Close => None,
            CameraCall::SetReadMode | CameraCall::SetStreamMode(_) => if v.state
                == CameraState::Opened || v.state == CameraState::StreamConfigured {
                None
            } else {
                Some(QHYError::CameraStateError)
            },
            CameraCall::InitCamera => if v.state == CameraState::StreamConfigured && v.read_mode_set {
                None
            } else {
                Some(QHYError::CameraStateError)
            },
            CameraCall::GetChipInfo | CameraCall::GetOverscanArea | CameraCall::GetEffectiveArea
            | CameraCall::GetImageSize => if is_initialized(v.state) {
                None
            } else {
                Some(QHYError::CameraStateError)
            },
            CameraCall::SetRoi(roi) => if v.state != CameraState::Initialized {
                Some(QHYError::CameraStateError)
            } else if v.effective_area matches Some(e) && !spec_area_within(roi, e) {
                Some(QHYError::RoiOutsideEffectiveAreaError)
            } else {
                None
            },
            CameraCall::SetParameter(f) => if v.state != CameraState::Initialized {
                Some(QHYError::CameraStateError)
            } else if v.absent.contains(spec_feature_code(f)) {
                Some(QHYError::FeatureNotSupportedError)
            } else {
                None
            },
            CameraCall::StartSingleExposure => if v.state == CameraState::Initialized
                && v.stream_mode == Some(CameraStreamMode::SingleFrameMode) {
                None
            } else {
                Some(QHYError::CameraStateError)
            },
            CameraCall::BeginLive => if v.state == CameraState::Initialized && v.stream_mode
                == Some(CameraStreamMode::LiveMode) {
                None
            } else {
                Some(QHYError::CameraStateError)
            },
            CameraCall::GetSingleFrame(len) => if v.state != CameraState::Exposing {
                Some(QHYError::CameraStateError)
            } else if v.image_size == Some(len as u32) && len <= u32::MAX {
                None
            } else {
                Some(QHYError::ImageBufferSizeError)
            },
            CameraCall::GetLiveFrame(len) => if v.state != CameraState::Live {
                Some(QHYError::CameraStateError)
            } else if v.image_size == Some(len as u32) && len <= u32::MAX {
                None
            } else {
                Some(QHYError::ImageBufferSizeError)
            },
            CameraCall::EndLive => if v.state == CameraState::Live {
                None
            } else {
                Some(QHYError::CameraStateError)
            },
            _ => if v.state == CameraState::Initialized {
                None
            } else {
                Some(QHYError::CameraStateError)
            },
        }
    }
}

/// Whether `call` may be made on session `v` while the SDK is in state `sdk`.
pub open spec fn spec_camera_permits(sdk: SdkState, v: CameraView, call: CameraCall) -> bool {
    spec_camera_refusal(sdk, v, call) is None
}

/// Whether `call` writes the device configuration, which changes the size of
/// the image it delivers.
pub open spec fn is_configuration_write(call: CameraCall) -> bool {
    match call {
        CameraCall::SetBitMode | CameraCall::SetDebayer | CameraCall::SetBinMode
        | CameraCall::SetRoi(_) | CameraCall::SetParameter(_) => true,
        _ => false,
    }
}

/// The session after `call` returned `status`.
///
/// A configuration write forgets the queried image size whatever its status.
/// A feature probe records whether the feature is absent. An image size query
/// records the size unless it failed. Any other call changes the session only
/// on success.
pub open spec fn spec_next(v: CameraView, call: CameraCall, status: u32) -> CameraView {
    match call {
        CameraCall::SetBitMode | CameraCall::SetDebayer | CameraCall::SetBinMode
        | CameraCall::SetRoi(_) | CameraCall::SetParameter(_) => CameraView { image_size: None, ..v },
        CameraCall::IsFeatureSupported(f) => if status == QHYCCD_ERROR {
            CameraView { absent: v.absent.insert(spec_feature_code(f)), ..v }
        } else {
            CameraView { absent: v.absent.remove(spec_feature_code(f)), ..v }
        },
        CameraCall::GetImageSize => if status == QHYCCD_ERROR {
            v
        } else {
            CameraView { image_size: Some(status), ..v }
        },
        _ => if status != QHYCCD_SUCCESS {
            v
        } else {
            match call {
                CameraCall::SetReadMode => CameraView { read_mode_set: true, ..v },
                CameraCall::SetStreamMode(m) => CameraView {
                    state: CameraState::StreamConfigured,
                    stream_mode: Some(m),
                    ..v
                },
                CameraCall::InitCamera => CameraView { state: CameraState::Initialized, ..v },
                CameraCall::StartSingleExposure => CameraView {
                    state: CameraState::Exposing,
                    ..v
                },
                CameraCall::GetSingleFrame(_) => CameraView {
                    state: CameraState::Initialized,
                    ..v
                },
                CameraCall::BeginLive => CameraView { state: CameraState::Live, ..v },
                CameraCall::EndLive => CameraView { state: CameraState::Initialized, ..v },
                CameraCall::Close => CameraView { state: CameraState::Closed, ..v },
                _ => v,
            }
        },
    }
}

fn contains_code(v: &Vec<u32>, x: u32) -> (r: bool)
    ensures
        r == v@.contains(x),
{
    let mut i: usize = 0;
    while i < v.len()
        invariant
            0 <= i <= v@.len(),
            forall|j: int| 0 <= j < i ==> v@[j] != x,
        decreases v@.len() - i,
    {
        if v[i] == x {
            assert(v@[i as int] == x);
            return true;
        }
        i = i + 1;
    }
    false
}

fn without(v: &Vec<u32>, x: u32) -> (r: Vec<u32>)
    ensures
        forall|c: u32| r@.contains(c) <==> (v@.contains(c) && c != x),
{
    let mut out: Vec<u32> = Vec::new();
    let mut i: usize = 0;
    while i < v.len()
        invariant
            0 <= i <= v@.len(),
            forall|c: u32| out@.contains(c) <==> (c != x && exists|j: int| 0 <= j < i && v@[j] == c),
        decreases v@.len() - i,
    {
        let c = v[i];
        let ghost before = out@;
        if c != x {
            out.push(c);
        }
        proof {
            assert forall|d: u32| out@.contains(d) <==> (d != x && exists|j: int|
                0 <= j < i + 1 && v@[j] == d) by {
                if out@.contains(d) {
                    let k = choose|k: int| 0 <= k < out@.len() && out@[k] == d;
                    if k < before.len() {
                        assert(before.contains(d));
                    } else {
                        assert(v@[i as int] == d);
                    }
                }
                if d != x && exists|j: int| 0 <= j < i + 1 && v@[j] == d {
                    let j = choose|j: int| 0 <= j < i + 1 && v@[j] == d;
                    if j < i {
                        assert(before.contains(d));
                        let k = choose|k: int| 0 <= k < before.len() && before[k] == d;
                        assert(out@[k] == d);
                    } else {
                        assert(out@[out@.len() - 1] == d);
                    }
                }
            }
        }
        i = i + 1;
    }
    proof {
        assert forall|c: u32| out@.contains(c) <==> (v@.contains(c) && c != x) by {
            if v@.contains(c) {
                let j = choose|j: int| 0 <= j < v@.len() && v@[j] == c;
                assert(exists|j2: int| 0 <= j2 < v@.len() && v@[j2] == c);
            }
        }
    }
    out
}

/// A zeroed buffer of `len` bytes, for the native library to fill with a
/// frame.
pub fn frame_buffer(len: usize) -> (r: Vec<u8>)
    ensures
        r@.len() == len,
        forall|i: int| 0 <= i < len ==> r@[i] == 0,
{
    let mut buffer: Vec<u8> = Vec::with_capacity(len);
    let mut i: usize = 0;
    while i < len
        invariant
            0 <= i <= len,
            buffer@.len() == i,
            forall|j: int| 0 <= j < i ==> buffer@[j] == 0,
        decreases len - i,
    {
        buffer.push(0);
        i = i + 1;
    }
    buffer
}

impl QhyccdCamera {
    /// The session of a device just opened with `handle`.
    ///
    /// The native open call has no status of its own: a null handle is its
    /// failure, reported as the open error.
    pub fn open_camera(sdk: &Sdk, id: Arc<[u8; 32]>, handle: usize) -> (r: Result<
        QhyccdCamera,
        QHYError,
    >)
        requires
            crate::sdk::spec_sdk_permits(sdk@, SdkCall::OpenCamera),
        ensures
            handle == 0 ==> r == Err::<QhyccdCamera, QHYError>(QHYError::OpenCameraError),
            handle != 0 ==> (r matches Ok(cam) && cam@ == (CameraView {
                id: id@,
                handle,
                state: CameraState::Opened,
                stream_mode: None,
                read_mode_set: false,
                image_size: None,
                effective_area: None,
                absent: Set::empty(),
            })),
    {
        if handle == 0 {
            Err(QHYError::OpenCameraError)
        } else {
            let cam = QhyccdCamera {
                id,
                handle,
                state: CameraState::Opened,
                stream_mode: None,
                read_mode_set: false,
                image_size: None,
                effective_area: None,
                absent: Vec::new(),
            };
            assert(cam@.absent =~= Set::empty());
            Ok(cam)
        }
    }

    pub fn state(&self) -> (r: CameraState)
        ensures
            r == self@.state,
    {
        self.state
    }

    pub fn stream_mode(&self) -> (r: Option<CameraStreamMode>)
        ensures
            r == self@.stream_mode,
    {
        self.stream_mode
    }

    /// The image size queried since the latest configuration write, if any.
    pub fn image_size(&self) -> (r: Option<u32>)
        ensures
            r == self@.image_size,
    {
        self.image_size
    }

    /// Whether `call` may be made now: `Ok` when it may, else the reason.
    /// The native call is to be made only after `Ok`.
    pub fn authorize(&self, sdk: &Sdk, call: CameraCall) -> (r: Result<(), QHYError>)
        ensures
            r is Ok <==> spec_camera_permits(sdk@.state, self@, call),
            r is Err ==> r == Err::<(), QHYError>(spec_camera_refusal(sdk@.state, self@, call)->0),
    {
        if !matches!(sdk.state(), SdkState::Ready) {
            return Err(QHYError::SdkStateError);
        }
        if matches!(self.state, CameraState::Closed) {
            return Err(QHYError::CameraStateError);
        }
        let st = self.state;
        let initialized = matches!(st, CameraState::Initialized);
        match call {
            CameraCall::GetFirmwareVersion | CameraCall::IsFeatureSupported(_)
            | CameraCall::Close => Ok(()),
            CameraCall::SetReadMode | CameraCall::SetStreamMode(_) => if matches!(
                st,
                CameraState::Opened | CameraState::StreamConfigured
            ) {
                Ok(())
            } else {
                Err(QHYError::CameraStateError)
            },
            CameraCall::InitCamera => if matches!(st, CameraState::StreamConfigured)
                && self.read_mode_set {
                Ok(())
            } else {
                Err(QHYError::CameraStateError)
            },
            CameraCall::GetChipInfo | CameraCall::GetOverscanArea | CameraCall::GetEffectiveArea
            | CameraCall::GetImageSize => if matches!(
                st,
                CameraState::Initialized | CameraState::Exposing | CameraState::Live
            ) {
                Ok(())
            } else {
                Err(QHYError::CameraStateError)
            },
            CameraCall::SetRoi(roi) => if !initialized {
                Err(QHYError::CameraStateError)
            } else {
                match self.effective_area {
                    Some(e) => if roi.is_within(&e) {
                        Ok(())
                    } else {
                        Err(QHYError::RoiOutsideEffectiveAreaError)
                    },
                    None => Ok(()),
                }
            },
            CameraCall::SetParameter(f) => if !initialized {
                Err(QHYError::CameraStateError)
            } else if contains_code(&self.absent, f.code()) {
                Err(QHYError::FeatureNotSupportedError)
            } else {
                Ok(())
            },
            CameraCall::StartSingleExposure => if initialized && matches!(
                self.stream_mode,
                Some(CameraStreamMode::SingleFrameMode)
            ) {
                Ok(())
            } else {
                Err(QHYError::CameraStateError)
            },
            CameraCall::BeginLive => if initialized && matches!(
                self.stream_mode,
                Some(CameraStreamMode::LiveMode)
            ) {
                Ok(())
            } else {
                Err(QHYError::CameraStateError)
            },
            CameraCall::GetSingleFrame(len) => if !matches!(st, CameraState::Exposing) {
                Err(QHYError::CameraStateError)
            } else {
                self.check_frame_len(len)
            },
            CameraCall::GetLiveFrame(len) => if !matches!(st, CameraState::Live) {
                Err(QHYError::CameraStateError)
            } else {
                self.check_frame_len(len)
            },
            CameraCall::EndLive => if matches!(st, CameraState::Live) {
                Ok(())
            } else {
                Err(QHYError::CameraStateError)
            },
            _ => if initialized {
                Ok(())
            } else {
                Err(QHYError::CameraStateError)
            },
        }
    }

    fn check_frame_len(&self, len: usize) -> (r: Result<(), QHYError>)
        ensures
            r is Ok <==> (self@.image_size == Some(len as u32) && len <= u32::MAX),
            r is Err ==> r == Err::<(), QHYError>(QHYError::ImageBufferSizeError),
    {
        match self.image_size {
            Some(size) => if len <= u32::MAX as usize && size == len as u32 {
                Ok(())
            } else {
                Err(QHYError::ImageBufferSizeError)
            },
            None => Err(QHYError::ImageBufferSizeError),
        }
    }

    /// Moves the session on by the outcome of `call`.
    fn advance(&mut self, call: CameraCall, status: u32)
        ensures
            final(self)@ == spec_next(old(self)@, call, status),
    {
        match call {
            CameraCall::SetBitMode | CameraCall::SetDebayer | CameraCall::SetBinMode
            | CameraCall::SetRoi(_) | CameraCall::SetParameter(_) => {
                self.image_size = None;
            },
            CameraCall::IsFeatureSupported(f) => {
                let code = f.code();
                let ghost before = self.absent@;
                if status == QHYCCD_ERROR {
                    if !contains_code(&self.absent, code) {
                        self.absent.push(code);
                        proof {
                            assert forall|c: u32| self.absent@.contains(c) <==> (before.contains(c)
                                || c == code) by {
                                if self.absent@.contains(c) {
                                    let k = choose|k: int|
                                        0 <= k < self.absent@.len() && self.absent@[k] == c;
                                    if k < before.len() {
                                        assert(before.contains(c));
                                    }
                                }
                                if before.contains(c) {
                                    let k = choose|k: int| 0 <= k < before.len() && before[k] == c;
                                    assert(self.absent@[k] == c);
                                }
                                if c == code {
                                    assert(self.absent@[before.len() as int] == c);
                                }
                            }
                        }
                    }
                    assert(self@.absent =~= old(self)@.absent.insert(code));
                } else {
                    self.absent = without(&self.absent, code);
                    assert(self@.absent =~= old(self)@.absent.remove(code));
                }
            },
            CameraCall::GetImageSize => {
                if status != QHYCCD_ERROR {
                    self.image_size = Some(status);
                }
            },
            _ => {
                if status == QHYCCD_SUCCESS {
                    match call {
                        CameraCall::SetReadMode => {
                            self.read_mode_set = true;
                        },
                        CameraCall::SetStreamMode(m) => {
                            self.state = CameraState::StreamConfigured;
                            self.stream_mode = Some(m);
                        },
                        CameraCall::InitCamera => {
                            self.state = CameraState::Initialized;
                        },
                        CameraCall::StartSingleExposure => {
                            self.state = CameraState::Exposing;
                        },
                        CameraCall::GetSingleFrame(_) => {
                            self.state = CameraState::Initialized;
                        },
                        CameraCall::BeginLive => {
                            self.state = CameraState::Live;
                        },
                        CameraCall::EndLive => {
                            self.state = CameraState::Initialized;
                        },
                        CameraCall::Close => {
                            self.state = CameraState::Closed;
                        },
                        _ => {},
                    }
                }
            },
        }
    }

    /// The typed result of a plain native status, and the session moved on.
    fn finish(&mut self, op: Operation, call: CameraCall, status: u32) -> (r: Result<(), QHYError>)
        ensures
            r == spec_check_status(op, status),
            final(self)@ == spec_next(old(self)@, call, status),
    {
        self.advance(call, status);
        check_status(op, status)
    }

    /// The firmware version from the native query: on success the text that
    /// the first two bytes of its buffer encode, else the firmware error.
    pub fn get_firmware_version(&self, sdk: &Sdk, status: u32, raw: &[u8; 32]) -> (r: Result<
        String,
        QHYError,
    >)
        requires
            spec_camera_permits(sdk@.state, self@, CameraCall::GetFirmwareVersion),
        ensures
            status == QHYCCD_SUCCESS ==> (r matches Ok(text) && text@ == firmware_version_text(
                raw@[0],
                raw@[1],
            )),
            status != QHYCCD_SUCCESS ==> r == Err::<String, QHYError>(
                QHYError::GetFirmwareVersionError { error_code: status },
            ),
    {
        match check_status(Operation::GetFirmwareVersion, status) {
            Ok(()) => Ok(decode_firmware_version(raw[0], raw[1])),
            Err(e) => Err(e),
        }
    }

    /// Whether the device has `feature`, from the native probe: anything but
    /// the failure sentinel means it has. An absent feature is no error; it
    /// is recorded, and writes of it are refused until a later probe finds it.
    pub fn is_camera_feature_supported(&mut self, sdk: &Sdk, feature: CameraFeature, status: u32) -> (r: bool)
        requires
            spec_camera_permits(sdk@.state, old(self)@, CameraCall::IsFeatureSupported(feature)),
        ensures
            r == (status != QHYCCD_ERROR),
            final(self)@ == spec_next(old(self)@, CameraCall::IsFeatureSupported(feature), status),
    {
        self.advance(CameraCall::IsFeatureSupported(feature), status);
        status != QHYCCD_ERROR
    }

    /// Records the read mode write; on success the session has its read
    /// mode, which initialization needs.
    pub fn set_camera_read_mode(&mut self, sdk: &Sdk, status: u32) -> (r: Result<(), QHYError>)
        requires
            spec_camera_permits(sdk@.state, old(self)@, CameraCall::SetReadMode),
        ensures
            r == spec_check_status(Operation::SetReadMode, status),
            final(self)@ == spec_next(old(self)@, CameraCall::SetReadMode, status),
    {
        self.finish(Operation::SetReadMode, CameraCall::SetReadMode, status)
    }

    /// Records the stream mode write; on success the session is configured
    /// for `mode`'s capture branch.
    pub fn set_camera_stream_mode(&mut self, sdk: &Sdk, mode: CameraStreamMode, status: u32) -> (r: Result<(), QHYError>)
        requires
            spec_camera_permits(sdk@.state, old(self)@, CameraCall::SetStreamMode(mode)),
        ensures
            r == spec_check_status(Operation::SetStreamMode, status),
            final(self)@ == spec_next(old(self)@, CameraCall::SetStreamMode(mode), status),
    {
        self.finish(Operation::SetStreamMode, CameraCall::SetStreamMode(mode), status)
    }

    /// Records the device initialization; on success the session is initialized.
    pub fn init_camera(&mut self, sdk: &Sdk, status: u32) -> (r: Result<(), QHYError>)
        requires
            spec_camera_permits(sdk@.state, old(self)@, CameraCall::InitCamera),
        ensures
            r == spec_check_status(Operation::InitCamera, status),
            final(self)@ == spec_next(old(self)@, CameraCall::InitCamera, status),
    {
        self.finish(Operation::InitCamera, CameraCall::InitCamera, status)
    }

    /// The sensor resolution from the native chip query, or its error.
    pub fn get_camera_ccd_info(&self, sdk: &Sdk, status: u32, resolution: ChipResolution) -> (r: Result<ChipResolution, QHYError>)
        requires
            spec_camera_permits(sdk@.state, self@, CameraCall::GetChipInfo),
        ensures
            r == match spec_check_status(Operation::GetChipInfo, status) {
                Ok(()) => Ok(resolution),
                Err(e) => Err::<ChipResolution, QHYError>(e),
            },
    {
        match check_status(Operation::GetChipInfo, status) {
            Ok(()) => Ok(resolution),
            Err(e) => Err(e),
        }
    }

    /// The overscan area from the native query, or its error.
    pub fn get_camera_overscan_area(&self, sdk: &Sdk, status: u32, area: Area) -> (r: Result<Area, QHYError>)
        requires
            spec_camera_permits(sdk@.state, self@, CameraCall::GetOverscanArea),
        ensures
            r == match spec_check_status(Operation::GetOverscanArea, status) {
                Ok(()) => Ok(area),
                Err(e) => Err::<Area, QHYError>(e),
            },
    {
        match check_status(Operation::GetOverscanArea, status) {
            Ok(()) => Ok(area),
            Err(e) => Err(e),
        }
    }

    /// The effective area from the native query, or its error. On success
    /// the session records it, and a region of interest must then lie
    /// within it.
    pub fn get_camera_effective_area(&mut self, sdk: &Sdk, status: u32, area: Area) -> (r: Result<Area, QHYError>)
        requires
            spec_camera_permits(sdk@.state, old(self)@, CameraCall::GetEffectiveArea),
        ensures
            r == match spec_check_status(Operation::GetEffectiveArea, status) {
                Ok(()) => Ok(area),
                Err(e) => Err::<Area, QHYError>(e),
            },
            status == QHYCCD_SUCCESS ==> final(self)@ == (CameraView {
                effective_area: Some(area),
                ..old(self)@
            }),
            status != QHYCCD_SUCCESS ==> final(self)@ == old(self)@,
    {
        match check_status(Operation::GetEffectiveArea, status) {
            Ok(()) => {
                self.effective_area = Some(area);
                Ok(area)
            },
            Err(e) => Err(e),
        }
    }

    /// Records the bit depth write; the queried image size is forgotten.
    pub fn set_camera_bit_mode(&mut self, sdk: &Sdk, status: u32) -> (r: Result<(), QHYError>)
        requires
            spec_camera_permits(sdk@.state, old(self)@, CameraCall::SetBitMode),
        ensures
            r == spec_check_status(Operation::SetBitMode, status),
            final(self)@ == spec_next(old(self)@, CameraCall::SetBitMode, status),
    {
        self.finish(Operation::SetBitMode, CameraCall::SetBitMode, status)
    }

    /// Records the debayer switch; the queried image size is forgotten.
    pub fn set_camera_debayer_on_off(&mut self, sdk: &Sdk, status: u32) -> (r: Result<(), QHYError>)
        requires
            spec_camera_permits(sdk@.state, old(self)@, CameraCall::SetDebayer),
        ensures
            r == spec_check_status(Operation::SetDebayer, status),
            final(self)@ == spec_next(old(self)@, CameraCall::SetDebayer, status),
    {
        self.finish(Operation::SetDebayer, CameraCall::SetDebayer, status)
    }

    /// Records the bin mode write; the queried image size is forgotten.
    pub fn set_camera_bin_mode(&mut self, sdk: &Sdk, status: u32) -> (r: Result<(), QHYError>)
        requires
            spec_camera_permits(sdk@.state, old(self)@, CameraCall::SetBinMode),
        ensures
            r == spec_check_status(Operation::SetBinMode, status),
            final(self)@ == spec_next(old(self)@, CameraCall::SetBinMode, status),
    {
        self.finish(Operation::SetBinMode, CameraCall::SetBinMode, status)
    }

    /// Records the write of region of interest `roi`; the queried image size
    /// is forgotten.
    pub fn set_camera_roi(&mut self, sdk: &Sdk, roi: Area, status: u32) -> (r: Result<(), QHYError>)
        requires
            spec_camera_permits(sdk@.state, old(self)@, CameraCall::SetRoi(roi)),
        ensures
            r == spec_check_status(Operation::SetRoi, status),
            final(self)@ == spec_next(old(self)@, CameraCall::SetRoi(roi), status),
    {
        self.finish(Operation::SetRoi, CameraCall::SetRoi(roi), status)
    }

    /// Records a control value write of `feature`; the queried image size is
    /// forgotten. A feature that its latest probe found absent is refused by
    /// `authorize` before this point.
    pub fn set_camera_parameter(&mut self, sdk: &Sdk, feature: CameraFeature, status: u32) -> (r: Result<(), QHYError>)
        requires
            spec_camera_permits(sdk@.state, old(self)@, CameraCall::SetParameter(feature)),
        ensures
            r == spec_check_status(Operation::SetParameter, status),
            final(self)@ == spec_next(old(self)@, CameraCall::SetParameter(feature), status),
    {
        self.finish(Operation::SetParameter, CameraCall::SetParameter(feature), status)
    }

    /// Records the start of a single exposure; on success the session is exposing.
    pub fn start_camera_single_frame_exposure(&mut self, sdk: &Sdk, status: u32) -> (r: Result<(), QHYError>)
        requires
            spec_camera_permits(sdk@.state, old(self)@, CameraCall::StartSingleExposure),
        ensures
            r == spec_check_status(Operation::StartSingleExposure, status),
            final(self)@ == spec_next(old(self)@, CameraCall::StartSingleExposure, status),
    {
        self.finish(Operation::StartSingleExposure, CameraCall::StartSingleExposure, status)
    }

    /// The image size from the native query: the failure sentinel is the size
    /// error, any other value is the size, which the session records.
    pub fn get_camera_image_size(&mut self, sdk: &Sdk, size: u32) -> (r: Result<u32, QHYError>)
        requires
            spec_camera_permits(sdk@.state, old(self)@, CameraCall::GetImageSize),
        ensures
            size == QHYCCD_ERROR ==> r == Err::<u32, QHYError>(QHYError::GetImageSizeError),
            size != QHYCCD_ERROR ==> r == Ok::<u32, QHYError>(size),
            final(self)@ == spec_next(old(self)@, CameraCall::GetImageSize, size),
    {
        self.advance(CameraCall::GetImageSize, size);
        if size == QHYCCD_ERROR {
            Err(QHYError::GetImageSizeError)
        } else {
            Ok(size)
        }
    }

    /// The frame of a single exposure, read into `data`, whose length is the
    /// queried image size; on success the session is back to initialized.
    pub fn get_camera_single_frame(&mut self, sdk: &Sdk, status: u32, data: Vec<u8>, format: FrameFormat) -> (r: Result<ImageData, QHYError>)
        requires
            spec_camera_permits(sdk@.state, old(self)@, CameraCall::GetSingleFrame(data@.len() as usize)),
        ensures
            status == QHYCCD_SUCCESS ==> (r matches Ok(image) && image.data@ == data@
                && image.width == format.width && image.height == format.height
                && image.bits_per_pixel == format.bits_per_pixel
                && image.channels == format.channels
                && old(self)@.image_size == Some(image.data@.len() as u32)),
            status != QHYCCD_SUCCESS ==> r == Err::<ImageData, QHYError>(
                QHYError::GetCameraSingleFrameError { error_code: status },
            ),
            final(self)@ == spec_next(old(self)@, CameraCall::GetSingleFrame(data@.len() as usize), status),
    {
        let len = data.len();
        match self.finish(Operation::GetSingleFrame, CameraCall::GetSingleFrame(len), status) {
            Ok(()) => Ok(ImageData {
                data,
                width: format.width,
                height: format.height,
                bits_per_pixel: format.bits_per_pixel,
                channels: format.channels,
            }),
            Err(e) => Err(e),
        }
    }

    /// Records the start of live streaming; on success the session is live.
    pub fn begin_camera_live(&mut self, sdk: &Sdk, status: u32) -> (r: Result<(), QHYError>)
        requires
            spec_camera_permits(sdk@.state, old(self)@, CameraCall::BeginLive),
        ensures
            r == spec_check_status(Operation::BeginLive, status),
            final(self)@ == spec_next(old(self)@, CameraCall::BeginLive, status),
    {
        self.finish(Operation::BeginLive, CameraCall::BeginLive, status)
    }

    /// One frame of the live stream, read into `data`, whose length is the
    /// queried image size. A failure here is often only "not ready yet": the
    /// session stays live and the caller may poll again.
    pub fn get_camera_live_frame(&mut self, sdk: &Sdk, status: u32, data: Vec<u8>, format: FrameFormat) -> (r: Result<ImageData, QHYError>)
        requires
            spec_camera_permits(sdk@.state, old(self)@, CameraCall::GetLiveFrame(data@.len() as usize)),
        ensures
            status == QHYCCD_SUCCESS ==> (r matches Ok(image) && image.data@ == data@
                && image.width == format.width && image.height == format.height
                && image.bits_per_pixel == format.bits_per_pixel
                && image.channels == format.channels
                && old(self)@.image_size == Some(image.data@.len() as u32)),
            status != QHYCCD_SUCCESS ==> r == Err::<ImageData, QHYError>(
                QHYError::GetCameraLiveFrameError { error_code: status },
            ),
            final(self)@ == old(self)@,
    {
        let len = data.len();
        match self.finish(Operation::GetLiveFrame, CameraCall::GetLiveFrame(len), status) {
            Ok(()) => Ok(ImageData {
                data,
                width: format.width,
                height: format.height,
                bits_per_pixel: format.bits_per_pixel,
                channels: format.channels,
            }),
            Err(e) => Err(e),
        }
    }

    /// Records the end of live streaming; on success the session is back to initialized.
    pub fn end_camera_live(&mut self, sdk: &Sdk, status: u32) -> (r: Result<(), QHYError>)
        requires
            spec_camera_permits(sdk@.state, old(self)@, CameraCall::EndLive),
        ensures
            r == spec_check_status(Operation::EndLive, status),
            final(self)@ == spec_next(old(self)@, CameraCall::EndLive, status),
    {
        self.finish(Operation::EndLive, CameraCall::EndLive, status)
    }

    /// Records the close of the handle; on success the session is closed for good.
    pub fn close_camera(&mut self, sdk: &Sdk, status: u32) -> (r: Result<(), QHYError>)
        requires
            spec_camera_permits(sdk@.state, old(self)@, CameraCall::Close),
        ensures
            r == spec_check_status(Operation::CloseCamera, status),
            final(self)@ == spec_next(old(self)@, CameraCall::Close, status),
    {
        self.finish(Operation::CloseCamera, CameraCall::Close, status)
    }
}

/// What to do after one poll of the live stream.
#[derive(Debug, Clone, Copy, PartialEq, Eq, Structural)]
pub enum PollAction {
    /// The frame arrived.
    Deliver,
    /// The frame was not ready; poll again.
    Retry,
    /// A hard failure, or the attempts are spent.
    GiveUp,
}

/// How many times a caller polls the live stream before giving up.
#[derive(Debug, Clone, Copy, PartialEq, Eq, Structural)]
pub struct RetryPolicy {
    pub max_attempts: u32,
}

/// The action after poll number `attempt` (counted from 1) returned
/// `status`. The failure sentinel means "not ready" and is retried while
/// attempts remain; any other failure is final.
pub open spec fn spec_poll_action(policy: RetryPolicy, attempt: u32, status: u32) -> PollAction {
    if status == QHYCCD_SUCCESS {
        PollAction::Deliver
    } else if status == QHYCCD_ERROR && attempt < policy.max_attempts {
        PollAction::Retry
    } else {
        PollAction::GiveUp
    }
}

impl RetryPolicy {
    /// The action after poll number `attempt` (counted from 1) returned
    /// `status`.
    pub fn next_action(&self, attempt: u32, status: u32) -> (r: PollAction)
        ensures
            r == spec_poll_action(*self, attempt, status),
    {
        if status == QHYCCD_SUCCESS {
            PollAction::Deliver
        } else if status == QHYCCD_ERROR && attempt < self.max_attempts {
            PollAction::Retry
        } else {
            PollAction::GiveUp
        }
    }
}

/// A poll loop that follows the policy makes at most `max_attempts` polls,
/// and never retries after a hard failure.
pub proof fn lemma_poll_is_bounded(policy: RetryPolicy, attempt: u32, status: u32)
    ensures
        spec_poll_action(policy, attempt, status) == PollAction::Retry ==> attempt
            < policy.max_attempts,
        status != QHYCCD_SUCCESS && status != QHYCCD_ERROR ==> spec_poll_action(
            policy,
            attempt,
            status,
        ) == PollAction::GiveUp,
{
}

/// No call changes a session's identity bytes or handle, whatever it
/// returns: the identity given at open is the identity until close and after.
pub proof fn lemma_identity_is_kept(v: CameraView, call: CameraCall, status: u32)
    ensures
        spec_next(v, call, status).id == v.id,
        spec_next(v, call, status).handle == v.handle,
{
}

/// After a successful configuration write, a single exposure and an image
/// size query, the frame read is permitted for exactly one buffer length:
/// the queried size.
pub proof fn lemma_frame_length_is_queried_size(
    v: CameraView,
    write: CameraCall,
    size: u32,
    len: usize,
)
    requires
        is_configuration_write(write),
        spec_camera_permits(SdkState::Ready, v, write),
        v.stream_mode == Some(CameraStreamMode::SingleFrameMode),
        size != QHYCCD_ERROR,
    ensures
        ({
            let v1 = spec_next(v, write, QHYCCD_SUCCESS);
            let v2 = spec_next(v1, CameraCall::StartSingleExposure, QHYCCD_SUCCESS);
            let v3 = spec_next(v2, CameraCall::GetImageSize, size);
            &&& spec_camera_permits(SdkState::Ready, v1, CameraCall::StartSingleExposure)
            &&& spec_camera_permits(SdkState::Ready, v2, CameraCall::GetImageSize)
            &&& (spec_camera_permits(SdkState::Ready, v3, CameraCall::GetSingleFrame(len))
                <==> len == size)
        }),
{
}

/// A configuration write forgets the queried size: no frame can be read
/// until the size is queried again.
pub proof fn lemma_write_forgets_size(sdk: SdkState, v: CameraView, write: CameraCall, status: u32, len: usize)
    requires
        is_configuration_write(write),
    ensures
        !spec_camera_permits(sdk, spec_next(v, write, status), CameraCall::GetSingleFrame(len)),
        !spec_camera_permits(sdk, spec_next(v, write, status), CameraCall::GetLiveFrame(len)),
{
}

/// A probe that finds a feature absent makes writes of that feature refused
/// before they reach the device.
pub proof fn lemma_absent_feature_is_gated(v: CameraView, f: CameraFeature)
    requires
        v.state == CameraState::Initialized,
    ensures
        spec_camera_refusal(
            SdkState::Ready,
            spec_next(v, CameraCall::IsFeatureSupported(f), QHYCCD_ERROR),
            CameraCall::SetParameter(f),
        ) == Some(QHYError::FeatureNotSupportedError),
{
}

/// Once the effective area is known, a region of interest is refused
/// exactly when it leaves that area.
pub proof fn lemma_roi_within_effective_area(v: CameraView, roi: Area, effective: Area)
    requires
        v.state == CameraState::Initialized,
        v.effective_area == Some(effective),
    ensures
        spec_camera_permits(SdkState::Ready, v, CameraCall::SetRoi(roi)) <==> spec_area_within(
            roi,
            effective,
        ),
{
}

/// Initialization is permitted only once both the stream mode and the read
/// mode have been written, and only once per session.
pub proof fn lemma_init_needs_both_modes(v: CameraView)
    ensures
        spec_camera_permits(SdkState::Ready, v, CameraCall::InitCamera) <==> (v.state
            == CameraState::StreamConfigured && v.read_mode_set),
        spec_camera_permits(SdkState::Ready, v, CameraCall::InitCamera) ==> !spec_camera_permits(
            SdkState::Ready,
            spec_next(v, CameraCall::InitCamera, QHYCCD_SUCCESS),
            CameraCall::InitCamera,
        ),
{
}

/// Once a close has succeeded, a second close is refused with the camera
/// state error.
pub proof fn lemma_second_close_refused(v: CameraView)
    requires
        spec_camera_permits(SdkState::Ready, v, CameraCall::Close),
    ensures
        spec_camera_refusal(
            SdkState::Ready,
            spec_next(v, CameraCall::Close, QHYCCD_SUCCESS),
            CameraCall::Close,
        ) == Some(QHYError::CameraStateError),
{
}

} // verus!
