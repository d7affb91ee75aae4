use std::sync::Arc;
use vstd::prelude::*;
use crate::error::{QHYError, Operation, QHYCCD_ERROR, QHYCCD_SUCCESS, check_status, spec_check_status};

verus! {

/// Where the process-wide SDK stands in its lifecycle:
/// init, then any number of scans, then release.
#[derive(Debug, Clone, Copy, PartialEq, Eq, Structural)]
pub enum SdkState {
    Uninitialized,
    Ready,
    Released,
}

/// The SDK calls whose legality depends on the lifecycle.
#[derive(Debug, Clone, Copy, PartialEq, Eq, Structural)]
pub enum SdkCall {
    Init,
    Scan,
    GetCameraId(u32),
    OpenCamera,
    Release,
}

/// The lifecycle context of the native SDK.
///
/// One value stands for the process-wide SDK; every device operation takes it,
/// so that a call before `init_sdk` or after `release_sdk` is refused here
/// instead of reaching the native library.
#[derive(Debug)]
pub struct Sdk {
    state: SdkState,
    device_count: Option<u32>,
}

/// What an `Sdk` holds: its lifecycle state and the result of the latest
/// successful scan.
pub struct SdkView {
    pub state: SdkState,
    pub device_count: Option<u32>,
}

impl View for Sdk {
    type V = SdkView;

    closed spec fn view(&self) -> SdkView {
        SdkView { state: self.state, device_count: self.device_count }
    }
}

/// Why `call` may not be made now, or `None` when it may.
pub open spec fn spec_sdk_refusal(s: SdkView, call: SdkCall) -> Option<QHYError> {
    match call {
        SdkCall::Init => if s.state == SdkState::Uninitialized {
            None
        } else {
            Some(QHYError::SdkStateError)
        },
        SdkCall::GetCameraId(index) => if s.state != SdkState::Ready {
            Some(QHYError::SdkStateError)
        } else if s.device_count matches Some(n) && index < n {
            None
        } else {
            Some(QHYError::CameraIndexError)
        },
        _ => if s.state == SdkState::Ready {
            None
        } else {
            Some(QHYError::SdkStateError)
        },
    }
}

/// Whether `call` may be made now.
pub open spec fn spec_sdk_permits(s: SdkView, call: SdkCall) -> bool {
    spec_sdk_refusal(s, call) is None
}

/// `raw` with every byte after the first NUL set to NUL.
pub open spec fn nul_padded(raw: Seq<u8>) -> Seq<u8> {
    Seq::new(
        raw.len(),
        |i: int|
            if exists|k: int| 0 <= k <= i && raw[k] == 0 {
                0u8
            } else {
                raw[i]
            },
    )
}

/// Once a NUL occurs, only NULs follow.
pub open spec fn is_nul_padded(s: Seq<u8>) -> bool {
    forall|i: int, j: int| 0 <= i < j < s.len() && s[i] == 0 ==> s[j] == 0
}

/// Padding keeps the name before the first NUL and leaves a padded buffer.
pub proof fn lemma_nul_padded(raw: Seq<u8>)
    ensures
        is_nul_padded(nul_padded(raw)),
        nul_padded(raw).len() == raw.len(),
        forall|i: int|
            0 <= i < raw.len() && (forall|k: int| 0 <= k <= i ==> raw[k] != 0) ==> #[trigger] nul_padded(
                raw,
            )[i] == raw[i],
{
    let p = nul_padded(raw);
    assert forall|i: int, j: int| 0 <= i < j < p.len() && p[i] == 0 implies p[j] == 0 by {
        if raw[i] == 0 {
            assert(exists|k: int| 0 <= k <= j && raw[k] == 0);
        } else {
            let k = choose|k: int| 0 <= k <= i && raw[k] == 0;
            assert(0 <= k <= j && raw[k] == 0);
        }
    }
}

/// Padding a padded buffer leaves it as it is.
pub proof fn lemma_nul_padded_stable(s: Seq<u8>)
    requires
        is_nul_padded(s),
    ensures
        nul_padded(s) == s,
{
    assert forall|i: int| 0 <= i < s.len() implies nul_padded(s)[i] == s[i] by {
        if exists|k: int| 0 <= k <= i && s[k] == 0 {
            let k = choose|k: int| 0 <= k <= i && s[k] == 0;
            if k < i {
                assert(s[i] == 0);
            }
        }
    }
    assert(nul_padded(s) =~= s);
}

/// The 32-byte identity of a device, NUL-padded after its name.
pub fn identity_from_raw(raw: &[u8; 32]) -> (r: Arc<[u8; 32]>)
    ensures
        r@ == nul_padded(raw@),
        r@.len() == 32,
        is_nul_padded(r@),
{
    proof {
        lemma_nul_padded(raw@);
    }
    let mut id: [u8; 32] = *raw;
    let mut seen_nul = false;
    let mut i: usize = 0;
    while i < 32
        invariant
            0 <= i <= 32,
            id@.len() == 32,
            seen_nul <==> exists|k: int| 0 <= k < i && raw@[k] == 0,
            forall|j: int| 0 <= j < i ==> id@[j] == nul_padded(raw@)[j],
            forall|j: int| i <= j < 32 ==> id@[j] == raw@[j],
        decreases 32 - i,
    {
        if raw[i] == 0 {
            seen_nul = true;
        }
        if seen_nul {
            id[i] = 0;
        }
        proof {
            if raw@[i as int] == 0 {
                assert(exists|k: int| 0 <= k <= i && raw@[k] == 0);
            }
            if exists|k: int| 0 <= k <= i && raw@[k] == 0 {
                let k = choose|k: int| 0 <= k <= i && raw@[k] == 0;
                if k < i {
                    assert(exists|k2: int| 0 <= k2 < i && raw@[k2] == 0);
                }
            }
            if exists|k: int| 0 <= k < i && raw@[k] == 0 {
                let k = choose|k: int| 0 <= k < i && raw@[k] == 0;
                assert(0 <= k <= i && raw@[k] == 0);
            }
        }
        i = i + 1;
    }
    assert(id@ =~= nul_padded(raw@));
    Arc::new(id)
}

/// The version of the native library build.
#[derive(Debug, Clone, Copy, PartialEq, Eq, Structural)]
pub struct SDKVersion {
    pub year: u32,
    pub month: u32,
    pub day: u32,
    pub subday: u32,
}

/// The SDK version from the native version query: its four numbers on
/// success, else the version error with the native code.
pub fn get_sdk_version(status: u32, year: u32, month: u32, day: u32, subday: u32) -> (r: Result<
    SDKVersion,
    QHYError,
>)
    ensures
        status == QHYCCD_SUCCESS ==> r == Ok::<SDKVersion, QHYError>(
            SDKVersion { year, month, day, subday },
        ),
        status != QHYCCD_SUCCESS ==> r == Err::<SDKVersion, QHYError>(
            QHYError::GetSDKVersionError { error_code: status },
        ),
{
    match check_status(Operation::GetSdkVersion, status) {
        Ok(()) => Ok(SDKVersion { year, month, day, subday }),
        Err(e) => Err(e),
    }
}

impl Sdk {
    /// A context for an SDK that has not been initialized.
    pub fn new() -> (r: Sdk)
        ensures
            r@.state == SdkState::Uninitialized,
            r@.device_count is None,
    {
        Sdk { state: SdkState::Uninitialized, device_count: None }
    }

    pub fn state(&self) -> (r: SdkState)
        ensures
            r == self@.state,
    {
        self.state
    }

    /// The device count of the latest successful scan.
    pub fn device_count(&self) -> (r: Option<u32>)
        ensures
            r == self@.device_count,
    {
        self.device_count
    }

    /// Whether `call` may be made now: `Ok` when it may, else the reason.
    pub fn authorize(&self, call: SdkCall) -> (r: Result<(), QHYError>)
        ensures
            r is Ok <==> spec_sdk_permits(self@, call),
            r is Err ==> r == Err::<(), QHYError>(spec_sdk_refusal(self@, call)->0),
    {
        match call {
            SdkCall::Init => if matches!(self.state, SdkState::Uninitialized) {
                Ok(())
            } else {
                Err(QHYError::SdkStateError)
            },
            SdkCall::GetCameraId(index) => if !matches!(self.state, SdkState::Ready) {
                Err(QHYError::SdkStateError)
            } else {
                match self.device_count {
                    Some(n) => if index < n {
                        Ok(())
                    } else {
                        Err(QHYError::CameraIndexError)
                    },
                    None => Err(QHYError::CameraIndexError),
                }
            },
            _ => if matches!(self.state, SdkState::Ready) {
                Ok(())
            } else {
                Err(QHYError::SdkStateError)
            },
        }
    }

    /// Records the native resource initialization: ready on success, else
    /// unchanged with the initialization error.
    pub fn init_sdk(&mut self, status: u32) -> (r: Result<(), QHYError>)
        requires
            spec_sdk_permits(old(self)@, SdkCall::Init),
        ensures
            r == spec_check_status(Operation::InitSdk, status),
            status == QHYCCD_SUCCESS ==> final(self)@ == (SdkView {
                state: SdkState::Ready,
                device_count: None,
            }),
            status != QHYCCD_SUCCESS ==> final(self)@ == old(self)@,
    {
        let r = check_status(Operation::InitSdk, status);
        if r.is_ok() {
            self.state = SdkState::Ready;
            self.device_count = None;
        }
        r
    }

    /// Records a bus rescan that reported `found`: the failure sentinel is the
    /// scan error, any other value is the device count.
    pub fn scan_qhyccd(&mut self, found: u32) -> (r: Result<u32, QHYError>)
        requires
            spec_sdk_permits(old(self)@, SdkCall::Scan),
        ensures
            found == QHYCCD_ERROR ==> r == Err::<u32, QHYError>(QHYError::ScanQHYCCDError)
                && final(self)@ == old(self)@,
            found != QHYCCD_ERROR ==> r == Ok::<u32, QHYError>(found) && final(self)@ == (SdkView {
                state: SdkState::Ready,
                device_count: Some(found),
            }),
    {
        if found == QHYCCD_ERROR {
            Err(QHYError::ScanQHYCCDError)
        } else {
            self.device_count = Some(found);
            Ok(found)
        }
    }

    /// Records the identity lookup of device `index`: its NUL-padded 32-byte
    /// identity on success, else the lookup error with the native code.
    pub fn get_camera_id(&self, index: u32, status: u32, raw: &[u8; 32]) -> (r: Result<
        Arc<[u8; 32]>,
        QHYError,
    >)
        requires
            spec_sdk_permits(self@, SdkCall::GetCameraId(index)),
        ensures
            status == QHYCCD_SUCCESS ==> (r matches Ok(id) && id@ == nul_padded(raw@)),
            status != QHYCCD_SUCCESS ==> r == Err::<Arc<[u8; 32]>, QHYError>(
                QHYError::GetCameraIdError { error_code: status },
            ),
    {
        match check_status(Operation::GetCameraId, status) {
            Ok(()) => Ok(identity_from_raw(raw)),
            Err(e) => Err(e),
        }
    }

    /// Records the release of the native resources: released on success,
    /// after which no call is permitted; else unchanged.
    pub fn release_sdk(&mut self, status: u32) -> (r: Result<(), QHYError>)
        requires
            spec_sdk_permits(old(self)@, SdkCall::Release),
        ensures
            r == spec_check_status(Operation::ReleaseSdk, status),
            status == QHYCCD_SUCCESS ==> final(self)@ == (SdkView {
                state: SdkState::Released,
                device_count: None,
            }),
            status != QHYCCD_SUCCESS ==> final(self)@ == old(self)@,
    {
        let r = check_status(Operation::ReleaseSdk, status);
        if r.is_ok() {
            self.state = SdkState::Released;
            self.device_count = None;
        }
        r
    }
}

/// Before `init_sdk` nothing but `init_sdk` is permitted: a scan, a lookup,
/// an open or a release is refused with the SDK state error.
pub proof fn lemma_nothing_before_init(s: SdkView, call: SdkCall)
    requires
        s.state == SdkState::Uninitialized,
        call != SdkCall::Init,
    ensures
        spec_sdk_refusal(s, call) == Some(QHYError::SdkStateError),
{
}

/// After a successful release no call is permitted.
pub proof fn lemma_nothing_after_release(s: SdkView, call: SdkCall)
    requires
        s.state == SdkState::Released,
    ensures
        spec_sdk_refusal(s, call) == Some(QHYError::SdkStateError),
{
}

} // verus!
