use std::sync::Arc;

use libqhyccd_sys::camera::{
    frame_buffer, Area, CameraCall, CameraState, ChipResolution, FrameFormat, PollAction,
    QhyccdCamera, RetryPolicy,
};
use libqhyccd_sys::error::{check_status, error_for, Operation, QHYError, QHYCCD_ERROR};
use libqhyccd_sys::feature::{CameraFeature, CameraStreamMode};
use libqhyccd_sys::firmware::decode_firmware_version;
use libqhyccd_sys::sdk::{get_sdk_version, identity_from_raw, SDKVersion, Sdk, SdkCall, SdkState};

const HANDLE: usize = 0x5000;

fn raw_id(name: &[u8]) -> [u8; 32] {
    let mut raw = [0u8; 32];
    raw[..name.len()].copy_from_slice(name);
    raw
}

fn ready_sdk(devices: u32) -> Sdk {
    let mut sdk = Sdk::new();
    assert!(sdk.authorize(SdkCall::Init).is_ok());
    sdk.init_sdk(0).unwrap();
    assert!(sdk.authorize(SdkCall::Scan).is_ok());
    sdk.scan_qhyccd(devices).unwrap();
    sdk
}

fn initialized_camera(sdk: &Sdk, mode: CameraStreamMode) -> QhyccdCamera {
    let id = sdk.get_camera_id(0, 0, &raw_id(b"QHY178M-222b16468c5966524")).unwrap();
    let mut camera = QhyccdCamera::open_camera(sdk, id, HANDLE).unwrap();
    camera.set_camera_stream_mode(sdk, mode, 0).unwrap();
    camera.set_camera_read_mode(sdk, 0).unwrap();
    camera.init_camera(sdk, 0).unwrap();
    camera
}

#[test]
fn it_works() {
    let result = get_sdk_version(0, 23, 9, 6, 14);
    assert!(result.is_ok());
    assert_eq!(result.unwrap(), SDKVersion { year: 23, month: 9, day: 6, subday: 14 });
    let mut sdk = Sdk::new();
    assert!(sdk.authorize(SdkCall::Init).is_ok());
    let result = sdk.init_sdk(0);
    assert!(result.is_ok());
    assert!(sdk.authorize(SdkCall::Scan).is_ok());
    let result = sdk.scan_qhyccd(1);
    assert_eq!(result.unwrap(), 1);
    assert!(sdk.authorize(SdkCall::GetCameraId(0)).is_ok());
    let result = sdk.get_camera_id(0, 0, &raw_id(b"QHY178M-222b16468c5966524"));
    assert!(result.is_ok());
    let id = result.unwrap();
    assert_eq!(id.as_slice(), b"QHY178M-222b16468c5966524\0\0\0\0\0\0\0");
    assert!(sdk.authorize(SdkCall::OpenCamera).is_ok());
    let mut camera = QhyccdCamera::open_camera(&sdk, id.clone(), HANDLE).unwrap();
    assert_eq!(camera.id, id);
    let mut fw = [0u8; 32];
    fw[0] = 0x69;
    fw[1] = 5;
    let result = camera.get_firmware_version(&sdk, 0, &fw);
    assert!(result.is_ok());
    assert_eq!(result.unwrap(), "Firmware version: 2022_9_5");
    let result = camera.is_camera_feature_supported(&sdk, CameraFeature::CamLiveVideoMode, 0);
    assert!(result);
    let result = camera.set_camera_read_mode(&sdk, 0);
    assert!(result.is_ok());
    let result = camera.set_camera_stream_mode(&sdk, CameraStreamMode::LiveMode, 0);
    assert!(result.is_ok());
    let result = camera.init_camera(&sdk, 0);
    assert!(result.is_ok());
    let resolution = ChipResolution { image_width: 3056, image_height: 2048, bits_per_pixel: 8 };
    let result = camera.get_camera_ccd_info(&sdk, 0, resolution);
    assert!(result.is_ok());
    assert_eq!(
        result.unwrap(),
        ChipResolution { image_width: 3056, image_height: 2048, bits_per_pixel: 8 }
    );
    assert!(camera.is_camera_feature_supported(&sdk, CameraFeature::ControlTransferbit, 0));
    assert!(camera.set_camera_bit_mode(&sdk, 0).is_ok());
    assert!(camera.set_camera_debayer_on_off(&sdk, 0).is_ok());
    assert!(camera.set_camera_bin_mode(&sdk, 0).is_ok());
    let roi = Area { start_x: 0, start_y: 0, width: 3056, height: 2048 };
    assert!(camera.set_camera_roi(&sdk, roi, 0).is_ok());
    for feature in [
        CameraFeature::ControlTransferbit,
        CameraFeature::ControlExposure,
        CameraFeature::ControlUsbTraffic,
        CameraFeature::ControlDDR,
    ] {
        assert!(camera.authorize(&sdk, CameraCall::SetParameter(feature)).is_ok());
        assert!(camera.set_camera_parameter(&sdk, feature, 0).is_ok());
    }
    assert!(camera.authorize(&sdk, CameraCall::BeginLive).is_ok());
    let result = camera.begin_camera_live(&sdk, 0);
    assert!(result.is_ok());
    let result = camera.get_camera_image_size(&sdk, 27116352);
    assert!(result.is_ok());
    let size = result.unwrap();
    assert_eq!(size, 27116352);

    let format = FrameFormat { width: 3056, height: 2048, bits_per_pixel: 8, channels: 1 };
    let mut statuses = vec![QHYCCD_ERROR, 0].into_iter();
    loop {
        assert!(camera.authorize(&sdk, CameraCall::GetLiveFrame(size as usize)).is_ok());
        let buffer = frame_buffer(size as usize);
        let result = camera.get_camera_live_frame(&sdk, statuses.next().unwrap(), buffer, format);
        if result.is_err() {
            continue;
        }
        let image = result.unwrap();
        assert_eq!(image.data.len(), size as usize);
        assert_eq!(image.width, 3056);
        assert_eq!(image.height, 2048);
        assert_eq!(image.bits_per_pixel, 8);
        assert_eq!(image.channels, 1);
        break;
    }
}

#[test]
fn firmware_low_nibble_branch() {
    assert_eq!(decode_firmware_version(0x22, 0x05), "Firmware version: 2018_2_5");
    assert_eq!(decode_firmware_version(0x00, 0x00), "Firmware version: 2016_0_0");
    assert_eq!(decode_firmware_version(0x9C, 31), "Firmware version: 2025_12_31");
}

#[test]
fn firmware_high_nibble_branch() {
    assert_eq!(decode_firmware_version(0xA3, 0x07), "Firmware version: 2010_3_7");
    assert_eq!(decode_firmware_version(0xFF, 0xFF), "Firmware version: 2015_15_255");
}

#[test]
fn firmware_read_error_keeps_code() {
    let sdk = ready_sdk(1);
    let id = sdk.get_camera_id(0, 0, &raw_id(b"QHY5")).unwrap();
    let camera = QhyccdCamera::open_camera(&sdk, id, HANDLE).unwrap();
    let result = camera.get_firmware_version(&sdk, 7, &[0u8; 32]);
    assert_eq!(result, Err(QHYError::GetFirmwareVersionError { error_code: 7 }));
}

#[test]
fn identity_is_nul_padded() {
    let mut raw = raw_id(b"QHY600M");
    raw[20] = b'x';
    raw[31] = 0xEE;
    let id = identity_from_raw(&raw);
    assert_eq!(id.len(), 32);
    assert_eq!(&id[..7], b"QHY600M");
    assert!(id[7..].iter().all(|b| *b == 0));
    let full = [b'A'; 32];
    assert_eq!(*identity_from_raw(&full), full);
}

#[test]
fn identity_survives_open_and_close() {
    let sdk = ready_sdk(1);
    let id = sdk.get_camera_id(0, 0, &raw_id(b"QHY268C-abc")).unwrap();
    let before: [u8; 32] = *id;
    let mut camera = QhyccdCamera::open_camera(&sdk, Arc::clone(&id), HANDLE).unwrap();
    camera.close_camera(&sdk, 0).unwrap();
    assert_eq!(*camera.id, before);
    assert_eq!(*id, before);
    assert_eq!(camera.handle, HANDLE);
}

#[test]
fn frame_length_equals_queried_size() {
    let sdk = ready_sdk(1);
    let mut camera = initialized_camera(&sdk, CameraStreamMode::SingleFrameMode);
    camera.set_camera_roi(&sdk, Area { start_x: 0, start_y: 0, width: 32, height: 16 }, 0).unwrap();
    camera.set_camera_bin_mode(&sdk, 0).unwrap();
    camera.set_camera_bit_mode(&sdk, 0).unwrap();
    camera.start_camera_single_frame_exposure(&sdk, 0).unwrap();
    let size = camera.get_camera_image_size(&sdk, 1024).unwrap();
    assert_eq!(
        camera.authorize(&sdk, CameraCall::GetSingleFrame(1000)),
        Err(QHYError::ImageBufferSizeError)
    );
    assert!(camera.authorize(&sdk, CameraCall::GetSingleFrame(size as usize)).is_ok());
    let format = FrameFormat { width: 32, height: 16, bits_per_pixel: 16, channels: 1 };
    let image = camera
        .get_camera_single_frame(&sdk, 0, frame_buffer(size as usize), format)
        .unwrap();
    assert_eq!(image.data.len(), 1024);
    assert_eq!(camera.state(), CameraState::Initialized);
}

#[test]
fn configuration_write_forgets_size() {
    let sdk = ready_sdk(1);
    let mut camera = initialized_camera(&sdk, CameraStreamMode::SingleFrameMode);
    camera.get_camera_image_size(&sdk, 4096).unwrap();
    assert_eq!(camera.image_size(), Some(4096));
    camera.set_camera_bit_mode(&sdk, 0).unwrap();
    assert_eq!(camera.image_size(), None);
    camera.start_camera_single_frame_exposure(&sdk, 0).unwrap();
    assert_eq!(
        camera.authorize(&sdk, CameraCall::GetSingleFrame(4096)),
        Err(QHYError::ImageBufferSizeError)
    );
    assert_eq!(camera.get_camera_image_size(&sdk, QHYCCD_ERROR), Err(QHYError::GetImageSizeError));
}

#[test]
fn absent_feature_is_false_and_gated() {
    let sdk = ready_sdk(1);
    let mut camera = initialized_camera(&sdk, CameraStreamMode::SingleFrameMode);
    assert!(!camera.is_camera_feature_supported(&sdk, CameraFeature::ControlCooler, QHYCCD_ERROR));
    assert_eq!(
        camera.authorize(&sdk, CameraCall::SetParameter(CameraFeature::ControlCooler)),
        Err(QHYError::FeatureNotSupportedError)
    );
    assert!(camera.authorize(&sdk, CameraCall::SetParameter(CameraFeature::ControlGain)).is_ok());
    assert!(camera.is_camera_feature_supported(&sdk, CameraFeature::ControlCooler, 0));
    assert!(camera.authorize(&sdk, CameraCall::SetParameter(CameraFeature::ControlCooler)).is_ok());
}

#[test]
fn single_frame_scenario() {
    let mut sdk = Sdk::new();
    sdk.init_sdk(0).unwrap();
    assert_eq!(sdk.scan_qhyccd(1), Ok(1));
    assert!(sdk.authorize(SdkCall::GetCameraId(0)).is_ok());
    let id = sdk.get_camera_id(0, 0, &raw_id(b"QHY178M-222b16468c5966524")).unwrap();
    let mut camera = QhyccdCamera::open_camera(&sdk, id, HANDLE).unwrap();
    assert!(camera.is_camera_feature_supported(&sdk, CameraFeature::CamSingleFrameMode, 0));
    camera.set_camera_stream_mode(&sdk, CameraStreamMode::SingleFrameMode, 0).unwrap();
    camera.set_camera_read_mode(&sdk, 0).unwrap();
    camera.init_camera(&sdk, 0).unwrap();
    let effective = Area { start_x: 12, start_y: 8, width: 3056, height: 2048 };
    let area = camera.get_camera_effective_area(&sdk, 0, effective).unwrap();
    camera.set_camera_parameter(&sdk, CameraFeature::ControlExposure, 0).unwrap();
    camera.set_camera_roi(&sdk, area, 0).unwrap();
    camera.start_camera_single_frame_exposure(&sdk, 0).unwrap();
    let size = camera.get_camera_image_size(&sdk, area.width * area.height * 2).unwrap();
    let format =
        FrameFormat { width: area.width, height: area.height, bits_per_pixel: 16, channels: 1 };
    let image = camera
        .get_camera_single_frame(&sdk, 0, frame_buffer(size as usize), format)
        .unwrap();
    assert_eq!(image.width, 3056);
    assert_eq!(image.height, 2048);
    assert_eq!(image.bits_per_pixel, 16);
    assert_eq!(image.data.len(), 3056 * 2048 * 2);
    camera.close_camera(&sdk, 0).unwrap();
    assert!(sdk.authorize(SdkCall::Release).is_ok());
    sdk.release_sdk(0).unwrap();
    assert_eq!(sdk.state(), SdkState::Released);
}

#[test]
fn second_close_is_a_state_error() {
    let sdk = ready_sdk(1);
    let id = sdk.get_camera_id(0, 0, &raw_id(b"QHY5")).unwrap();
    let mut camera = QhyccdCamera::open_camera(&sdk, id, HANDLE).unwrap();
    assert!(camera.authorize(&sdk, CameraCall::Close).is_ok());
    camera.close_camera(&sdk, 0).unwrap();
    assert_eq!(camera.authorize(&sdk, CameraCall::Close), Err(QHYError::CameraStateError));
}

#[test]
fn failed_close_leaves_session_open() {
    let sdk = ready_sdk(1);
    let id = sdk.get_camera_id(0, 0, &raw_id(b"QHY5")).unwrap();
    let mut camera = QhyccdCamera::open_camera(&sdk, id, HANDLE).unwrap();
    assert_eq!(camera.close_camera(&sdk, 3), Err(QHYError::CloseCameraError { error_code: 3 }));
    assert_eq!(camera.state(), CameraState::Opened);
    assert!(camera.authorize(&sdk, CameraCall::Close).is_ok());
}

#[test]
fn scan_before_init_is_refused() {
    let sdk = Sdk::new();
    assert_eq!(sdk.authorize(SdkCall::Scan), Err(QHYError::SdkStateError));
    assert_eq!(sdk.authorize(SdkCall::GetCameraId(0)), Err(QHYError::SdkStateError));
    assert_eq!(sdk.authorize(SdkCall::OpenCamera), Err(QHYError::SdkStateError));
    assert_eq!(sdk.authorize(SdkCall::Release), Err(QHYError::SdkStateError));
    assert!(sdk.authorize(SdkCall::Init).is_ok());
}

#[test]
fn init_twice_and_use_after_release_are_refused() {
    let mut sdk = ready_sdk(2);
    assert_eq!(sdk.authorize(SdkCall::Init), Err(QHYError::SdkStateError));
    let id = sdk.get_camera_id(1, 0, &raw_id(b"QHY5")).unwrap();
    let camera = QhyccdCamera::open_camera(&sdk, id, HANDLE).unwrap();
    sdk.release_sdk(0).unwrap();
    assert_eq!(sdk.authorize(SdkCall::Scan), Err(QHYError::SdkStateError));
    assert_eq!(
        camera.authorize(&sdk, CameraCall::GetFirmwareVersion),
        Err(QHYError::SdkStateError)
    );
}

#[test]
fn init_failure_keeps_sdk_uninitialized() {
    let mut sdk = Sdk::new();
    assert_eq!(sdk.init_sdk(12), Err(QHYError::InitSDKError { error_code: 12 }));
    assert_eq!(sdk.state(), SdkState::Uninitialized);
}

#[test]
fn scan_results() {
    let mut sdk = Sdk::new();
    sdk.init_sdk(0).unwrap();
    assert_eq!(sdk.scan_qhyccd(QHYCCD_ERROR), Err(QHYError::ScanQHYCCDError));
    assert_eq!(sdk.device_count(), None);
    assert_eq!(sdk.scan_qhyccd(0), Ok(0));
    assert_eq!(sdk.authorize(SdkCall::GetCameraId(0)), Err(QHYError::CameraIndexError));
    assert_eq!(sdk.scan_qhyccd(2), Ok(2));
    assert!(sdk.authorize(SdkCall::GetCameraId(1)).is_ok());
    assert_eq!(sdk.authorize(SdkCall::GetCameraId(2)), Err(QHYError::CameraIndexError));
    assert_eq!(
        sdk.get_camera_id(1, 9, &[0u8; 32]),
        Err(QHYError::GetCameraIdError { error_code: 9 })
    );
}

#[test]
fn sdk_version_error() {
    assert_eq!(get_sdk_version(5, 1, 2, 3, 4), Err(QHYError::GetSDKVersionError { error_code: 5 }));
}

#[test]
fn null_handle_is_open_error() {
    let sdk = ready_sdk(1);
    let id = sdk.get_camera_id(0, 0, &raw_id(b"QHY5")).unwrap();
    assert!(matches!(QhyccdCamera::open_camera(&sdk, id, 0), Err(QHYError::OpenCameraError)));
}

#[test]
fn order_of_session_calls_is_enforced() {
    let sdk = ready_sdk(1);
    let id = sdk.get_camera_id(0, 0, &raw_id(b"QHY5")).unwrap();
    let mut camera = QhyccdCamera::open_camera(&sdk, id, HANDLE).unwrap();
    assert_eq!(camera.authorize(&sdk, CameraCall::InitCamera), Err(QHYError::CameraStateError));
    assert_eq!(camera.authorize(&sdk, CameraCall::SetRoi(Area { start_x: 0, start_y: 0, width: 1, height: 1 })), Err(QHYError::CameraStateError));
    camera.set_camera_stream_mode(&sdk, CameraStreamMode::LiveMode, 0).unwrap();
    assert_eq!(camera.authorize(&sdk, CameraCall::InitCamera), Err(QHYError::CameraStateError));
    camera.set_camera_read_mode(&sdk, 0).unwrap();
    assert!(camera.authorize(&sdk, CameraCall::InitCamera).is_ok());
    assert_eq!(camera.init_camera(&sdk, 4), Err(QHYError::InitCameraError { error_code: 4 }));
    assert_eq!(camera.state(), CameraState::StreamConfigured);
    camera.init_camera(&sdk, 0).unwrap();
    assert_eq!(camera.authorize(&sdk, CameraCall::InitCamera), Err(QHYError::CameraStateError));
    assert_eq!(
        camera.authorize(&sdk, CameraCall::SetStreamMode(CameraStreamMode::SingleFrameMode)),
        Err(QHYError::CameraStateError)
    );
    assert_eq!(
        camera.authorize(&sdk, CameraCall::StartSingleExposure),
        Err(QHYError::CameraStateError)
    );
    assert!(camera.authorize(&sdk, CameraCall::BeginLive).is_ok());
    camera.begin_camera_live(&sdk, 0).unwrap();
    assert_eq!(camera.authorize(&sdk, CameraCall::SetBitMode), Err(QHYError::CameraStateError));
    assert_eq!(camera.end_camera_live(&sdk, 6), Err(QHYError::EndCameraLiveError { error_code: 6 }));
    camera.end_camera_live(&sdk, 0).unwrap();
    assert_eq!(camera.state(), CameraState::Initialized);
}

#[test]
fn every_operation_has_its_error() {
    let cases = [
        (Operation::InitSdk, QHYError::InitSDKError { error_code: 2 }),
        (Operation::SetReadMode, QHYError::SetCameraReadModeError { error_code: 2 }),
        (Operation::SetStreamMode, QHYError::SetCameraStreamModeError { error_code: 2 }),
        (Operation::GetChipInfo, QHYError::GetCameraCCDInfoError { error_code: 2 }),
        (Operation::SetBitMode, QHYError::SetCameraBitModeError { error_code: 2 }),
        (Operation::SetDebayer, QHYError::SetCameraDebayerOnOffError { error_code: 2 }),
        (Operation::SetBinMode, QHYError::SetCameraBinModeError { error_code: 2 }),
        (Operation::SetRoi, QHYError::SetCameraSubFrameError { error_code: 2 }),
        (Operation::SetParameter, QHYError::SetCameraParameterError { error_code: 2 }),
        (Operation::BeginLive, QHYError::BeginCameraLiveError { error_code: 2 }),
        (Operation::GetLiveFrame, QHYError::GetCameraLiveFrameError { error_code: 2 }),
        (Operation::CloseCamera, QHYError::CloseCameraError { error_code: 2 }),
        (Operation::ReleaseSdk, QHYError::ReleaseSDKError { error_code: 2 }),
    ];
    for (op, err) in cases {
        assert_eq!(error_for(op, 2), err);
        assert_eq!(check_status(op, 2), Err(err));
        assert_eq!(check_status(op, 0), Ok(()));
        assert_eq!(err.error_code(), Some(2));
    }
    assert_eq!(
        check_status(Operation::InitCamera, QHYCCD_ERROR),
        Err(QHYError::InitCameraError { error_code: 0xFFFF_FFFF })
    );
    assert_eq!(QHYError::GetImageSizeError.error_code(), None);
}

#[test]
fn feature_codes_round_trip() {
    assert_eq!(CameraFeature::ControlBrightness.code(), 0);
    assert_eq!(CameraFeature::ControlExposure.code(), 8);
    assert_eq!(CameraFeature::CamIgnoreOverscanInterface.code(), 37);
    assert_eq!(CameraFeature::Qhyccd3aAutoexposure.code(), 39);
    assert_eq!(CameraFeature::ControlMaxId.code(), 86);
    assert_eq!(CameraFeature::ControlGaindB.code(), 1029);
    assert_eq!(CameraFeature::from_code(38), None);
    assert_eq!(CameraFeature::from_code(87), None);
    assert_eq!(CameraFeature::from_code(1024), Some(CameraFeature::ControlAutowhitebalance));
    for code in 0..1100u32 {
        if let Some(f) = CameraFeature::from_code(code) {
            assert_eq!(f.code(), code);
        }
    }
    assert_eq!(CameraStreamMode::SingleFrameMode.code(), 0);
    assert_eq!(CameraStreamMode::LiveMode.code(), 1);
}

#[test]
fn frame_buffer_is_zeroed() {
    let buffer = frame_buffer(10);
    assert_eq!(buffer, vec![0u8; 10]);
    assert!(frame_buffer(0).is_empty());
}

#[test]
fn roi_within_effective_area() {
    let effective = Area { start_x: 12, start_y: 8, width: 3056, height: 2048 };
    assert!(effective.is_within(&effective));
    assert!(Area { start_x: 100, start_y: 100, width: 800, height: 600 }.is_within(&effective));
    assert!(!Area { start_x: 0, start_y: 8, width: 100, height: 100 }.is_within(&effective));
    assert!(!Area { start_x: 12, start_y: 8, width: 3057, height: 2048 }.is_within(&effective));
    assert!(!Area { start_x: u32::MAX, start_y: 8, width: u32::MAX, height: 1 }.is_within(&effective));
}

#[test]
fn sessions_equal_by_identity_and_handle() {
    let sdk = ready_sdk(2);
    let a = QhyccdCamera::open_camera(&sdk, sdk.get_camera_id(0, 0, &raw_id(b"QHY5")).unwrap(), 7)
        .unwrap();
    let b = QhyccdCamera::open_camera(&sdk, sdk.get_camera_id(1, 0, &raw_id(b"QHY5")).unwrap(), 7)
        .unwrap();
    let c = QhyccdCamera::open_camera(&sdk, sdk.get_camera_id(0, 0, &raw_id(b"QHY6")).unwrap(), 7)
        .unwrap();
    let d = QhyccdCamera::open_camera(&sdk, sdk.get_camera_id(0, 0, &raw_id(b"QHY5")).unwrap(), 8)
        .unwrap();
    assert!(a == b);
    assert!(a != c);
    assert!(a != d);
}

#[test]
fn live_poll_policy() {
    let policy = RetryPolicy { max_attempts: 3 };
    assert_eq!(policy.next_action(1, 0), PollAction::Deliver);
    assert_eq!(policy.next_action(1, QHYCCD_ERROR), PollAction::Retry);
    assert_eq!(policy.next_action(2, QHYCCD_ERROR), PollAction::Retry);
    assert_eq!(policy.next_action(3, QHYCCD_ERROR), PollAction::GiveUp);
    assert_eq!(policy.next_action(1, 0x2001), PollAction::GiveUp);
    let sdk = ready_sdk(1);
    let mut camera = initialized_camera(&sdk, CameraStreamMode::LiveMode);
    camera.begin_camera_live(&sdk, 0).unwrap();
    let size = camera.get_camera_image_size(&sdk, 64).unwrap();
    let format = FrameFormat { width: 8, height: 8, bits_per_pixel: 8, channels: 1 };
    let result = camera.get_camera_live_frame(&sdk, QHYCCD_ERROR, frame_buffer(64), format);
    assert_eq!(result.unwrap_err(), QHYError::GetCameraLiveFrameError { error_code: QHYCCD_ERROR });
    assert_eq!(camera.state(), CameraState::Live);
    assert_eq!(camera.image_size(), Some(size));
}

#[test]
fn roi_outside_effective_area_is_refused() {
    let sdk = ready_sdk(1);
    let mut camera = initialized_camera(&sdk, CameraStreamMode::SingleFrameMode);
    let wide = Area { start_x: 0, start_y: 0, width: 4000, height: 3000 };
    assert!(camera.authorize(&sdk, CameraCall::SetRoi(wide)).is_ok());
    let effective = Area { start_x: 12, start_y: 8, width: 3056, height: 2048 };
    assert_eq!(camera.get_camera_effective_area(&sdk, 0, effective), Ok(effective));
    assert_eq!(
        camera.authorize(&sdk, CameraCall::SetRoi(wide)),
        Err(QHYError::RoiOutsideEffectiveAreaError)
    );
    assert!(camera.authorize(&sdk, CameraCall::SetRoi(effective)).is_ok());
    assert_eq!(
        camera.get_camera_effective_area(&sdk, 3, wide),
        Err(QHYError::GetCameraEffectiveAreaError { error_code: 3 })
    );
    assert_eq!(
        camera.authorize(&sdk, CameraCall::SetRoi(wide)),
        Err(QHYError::RoiOutsideEffectiveAreaError)
    );
}

#[test]
fn init_needs_stream_and_read_mode() {
    let sdk = ready_sdk(1);
    let id = sdk.get_camera_id(0, 0, &raw_id(b"QHY5")).unwrap();
    let mut camera = QhyccdCamera::open_camera(&sdk, id, HANDLE).unwrap();
    assert_eq!(camera.authorize(&sdk, CameraCall::InitCamera), Err(QHYError::CameraStateError));
    assert_eq!(
        camera.set_camera_read_mode(&sdk, 5),
        Err(QHYError::SetCameraReadModeError { error_code: 5 })
    );
    camera.set_camera_stream_mode(&sdk, CameraStreamMode::SingleFrameMode, 0).unwrap();
    assert_eq!(camera.authorize(&sdk, CameraCall::InitCamera), Err(QHYError::CameraStateError));
    camera.set_camera_read_mode(&sdk, 0).unwrap();
    assert!(camera.authorize(&sdk, CameraCall::InitCamera).is_ok());
    camera.init_camera(&sdk, 0).unwrap();
    assert_eq!(camera.state(), CameraState::Initialized);
}

#[test]
fn read_mode_before_stream_mode_also_allows_init() {
    let sdk = ready_sdk(1);
    let id = sdk.get_camera_id(0, 0, &raw_id(b"QHY5")).unwrap();
    let mut camera = QhyccdCamera::open_camera(&sdk, id, HANDLE).unwrap();
    camera.set_camera_read_mode(&sdk, 0).unwrap();
    assert_eq!(camera.authorize(&sdk, CameraCall::InitCamera), Err(QHYError::CameraStateError));
    camera.set_camera_stream_mode(&sdk, CameraStreamMode::LiveMode, 0).unwrap();
    assert!(camera.authorize(&sdk, CameraCall::InitCamera).is_ok());
}
