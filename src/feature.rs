use vstd::prelude::*;

verus! {

/// The control and capability codes of the native SDK.
///
/// Each variant stands for one fixed integer of the SDK's table; `code` gives
/// it and `from_code` reads it back. The integers are part of the native
/// interface and never change.
#[derive(Debug, Clone, Copy, PartialEq, Eq, Structural)]
pub enum CameraFeature {
    /// image brightness
    ControlBrightness,
    /// image contrast
    ControlContrast,
    /// the red of white balance
    ControlWbr,
    /// the blue of white balance
    ControlWbb,
    /// the green of white balance
    ControlWbg,
    /// screen gamma
    ControlGamma,
    /// camera gain
    ControlGain,
    /// camera offset
    ControlOffset,
    /// expose time (us)
    ControlExposure,
    /// transfer speed
    ControlSpeed,
    /// image depth bits
    ControlTransferbit,
    /// image channels
    ControlChannels,
    /// hblank
    ControlUsbTraffic,
    /// row denoise
    ControlRowDeNoise,
    /// current cmos or ccd temprature
    ControlCurTemp,
    /// current cool pwm
    ControlCurPWM,
    /// set the cool pwm
    ControlManulPWM,
    /// control camera color filter wheel port
    ControlCfwPort,
    /// check if camera has cooler
    ControlCooler,
    /// check if camera has st4port
    ControlSt4Port,
    /// colour camera flag (shares its meaning with CamIsColor)
    CamColor,
    /// check if camera has bin1x1 mode
    CamBin1x1mode,
    /// check if camera has bin2x2 mode
    CamBin2x2mode,
    /// check if camera has bin3x3 mode
    CamBin3x3mode,
    /// check if camera has bin4x4 mode
    CamBin4x4mode,
    /// mechanical shutter
    CamMechanicalShutter,
    /// check if camera has triger interface
    CamTrigerInterface,
    /// tec overprotect
    CamTecoverprotectInterface,
    /// signal clamp
    CamSignalClampInterface,
    /// fine tone
    CamFinetoneInterface,
    /// shutter motor heating
    CamShutterMotorHeatingInterface,
    /// calibrated frame
    CamCalibrateFpnInterface,
    /// chip temperaure sensor
    CamChipTemperatureSensorInterface,
    /// usb readout slowest
    CamUsbReadoutSlowestInterface,
    /// 8bit depth
    Cam8bits,
    /// 16bit depth
    Cam16bits,
    /// check if camera has gps
    CamGps,
    /// ignore overscan area
    CamIgnoreOverscanInterface,
    /// auto exposure
    Qhyccd3aAutoexposure,
    /// auto focus
    Qhyccd3aAutofocus,
    /// ccd or cmos ampv
    ControlAmpv,
    /// Virtual Camera on off
    ControlVcam,
    CamViewMode,
    /// check CFW slots number
    ControlCfwSlotsNum,
    IsExposingDone,
    ScreenStretchB,
    ScreenStretchW,
    ControlDDR,
    CamLightPerformanceMode,
    CamQhy5iiGuideMode,
    DDRBufferCapacity,
    DDRBufferReadThreshold,
    DefaultGain,
    DefaultOffset,
    OutputDataActualBits,
    OutputDataAlignment,
    CamSingleFrameMode,
    CamLiveVideoMode,
    CamIsColor,
    HasHardwareFrameCounter,
    /// Not Used , previous max index
    ControlMaxIdError,
    /// check if camera has humidity sensor
    CamHumidity,
    /// check if camera has pressure sensor
    CamPressure,
    /// if camera has VACUUM PUMP
    ControlVacuumPump,
    /// air cycle pump for sensor drying
    ControlSensorChamberCyclePump,
    /// 32bit depth
    Cam32bits,
    /// Sensor working status [0:init  1:good  2:checkErr  3:monitorErr 8:good 9:powerChipErr]  410 461 411 600 268 [Eris board]
    CamSensorUlvoStatus,
    /// 2020,4040/PRO，6060,42PRO
    CamSensorPhaseReTrain,
    /// 2410 461 411 600 268 for now
    CamInitConfigFromFlash,
    /// check if camera has multiple triger mode
    CamTriggerMode,
    /// check if camera support triger out function
    CamTriggerOut,
    /// check if camera support burst mode
    CamBurstMode,
    /// for OEM-600
    CamSpeakerLedAlarm,
    /// for _QHY5III178C Celestron, SDK have to feed this dog or it go reset
    CamWatchDogFpga,
    /// check if camera has bin6x6 mode
    CamBin6x6mode,
    /// check if camera has bin8x8 mode
    CamBin8x8mode,
    /// Show GPS LED tab on sharpCap
    CamGlobalSensorGpsLED,
    /// Process image
    ControlImgProc,
    /// Remove single RBI
    ControlRemoveRbi,
    /// image stabilization
    ControlGlobalReset,
    ControlFrameDetect,
    /// Supports the conversion between db and gain
    CamGainDbConversion,
    CamCurveSystemGain,
    CamCurveFullWell,
    CamCurveReadoutNoise,
    /// former upper bound of the table
    ControlMaxId,
    /// auto white balance  eg.CONTROL_TEST=1024
    ControlAutowhitebalance,
    /// auto exposure
    ControlAutoexposure,
    ControlAutoexpMessureValue,
    ControlAutoexpMessureMethod,
    /// image stabilization
    ControlImageStabilization,
    /// used to test dBGain control  //CONTROL_dB_TO_GAIN
    ControlGaindB,
}

/// The SDK's integer for each feature.
pub open spec fn spec_feature_code(f: CameraFeature) -> u32 {
    match f {
        CameraFeature::ControlBrightness => 0,
        CameraFeature::ControlContrast => 1,
        CameraFeature::ControlWbr => 2,
        CameraFeature::ControlWbb => 3,
        CameraFeature::ControlWbg => 4,
        CameraFeature::ControlGamma => 5,
        CameraFeature::ControlGain => 6,
        CameraFeature::ControlOffset => 7,
        CameraFeature::ControlExposure => 8,
        CameraFeature::ControlSpeed => 9,
        CameraFeature::ControlTransferbit => 10,
        CameraFeature::ControlChannels => 11,
        CameraFeature::ControlUsbTraffic => 12,
        CameraFeature::ControlRowDeNoise => 13,
        CameraFeature::ControlCurTemp => 14,
        CameraFeature::ControlCurPWM => 15,
        CameraFeature::ControlManulPWM => 16,
        CameraFeature::ControlCfwPort => 17,
        CameraFeature::ControlCooler => 18,
        CameraFeature::ControlSt4Port => 19,
        CameraFeature::CamColor => 20,
        CameraFeature::CamBin1x1mode => 21,
        CameraFeature::CamBin2x2mode => 22,
        CameraFeature::CamBin3x3mode => 23,
        CameraFeature::CamBin4x4mode => 24,
        CameraFeature::CamMechanicalShutter => 25,
        CameraFeature::CamTrigerInterface => 26,
        CameraFeature::CamTecoverprotectInterface => 27,
        CameraFeature::CamSignalClampInterface => 28,
        CameraFeature::CamFinetoneInterface => 29,
        CameraFeature::CamShutterMotorHeatingInterface => 30,
        CameraFeature::CamCalibrateFpnInterface => 31,
        CameraFeature::CamChipTemperatureSensorInterface => 32,
        CameraFeature::CamUsbReadoutSlowestInterface => 33,
        CameraFeature::Cam8bits => 34,
        CameraFeature::Cam16bits => 35,
        CameraFeature::CamGps => 36,
        CameraFeature::CamIgnoreOverscanInterface => 37,
        CameraFeature::Qhyccd3aAutoexposure => 39,
        CameraFeature::Qhyccd3aAutofocus => 40,
        CameraFeature::ControlAmpv => 41,
        CameraFeature::ControlVcam => 42,
        CameraFeature::CamViewMode => 43,
        CameraFeature::ControlCfwSlotsNum => 44,
        CameraFeature::IsExposingDone => 45,
        CameraFeature::ScreenStretchB => 46,
        CameraFeature::ScreenStretchW => 47,
        CameraFeature::ControlDDR => 48,
        CameraFeature::CamLightPerformanceMode => 49,
        CameraFeature::CamQhy5iiGuideMode => 50,
        CameraFeature::DDRBufferCapacity => 51,
        CameraFeature::DDRBufferReadThreshold => 52,
        CameraFeature::DefaultGain => 53,
        CameraFeature::DefaultOffset => 54,
        CameraFeature::OutputDataActualBits => 55,
        CameraFeature::OutputDataAlignment => 56,
        CameraFeature::CamSingleFrameMode => 57,
        CameraFeature::CamLiveVideoMode => 58,
        CameraFeature::CamIsColor => 59,
        CameraFeature::HasHardwareFrameCounter => 60,
        CameraFeature::ControlMaxIdError => 61,
        CameraFeature::CamHumidity => 62,
        CameraFeature::CamPressure => 63,
        CameraFeature::ControlVacuumPump => 64,
        CameraFeature::ControlSensorChamberCyclePump => 65,
        CameraFeature::Cam32bits => 66,
        CameraFeature::CamSensorUlvoStatus => 67,
        CameraFeature::CamSensorPhaseReTrain => 68,
        CameraFeature::CamInitConfigFromFlash => 69,
        CameraFeature::CamTriggerMode => 70,
        CameraFeature::CamTriggerOut => 71,
        CameraFeature::CamBurstMode => 72,
        CameraFeature::CamSpeakerLedAlarm => 73,
        CameraFeature::CamWatchDogFpga => 74,
        CameraFeature::CamBin6x6mode => 75,
        CameraFeature::CamBin8x8mode => 76,
        CameraFeature::CamGlobalSensorGpsLED => 77,
        CameraFeature::ControlImgProc => 78,
        CameraFeature::ControlRemoveRbi => 79,
        CameraFeature::ControlGlobalReset => 80,
        CameraFeature::ControlFrameDetect => 81,
        CameraFeature::CamGainDbConversion => 82,
        CameraFeature::CamCurveSystemGain => 83,
        CameraFeature::CamCurveFullWell => 84,
        CameraFeature::CamCurveReadoutNoise => 85,
        CameraFeature::ControlMaxId => 86,
        CameraFeature::ControlAutowhitebalance => 1024,
        CameraFeature::ControlAutoexposure => 1025,
        CameraFeature::ControlAutoexpMessureValue => 1026,
        CameraFeature::ControlAutoexpMessureMethod => 1027,
        CameraFeature::ControlImageStabilization => 1028,
        CameraFeature::ControlGaindB => 1029,
    }
}

/// The feature whose SDK integer is `code`, if any.
pub open spec fn spec_feature_from_code(code: u32) -> Option<CameraFeature> {
    if code == 0 {
        Some(CameraFeature::ControlBrightness)
    } else if code == 1 {
        Some(CameraFeature::ControlContrast)
    } else if code == 2 {
        Some(CameraFeature::ControlWbr)
    } else if code == 3 {
        Some(CameraFeature::ControlWbb)
    } else if code == 4 {
        Some(CameraFeature::ControlWbg)
    } else if code == 5 {
        Some(CameraFeature::ControlGamma)
    } else if code == 6 {
        Some(CameraFeature::ControlGain)
    } else if code == 7 {
        Some(CameraFeature::ControlOffset)
    } else if code == 8 {
        Some(CameraFeature::ControlExposure)
    } else if code == 9 {
        Some(CameraFeature::ControlSpeed)
    } else if code == 10 {
        Some(CameraFeature::ControlTransferbit)
    } else if code == 11 {
        Some(CameraFeature::ControlChannels)
    } else if code == 12 {
        Some(CameraFeature::ControlUsbTraffic)
    } else if code == 13 {
        Some(CameraFeature::ControlRowDeNoise)
    } else if code == 14 {
        Some(CameraFeature::ControlCurTemp)
    } else if code == 15 {
        Some(CameraFeature::ControlCurPWM)
    } else if code == 16 {
        Some(CameraFeature::ControlManulPWM)
    } else if code == 17 {
        Some(CameraFeature::ControlCfwPort)
    } else if code == 18 {
        Some(CameraFeature::ControlCooler)
    } else if code == 19 {
        Some(CameraFeature::ControlSt4Port)
    } else if code == 20 {
        Some(CameraFeature::CamColor)
    } else if code == 21 {
        Some(CameraFeature::CamBin1x1mode)
    } else if code == 22 {
        Some(CameraFeature::CamBin2x2mode)
    } else if code == 23 {
        Some(CameraFeature::CamBin3x3mode)
    } else if code == 24 {
        Some(CameraFeature::CamBin4x4mode)
    } else if code == 25 {
        Some(CameraFeature::CamMechanicalShutter)
    } else if code == 26 {
        Some(CameraFeature::CamTrigerInterface)
    } else if code == 27 {
        Some(CameraFeature::CamTecoverprotectInterface)
    } else if code == 28 {
        Some(CameraFeature::CamSignalClampInterface)
    } else if code == 29 {
        Some(CameraFeature::CamFinetoneInterface)
    } else if code == 30 {
        Some(CameraFeature::CamShutterMotorHeatingInterface)
    } else if code == 31 {
        Some(CameraFeature::CamCalibrateFpnInterface)
    } else if code == 32 {
        Some(CameraFeature::CamChipTemperatureSensorInterface)
    } else if code == 33 {
        Some(CameraFeature::CamUsbReadoutSlowestInterface)
    } else if code == 34 {
        Some(CameraFeature::Cam8bits)
    } else if code == 35 {
        Some(CameraFeature::Cam16bits)
    } else if code == 36 {
        Some(CameraFeature::CamGps)
    } else if code == 37 {
        Some(CameraFeature::CamIgnoreOverscanInterface)
    } else if code == 39 {
        Some(CameraFeature::Qhyccd3aAutoexposure)
    } else if code == 40 {
        Some(CameraFeature::Qhyccd3aAutofocus)
    } else if code == 41 {
        Some(CameraFeature::ControlAmpv)
    } else if code == 42 {
        Some(CameraFeature::ControlVcam)
    } else if code == 43 {
        Some(CameraFeature::CamViewMode)
    } else if code == 44 {
        Some(CameraFeature::ControlCfwSlotsNum)
    } else if code == 45 {
        Some(CameraFeature::IsExposingDone)
    } else if code == 46 {
        Some(CameraFeature::ScreenStretchB)
    } else if code == 47 {
        Some(CameraFeature::ScreenStretchW)
    } else if code == 48 {
        Some(CameraFeature::ControlDDR)
    } else if code == 49 {
        Some(CameraFeature::CamLightPerformanceMode)
    } else if code == 50 {
        Some(CameraFeature::CamQhy5iiGuideMode)
    } else if code == 51 {
        Some(CameraFeature::DDRBufferCapacity)
    } else if code == 52 {
        Some(CameraFeature::DDRBufferReadThreshold)
    } else if code == 53 {
        Some(CameraFeature::DefaultGain)
    } else if code == 54 {
        Some(CameraFeature::DefaultOffset)
    } else if code == 55 {
        Some(CameraFeature::OutputDataActualBits)
    } else if code == 56 {
        Some(CameraFeature::OutputDataAlignment)
    } else if code == 57 {
        Some(CameraFeature::CamSingleFrameMode)
    } else if code == 58 {
        Some(CameraFeature::CamLiveVideoMode)
    } else if code == 59 {
        Some(CameraFeature::CamIsColor)
    } else if code == 60 {
        Some(CameraFeature::HasHardwareFrameCounter)
    } else if code == 61 {
        Some(CameraFeature::ControlMaxIdError)
    } else if code == 62 {
        Some(CameraFeature::CamHumidity)
    } else if code == 63 {
        Some(CameraFeature::CamPressure)
    } else if code == 64 {
        Some(CameraFeature::ControlVacuumPump)
    } else if code == 65 {
        Some(CameraFeature::ControlSensorChamberCyclePump)
    } else if code == 66 {
        Some(CameraFeature::Cam32bits)
    } else if code == 67 {
        Some(CameraFeature::CamSensorUlvoStatus)
    } else if code == 68 {
        Some(CameraFeature::CamSensorPhaseReTrain)
    } else if code == 69 {
        Some(CameraFeature::CamInitConfigFromFlash)
    } else if code == 70 {
        Some(CameraFeature::CamTriggerMode)
    } else if code == 71 {
        Some(CameraFeature::CamTriggerOut)
    } else if code == 72 {
        Some(CameraFeature::CamBurstMode)
    } else if code == 73 {
        Some(CameraFeature::CamSpeakerLedAlarm)
    } else if code == 74 {
        Some(CameraFeature::CamWatchDogFpga)
    } else if code == 75 {
        Some(CameraFeature::CamBin6x6mode)
    } else if code == 76 {
        Some(CameraFeature::CamBin8x8mode)
    } else if code == 77 {
        Some(CameraFeature::CamGlobalSensorGpsLED)
    } else if code == 78 {
        Some(CameraFeature::ControlImgProc)
    } else if code == 79 {
        Some(CameraFeature::ControlRemoveRbi)
    } else if code == 80 {
        Some(CameraFeature::ControlGlobalReset)
    } else if code == 81 {
        Some(CameraFeature::ControlFrameDetect)
    } else if code == 82 {
        Some(CameraFeature::CamGainDbConversion)
    } else if code == 83 {
        Some(CameraFeature::CamCurveSystemGain)
    } else if code == 84 {
        Some(CameraFeature::CamCurveFullWell)
    } else if code == 85 {
        Some(CameraFeature::CamCurveReadoutNoise)
    } else if code == 86 {
        Some(CameraFeature::ControlMaxId)
    } else if code == 1024 {
        Some(CameraFeature::ControlAutowhitebalance)
    } else if code == 1025 {
        Some(CameraFeature::ControlAutoexposure)
    } else if code == 1026 {
        Some(CameraFeature::ControlAutoexpMessureValue)
    } else if code == 1027 {
        Some(CameraFeature::ControlAutoexpMessureMethod)
    } else if code == 1028 {
        Some(CameraFeature::ControlImageStabilization)
    } else if code == 1029 {
        Some(CameraFeature::ControlGaindB)
    } else {
        None
    }
}

impl CameraFeature {
    /// The SDK's integer for this feature.
    pub fn code(&self) -> (r: u32)
        ensures
            r == spec_feature_code(*self),
    {
        match *self {
            CameraFeature::ControlBrightness => 0,
            CameraFeature::ControlContrast => 1,
            CameraFeature::ControlWbr => 2,
            CameraFeature::ControlWbb => 3,
            CameraFeature::ControlWbg => 4,
            CameraFeature::ControlGamma => 5,
            CameraFeature::ControlGain => 6,
            CameraFeature::ControlOffset => 7,
            CameraFeature::ControlExposure => 8,
            CameraFeature::ControlSpeed => 9,
            CameraFeature::ControlTransferbit => 10,
            CameraFeature::ControlChannels => 11,
            CameraFeature::ControlUsbTraffic => 12,
            CameraFeature::ControlRowDeNoise => 13,
            CameraFeature::ControlCurTemp => 14,
            CameraFeature::ControlCurPWM => 15,
            CameraFeature::ControlManulPWM => 16,
            CameraFeature::ControlCfwPort => 17,
            CameraFeature::ControlCooler => 18,
            CameraFeature::ControlSt4Port => 19,
            CameraFeature::CamColor => 20,
            CameraFeature::CamBin1x1mode => 21,
            CameraFeature::CamBin2x2mode => 22,
            CameraFeature::CamBin3x3mode => 23,
            CameraFeature::CamBin4x4mode => 24,
            CameraFeature::CamMechanicalShutter => 25,
            CameraFeature::CamTrigerInterface => 26,
            CameraFeature::CamTecoverprotectInterface => 27,
            CameraFeature::CamSignalClampInterface => 28,
            CameraFeature::CamFinetoneInterface => 29,
            CameraFeature::CamShutterMotorHeatingInterface => 30,
            CameraFeature::CamCalibrateFpnInterface => 31,
            CameraFeature::CamChipTemperatureSensorInterface => 32,
            CameraFeature::CamUsbReadoutSlowestInterface => 33,
            CameraFeature::Cam8bits => 34,
            CameraFeature::Cam16bits => 35,
            CameraFeature::CamGps => 36,
            CameraFeature::CamIgnoreOverscanInterface => 37,
            CameraFeature::Qhyccd3aAutoexposure => 39,
            CameraFeature::Qhyccd3aAutofocus => 40,
            CameraFeature::ControlAmpv => 41,
            CameraFeature::ControlVcam => 42,
            CameraFeature::CamViewMode => 43,
            CameraFeature::ControlCfwSlotsNum => 44,
            CameraFeature::IsExposingDone => 45,
            CameraFeature::ScreenStretchB => 46,
            CameraFeature::ScreenStretchW => 47,
            CameraFeature::ControlDDR => 48,
            CameraFeature::CamLightPerformanceMode => 49,
            CameraFeature::CamQhy5iiGuideMode => 50,
            CameraFeature::DDRBufferCapacity => 51,
            CameraFeature::DDRBufferReadThreshold => 52,
            CameraFeature::DefaultGain => 53,
            CameraFeature::DefaultOffset => 54,
            CameraFeature::OutputDataActualBits => 55,
            CameraFeature::OutputDataAlignment => 56,
            CameraFeature::CamSingleFrameMode => 57,
            CameraFeature::CamLiveVideoMode => 58,
            CameraFeature::CamIsColor => 59,
            CameraFeature::HasHardwareFrameCounter => 60,
            CameraFeature::ControlMaxIdError => 61,
            CameraFeature::CamHumidity => 62,
            CameraFeature::CamPressure => 63,
            CameraFeature::ControlVacuumPump => 64,
            CameraFeature::ControlSensorChamberCyclePump => 65,
            CameraFeature::Cam32bits => 66,
            CameraFeature::CamSensorUlvoStatus => 67,
            CameraFeature::CamSensorPhaseReTrain => 68,
            CameraFeature::CamInitConfigFromFlash => 69,
            CameraFeature::CamTriggerMode => 70,
            CameraFeature::CamTriggerOut => 71,
            CameraFeature::CamBurstMode => 72,
            CameraFeature::CamSpeakerLedAlarm => 73,
            CameraFeature::CamWatchDogFpga => 74,
            CameraFeature::CamBin6x6mode => 75,
            CameraFeature::CamBin8x8mode => 76,
            CameraFeature::CamGlobalSensorGpsLED => 77,
            CameraFeature::ControlImgProc => 78,
            CameraFeature::ControlRemoveRbi => 79,
            CameraFeature::ControlGlobalReset => 80,
            CameraFeature::ControlFrameDetect => 81,
            CameraFeature::CamGainDbConversion => 82,
            CameraFeature::CamCurveSystemGain => 83,
            CameraFeature::CamCurveFullWell => 84,
            CameraFeature::CamCurveReadoutNoise => 85,
            CameraFeature::ControlMaxId => 86,
            CameraFeature::ControlAutowhitebalance => 1024,
            CameraFeature::ControlAutoexposure => 1025,
            CameraFeature::ControlAutoexpMessureValue => 1026,
            CameraFeature::ControlAutoexpMessureMethod => 1027,
            CameraFeature::ControlImageStabilization => 1028,
            CameraFeature::ControlGaindB => 1029,
        }
    }

    /// The feature whose SDK integer is `code`, or `None` for an integer
    /// outside the table.
    pub fn from_code(code: u32) -> (r: Option<CameraFeature>)
        ensures
            r == spec_feature_from_code(code),
    {
        if code == 0 {
            Some(CameraFeature::ControlBrightness)
        } else if code == 1 {
            Some(CameraFeature::ControlContrast)
        } else if code == 2 {
            Some(CameraFeature::ControlWbr)
        } else if code == 3 {
            Some(CameraFeature::ControlWbb)
        } else if code == 4 {
            Some(CameraFeature::ControlWbg)
        } else if code == 5 {
            Some(CameraFeature::ControlGamma)
        } else if code == 6 {
            Some(CameraFeature::ControlGain)
        } else if code == 7 {
            Some(CameraFeature::ControlOffset)
        } else if code == 8 {
            Some(CameraFeature::ControlExposure)
        } else if code == 9 {
            Some(CameraFeature::ControlSpeed)
        } else if code == 10 {
            Some(CameraFeature::ControlTransferbit)
        } else if code == 11 {
            Some(CameraFeature::ControlChannels)
        } else if code == 12 {
            Some(CameraFeature::ControlUsbTraffic)
        } else if code == 13 {
            Some(CameraFeature::ControlRowDeNoise)
        } else if code == 14 {
            Some(CameraFeature::ControlCurTemp)
        } else if code == 15 {
            Some(CameraFeature::ControlCurPWM)
        } else if code == 16 {
            Some(CameraFeature::ControlManulPWM)
        } else if code == 17 {
            Some(CameraFeature::ControlCfwPort)
        } else if code == 18 {
            Some(CameraFeature::ControlCooler)
        } else if code == 19 {
            Some(CameraFeature::ControlSt4Port)
        } else if code == 20 {
            Some(CameraFeature::CamColor)
        } else if code == 21 {
            Some(CameraFeature::CamBin1x1mode)
        } else if code == 22 {
            Some(CameraFeature::CamBin2x2mode)
        } else if code == 23 {
            Some(CameraFeature::CamBin3x3mode)
        } else if code == 24 {
            Some(CameraFeature::CamBin4x4mode)
        } else if code == 25 {
            Some(CameraFeature::CamMechanicalShutter)
        } else if code == 26 {
            Some(CameraFeature::CamTrigerInterface)
        } else if code == 27 {
            Some(CameraFeature::CamTecoverprotectInterface)
        } else if code == 28 {
            Some(CameraFeature::CamSignalClampInterface)
        } else if code == 29 {
            Some(CameraFeature::CamFinetoneInterface)
        } else if code == 30 {
            Some(CameraFeature::CamShutterMotorHeatingInterface)
        } else if code == 31 {
            Some(CameraFeature::CamCalibrateFpnInterface)
        } else if code == 32 {
            Some(CameraFeature::CamChipTemperatureSensorInterface)
        } else if code == 33 {
            Some(CameraFeature::CamUsbReadoutSlowestInterface)
        } else if code == 34 {
            Some(CameraFeature::Cam8bits)
        } else if code == 35 {
            Some(CameraFeature::Cam16bits)
        } else if code == 36 {
            Some(CameraFeature::CamGps)
        } else if code == 37 {
            Some(CameraFeature::CamIgnoreOverscanInterface)
        } else if code == 39 {
            Some(CameraFeature::Qhyccd3aAutoexposure)
        } else if code == 40 {
            Some(CameraFeature::Qhyccd3aAutofocus)
        } else if code == 41 {
            Some(CameraFeature::ControlAmpv)
        } else if code == 42 {
            Some(CameraFeature::ControlVcam)
        } else if code == 43 {
            Some(CameraFeature::CamViewMode)
        } else if code == 44 {
            Some(CameraFeature::ControlCfwSlotsNum)
        } else if code == 45 {
            Some(CameraFeature::IsExposingDone)
        } else if code == 46 {
            Some(CameraFeature::ScreenStretchB)
        } else if code == 47 {
            Some(CameraFeature::ScreenStretchW)
        } else if code == 48 {
            Some(CameraFeature::ControlDDR)
        } else if code == 49 {
            Some(CameraFeature::CamLightPerformanceMode)
        } else if code == 50 {
            Some(CameraFeature::CamQhy5iiGuideMode)
        } else if code == 51 {
            Some(CameraFeature::DDRBufferCapacity)
        } else if code == 52 {
            Some(CameraFeature::DDRBufferReadThreshold)
        } else if code == 53 {
            Some(CameraFeature::DefaultGain)
        } else if code == 54 {
            Some(CameraFeature::DefaultOffset)
        } else if code == 55 {
            Some(CameraFeature::OutputDataActualBits)
        } else if code == 56 {
            Some(CameraFeature::OutputDataAlignment)
        } else if code == 57 {
            Some(CameraFeature::CamSingleFrameMode)
        } else if code == 58 {
            Some(CameraFeature::CamLiveVideoMode)
        } else if code == 59 {
            Some(CameraFeature::CamIsColor)
        } else if code == 60 {
            Some(CameraFeature::HasHardwareFrameCounter)
        } else if code == 61 {
            Some(CameraFeature::ControlMaxIdError)
        } else if code == 62 {
            Some(CameraFeature::CamHumidity)
        } else if code == 63 {
            Some(CameraFeature::CamPressure)
        } else if code == 64 {
            Some(CameraFeature::ControlVacuumPump)
        } else if code == 65 {
            Some(CameraFeature::ControlSensorChamberCyclePump)
        } else if code == 66 {
            Some(CameraFeature::Cam32bits)
        } else if code == 67 {
            Some(CameraFeature::CamSensorUlvoStatus)
        } else if code == 68 {
            Some(CameraFeature::CamSensorPhaseReTrain)
        } else if code == 69 {
            Some(CameraFeature::CamInitConfigFromFlash)
        } else if code == 70 {
            Some(CameraFeature::CamTriggerMode)
        } else if code == 71 {
            Some(CameraFeature::CamTriggerOut)
        } else if code == 72 {
            Some(CameraFeature::CamBurstMode)
        } else if code == 73 {
            Some(CameraFeature::CamSpeakerLedAlarm)
        } else if code == 74 {
            Some(CameraFeature::CamWatchDogFpga)
        } else if code == 75 {
            Some(CameraFeature::CamBin6x6mode)
        } else if code == 76 {
            Some(CameraFeature::CamBin8x8mode)
        } else if code == 77 {
            Some(CameraFeature::CamGlobalSensorGpsLED)
        } else if code == 78 {
            Some(CameraFeature::ControlImgProc)
        } else if code == 79 {
            Some(CameraFeature::ControlRemoveRbi)
        } else if code == 80 {
            Some(CameraFeature::ControlGlobalReset)
        } else if code == 81 {
            Some(CameraFeature::ControlFrameDetect)
        } else if code == 82 {
            Some(CameraFeature::CamGainDbConversion)
        } else if code == 83 {
            Some(CameraFeature::CamCurveSystemGain)
        } else if code == 84 {
            Some(CameraFeature::CamCurveFullWell)
        } else if code == 85 {
            Some(CameraFeature::CamCurveReadoutNoise)
        } else if code == 86 {
            Some(CameraFeature::ControlMaxId)
        } else if code == 1024 {
            Some(CameraFeature::ControlAutowhitebalance)
        } else if code == 1025 {
            Some(CameraFeature::ControlAutoexposure)
        } else if code == 1026 {
            Some(CameraFeature::ControlAutoexpMessureValue)
        } else if code == 1027 {
            Some(CameraFeature::ControlAutoexpMessureMethod)
        } else if code == 1028 {
            Some(CameraFeature::ControlImageStabilization)
        } else if code == 1029 {
            Some(CameraFeature::ControlGaindB)
        } else {
            None
        }
    }
}

/// Reading a feature's code back gives the same feature.
pub proof fn lemma_feature_code_round_trip(f: CameraFeature)
    ensures
        spec_feature_from_code(spec_feature_code(f)) == Some(f),
{
}

/// A code that names a feature is that feature's code.
pub proof fn lemma_feature_from_code_exact(code: u32)
    ensures
        spec_feature_from_code(code) matches Some(f) ==> spec_feature_code(f) == code,
{
}

/// No two features share a code.
pub proof fn lemma_feature_code_injective(f: CameraFeature, g: CameraFeature)
    requires
        spec_feature_code(f) == spec_feature_code(g),
    ensures
        f == g,
{
    lemma_feature_code_round_trip(f);
    lemma_feature_code_round_trip(g);
}

/// Which of the two capture branches a session uses.
#[derive(Debug, Clone, Copy, PartialEq, Eq, Structural)]
pub enum CameraStreamMode {
    SingleFrameMode,
    LiveMode,
}

/// The SDK's byte for each stream mode.
pub open spec fn spec_stream_mode_code(m: CameraStreamMode) -> u8 {
    match m {
        CameraStreamMode::SingleFrameMode => 0,
        CameraStreamMode::LiveMode => 1,
    }
}

impl CameraStreamMode {
    /// The SDK's byte for this stream mode.
    pub fn code(&self) -> (r: u8)
        ensures
            r == spec_stream_mode_code(*self),
    {
        match *self {
            CameraStreamMode::SingleFrameMode => 0,
            CameraStreamMode::LiveMode => 1,
        }
    }
}

} // verus!
