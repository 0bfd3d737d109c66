use krakenctl::device::{find_kraken_device, set_params, DeviceError};
use krakenctl::params::DeviceParam;

// No cooler with the target vendor and product ids is attached where
// these tests run, so locating it must fail at the lookup stage: either
// the USB subsystem cannot be queried at all, or no device matches.

#[test]
fn lookup_fails_without_the_device() {
    match find_kraken_device() {
        Ok(_) => panic!("no matching device should be attached here"),
        Err(DeviceError::DeviceNotFound) | Err(DeviceError::EnumerationError(_)) => {}
        Err(DeviceError::DriverError(_)) | Err(DeviceError::TransportError(_)) => {
            panic!("lookup must not report a driver or transport error")
        }
    }
}

#[test]
fn set_params_without_device_reports_lookup_failure() {
    match set_params(vec![DeviceParam::FanSpeed(42)]) {
        Ok(_) => panic!("no matching device should be attached here"),
        Err(DeviceError::DeviceNotFound) | Err(DeviceError::EnumerationError(_)) => {}
        Err(DeviceError::DriverError(_)) | Err(DeviceError::TransportError(_)) => {
            panic!("set_params must not reach the device here")
        }
    }
}
