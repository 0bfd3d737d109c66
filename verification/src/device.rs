//! Locating the cooler on the USB bus, managing its kernel driver, and
//! writing command buffers to its bulk endpoint through the `rusb` crate.

use rusb::UsbContext;
use vstd::prelude::*;

use crate::codec;
use crate::params::DeviceParam;

verus! {

/// Vendor id of the target cooler.
pub const VENDOR_ID: u16 = 0x1e71;

/// Product id of the target cooler.
pub const PRODUCT_ID: u16 = 0x170e;

/// The interface whose kernel driver is detached around the operation.
pub const INTERFACE: u8 = 0;

/// The bulk endpoint that command buffers are written to.
pub const ENDPOINT: u8 = 1;

/// Timeout, in seconds, of each bulk write.
pub const WRITE_TIMEOUT_SECS: u64 = 1;

// `rusb::Device` and `rusb::DeviceHandle` are generic over the external
// trait `rusb::UsbContext`, which keeps their declarations out of reach,
// so each is carried opaquely in a struct of its own. The devices carry
// an owned `rusb::Context` rather than the process-global one: opening
// the global context aborts the process when the USB subsystem cannot
// be initialized, while an owned context reports the failure.
/// An attached USB device, as enumerated by `rusb`.
#[verifier::external_body]
pub struct UsbDevice {
    inner: rusb::Device<rusb::Context>,
}

/// An open handle to a USB device, as returned by `rusb`.
#[verifier::external_body]
pub struct UsbHandle {
    inner: rusb::DeviceHandle<rusb::Context>,
}

#[verifier::external_type_specification]
#[verifier::external_body]
pub struct ExDeviceDescriptor(rusb::DeviceDescriptor);

#[verifier::external_type_specification]
#[verifier::external_body]
pub struct ExRusbError(rusb::Error);

/// What went wrong while talking to the device, by stage.
pub enum DeviceError {
    /// The host USB subsystem could not be queried.
    EnumerationError(rusb::Error),
    /// No attached device matched the target vendor and product ids.
    DeviceNotFound,
    /// Opening the device or changing its kernel-driver binding failed.
    DriverError(rusb::Error),
    /// Opening the device for a write, or the bulk write itself, failed.
    TransportError(rusb::Error),
}

/// Relies on rusb::Context::new, rusb::UsbContext::devices and
/// rusb::DeviceList::iter: opens a USB context owned by the returned
/// devices, whose list holds one entry per USB device attached at the
/// time of the call.
#[verifier::external_body]
fn list_devices() -> (r: Result<Vec<UsbDevice>, rusb::Error>)
{
    let context = match rusb::Context::new() {
        Ok(context) => context,
        Err(e) => {
            return Err(e);
        },
    };
    match context.devices() {
        Ok(list) => Ok(list.iter().map(|d| UsbDevice { inner: d }).collect()),
        Err(e) => Err(e),
    }
}

/// Relies on rusb::Device::device_descriptor: reads the device's
/// descriptor.
#[verifier::external_body]
fn device_descriptor(d: &UsbDevice) -> (r: Result<rusb::DeviceDescriptor, rusb::Error>)
{
    d.inner.device_descriptor()
}

/// Relies on rusb::DeviceDescriptor::vendor_id: the descriptor's vendor
/// id field.
#[verifier::external_body]
fn vendor_id(dd: &rusb::DeviceDescriptor) -> (r: u16)
{
    dd.vendor_id()
}

/// Relies on rusb::DeviceDescriptor::product_id: the descriptor's
/// product id field.
#[verifier::external_body]
fn product_id(dd: &rusb::DeviceDescriptor) -> (r: u16)
{
    dd.product_id()
}

/// Relies on rusb::Device::open: opens the device and returns a handle.
#[verifier::external_body]
fn open_device(d: &UsbDevice) -> (r: Result<UsbHandle, rusb::Error>)
{
    match d.inner.open() {
        Ok(h) => Ok(UsbHandle { inner: h }),
        Err(e) => Err(e),
    }
}

/// Relies on rusb::DeviceHandle::kernel_driver_active: whether a kernel
/// driver is bound to the interface.
#[verifier::external_body]
fn kernel_driver_active(h: &UsbHandle, iface: u8) -> (r: Result<bool, rusb::Error>)
{
    h.inner.kernel_driver_active(iface)
}

/// Relies on rusb::DeviceHandle::detach_kernel_driver: detaches the
/// kernel driver from the interface.
#[verifier::external_body]
fn detach_kernel_driver(h: &UsbHandle, iface: u8) -> (r: Result<(), rusb::Error>)
{
    h.inner.detach_kernel_driver(iface)
}

/// Relies on rusb::DeviceHandle::attach_kernel_driver: attaches a kernel
/// driver to the interface.
#[verifier::external_body]
fn attach_kernel_driver(h: &UsbHandle, iface: u8) -> (r: Result<(), rusb::Error>)
{
    h.inner.attach_kernel_driver(iface)
}

/// Relies on rusb::DeviceHandle::write_bulk: on success the returned
/// count is the number of bytes of `buf` written to the endpoint, so it
/// is at most the buffer's length. The timeout is given in seconds.
#[verifier::external_body]
fn write_bulk(h: &UsbHandle, endpoint: u8, buf: &[u8], timeout_secs: u64) -> (r: Result<
    usize,
    rusb::Error,
>)
    ensures
        r is Ok ==> r->Ok_0 <= buf@.len(),
{
    h.inner.write_bulk(endpoint, buf, std::time::Duration::from_secs(timeout_secs))
}

/// Finds the first attached USB device whose descriptor matches the
/// target vendor and product ids.
///
/// Fails with `EnumerationError` when the host USB subsystem cannot be
/// queried (or a descriptor cannot be read), and with `DeviceNotFound`
/// when no attached device matches.
pub fn find_kraken_device() -> (r: Result<UsbDevice, DeviceError>)
    ensures
        r is Err ==> !(r->Err_0 is DriverError) && !(r->Err_0 is TransportError),
{
    let mut devices: Vec<UsbDevice> = match list_devices() {
        Ok(d) => d,
        Err(e) => {
            return Err(DeviceError::EnumerationError(e));
        },
    };
    let n = devices.len();
    let mut i: usize = 0;
    while i < n
        invariant
            n == devices@.len(),
            i <= n,
        decreases n - i,
    {
        let dd = match device_descriptor(&devices[i]) {
            Ok(dd) => dd,
            Err(e) => {
                return Err(DeviceError::EnumerationError(e));
            },
        };
        if vendor_id(&dd) == VENDOR_ID && product_id(&dd) == PRODUCT_ID {
            return Ok(devices.remove(i));
        }
        i = i + 1;
    }
    Err(DeviceError::DeviceNotFound)
}

/// The cooler, located on the USB bus for the duration of one
/// invocation.
pub struct Kraken {
    device: UsbDevice,
}

impl Kraken {
    /// Locates the cooler.
    ///
    /// Fails only with `EnumerationError` or `DeviceNotFound`, as
    /// [`find_kraken_device`] does.
    pub fn new() -> (r: Result<Kraken, DeviceError>)
        ensures
            r is Err ==> !(r->Err_0 is DriverError) && !(r->Err_0 is TransportError),
    {
        match find_kraken_device() {
            Ok(device) => Ok(Kraken { device }),
            Err(e) => Err(e),
        }
    }

    /// Detaches the kernel driver from the control interface if one is
    /// bound, so that the bulk endpoint can be written to directly.
    ///
    /// Returns whether a driver was detached. Fails only with
    /// `DriverError`.
    pub fn detach(&self) -> (r: Result<bool, DeviceError>)
        ensures
            r is Err ==> r->Err_0 is DriverError,
    {
        let handle = match open_device(&self.device) {
            Ok(h) => h,
            Err(e) => {
                return Err(DeviceError::DriverError(e));
            },
        };
        match kernel_driver_active(&handle, INTERFACE) {
            Ok(true) => match detach_kernel_driver(&handle, INTERFACE) {
                Ok(()) => Ok(true),
                Err(e) => Err(DeviceError::DriverError(e)),
            },
            Ok(false) => Ok(false),
            Err(e) => Err(DeviceError::DriverError(e)),
        }
    }

    /// Reattaches a kernel driver to the control interface if none is
    /// bound, so that the device is not left undriven.
    ///
    /// Returns whether a driver was attached. Fails only with
    /// `DriverError`.
    pub fn reattach(self) -> (r: Result<bool, DeviceError>)
        ensures
            r is Err ==> r->Err_0 is DriverError,
    {
        let handle = match open_device(&self.device) {
            Ok(h) => h,
            Err(e) => {
                return Err(DeviceError::DriverError(e));
            },
        };
        match kernel_driver_active(&handle, INTERFACE) {
            Ok(false) => match attach_kernel_driver(&handle, INTERFACE) {
                Ok(()) => Ok(true),
                Err(e) => Err(DeviceError::DriverError(e)),
            },
            Ok(true) => Ok(false),
            Err(e) => Err(DeviceError::DriverError(e)),
        }
    }

    /// Encodes the parameter and writes the 24-byte command buffer to
    /// the bulk endpoint through a transient handle.
    ///
    /// On success the returned count is the number of bytes the device
    /// accepted, at most the buffer's 24. Fails only with
    /// `TransportError`.
    pub fn write(&self, param: &DeviceParam) -> (r: Result<usize, DeviceError>)
        ensures
            r is Ok ==> r->Ok_0 <= codec::COMMAND_LEN,
            r is Err ==> r->Err_0 is TransportError,
    {
        let buf = codec::encode(param);
        write_to_device(&self.device, buf.as_slice())
    }
}

/// Opens the device transiently and writes `buf` to the bulk endpoint
/// with the fixed timeout.
///
/// On success the returned count is the number of bytes of `buf` the
/// device accepted. Fails only with `TransportError`.
pub fn write_to_device(device: &UsbDevice, buf: &[u8]) -> (r: Result<usize, DeviceError>)
    ensures
        r is Ok ==> r->Ok_0 <= buf@.len(),
        r is Err ==> r->Err_0 is TransportError,
{
    let handle = match open_device(device) {
        Ok(h) => h,
        Err(e) => {
            return Err(DeviceError::TransportError(e));
        },
    };
    match write_bulk(&handle, ENDPOINT, buf, WRITE_TIMEOUT_SECS) {
        Ok(n) => Ok(n),
        Err(e) => Err(DeviceError::TransportError(e)),
    }
}

/// What one invocation did to the device: whether a kernel driver was
/// detached first, the outcome of each parameter's write, and whether a
/// driver was reattached afterward.
pub struct ApplyReport {
    /// Whether a kernel driver was detached before the writes.
    pub detached: bool,
    /// One outcome per parameter, in order: the bytes written, or the
    /// transport error of that write.
    pub writes: Vec<Result<usize, DeviceError>>,
    /// Whether a kernel driver was reattached afterward, or why not.
    pub reattached: Result<bool, DeviceError>,
}

/// Applies each validated parameter to the device: locates the cooler,
/// detaches its kernel driver, writes one command buffer per parameter,
/// and reattaches the driver afterward whether or not the writes
/// succeeded.
///
/// Locating the cooler or detaching its driver aborts the operation;
/// a failed write does not, so every parameter's outcome is reported
/// and the reattach is still attempted.
pub fn set_params(params: Vec<DeviceParam>) -> (r: Result<ApplyReport, DeviceError>)
    ensures
        r is Err ==> !(r->Err_0 is TransportError),
        r is Ok ==> {
            let report = r->Ok_0;
            &&& report.writes@.len() == params@.len()
            &&& forall|i: int|
                0 <= i < report.writes@.len() ==> ((#[trigger] report.writes@[i]) matches Ok(n)
                    ==> n <= codec::COMMAND_LEN)
            &&& forall|i: int|
                0 <= i < report.writes@.len() ==> ((#[trigger] report.writes@[i]) matches Err(e)
                    ==> e is TransportError)
            &&& (report.reattached matches Err(e) ==> e is DriverError)
        },
{
    let kraken = match Kraken::new() {
        Ok(k) => k,
        Err(e) => {
            return Err(e);
        },
    };
    let detached = match kraken.detach() {
        Ok(b) => b,
        Err(e) => {
            return Err(e);
        },
    };
    let mut writes: Vec<Result<usize, DeviceError>> = Vec::new();
    let n = params.len();
    let mut i: usize = 0;
    while i < n
        invariant
            n == params@.len(),
            i <= n,
            writes@.len() == i,
            forall|j: int|
                0 <= j < writes@.len() ==> ((#[trigger] writes@[j]) matches Ok(m)
                    ==> m <= codec::COMMAND_LEN),
            forall|j: int|
                0 <= j < writes@.len() ==> ((#[trigger] writes@[j]) matches Err(e)
                    ==> e is TransportError),
        decreases n - i,
    {
        let outcome = kraken.write(&params[i]);
        writes.push(outcome);
        i = i + 1;
    }
    let reattached = kraken.reattach();
    Ok(ApplyReport { detached, writes, reattached })
}

} // verus!
