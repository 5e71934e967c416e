use vstd::prelude::*;
use vstd::slice::slice_subrange;

use crate::commands::MessageCommand;
use crate::errors::AdbError;
use crate::message::{Message, MessageHeader};
use crate::usb_info::{
    find_adb_endpoint_pair, first_matching_device, select_adb_device, AltSetting, Endpoint,
    EndpointInfo, InterfaceTriple, UsbDeviceSummary,
};

verus! {

/// Default deadline of a single bulk transfer, in milliseconds.
pub const DEFAULT_TIMEOUT_MS: u64 = 4000;

#[verifier::external_type_specification]
pub struct ExUsbError(rusb::Error);

/// A reference to one attached USB device. Holds rusb's device reference,
/// whose type Verus cannot declare because its generics are bounded by
/// rusb's UsbContext trait; the struct is therefore opaque and only the
/// trusted wrappers below look inside.
#[verifier::external_body]
pub struct UsbDevice {
    inner: rusb::Device<rusb::GlobalContext>,
}

/// An open handle on a USB device, opaque for the same reason as
/// `UsbDevice`; only the trusted wrappers below look inside.
#[verifier::external_body]
pub struct UsbHandle {
    inner: rusb::DeviceHandle<rusb::GlobalContext>,
}

/// How an error of the USB stack surfaces: a denied access becomes
/// `PermissionDenied`, an expired transfer deadline becomes `Timeout`, and
/// everything else is an `IoError`.
pub open spec fn usb_error_to_adb(e: rusb::Error) -> AdbError {
    match e {
        rusb::Error::Access => AdbError::PermissionDenied,
        rusb::Error::Timeout => AdbError::Timeout,
        _ => AdbError::IoError,
    }
}

/// Maps an error of the USB stack to the library's taxonomy.
pub fn map_usb_error(e: rusb::Error) -> (r: AdbError)
    ensures
        r == usb_error_to_adb(e),
{
    match e {
        rusb::Error::Access => AdbError::PermissionDenied,
        rusb::Error::Timeout => AdbError::Timeout,
        _ => AdbError::IoError,
    }
}

/// Relies on rusb::devices: the list of USB devices currently attached.
#[verifier::external_body]
fn list_devices() -> (r: Result<Vec<UsbDevice>, rusb::Error>) {
    Ok(rusb::devices()?.iter().map(|d| UsbDevice { inner: d }).collect())
}

/// Relies on rusb::Device::device_descriptor and the vendor_id and
/// product_id accessors of rusb::DeviceDescriptor; `None` when the
/// descriptor cannot be read.
#[verifier::external_body]
fn device_ids(device: &UsbDevice) -> (r: Option<(u16, u16)>) {
    device.inner.device_descriptor().ok().map(|d| (d.vendor_id(), d.product_id()))
}

/// Relies on rusb's descriptor walk (config_descriptor, interfaces,
/// descriptors, endpoint_descriptors) to list every alternate setting with
/// its class triple and endpoints, in descriptor order.
#[verifier::external_body]
fn device_alt_settings(device: &UsbDevice) -> (r: Vec<AltSetting>) {
    let mut out = Vec::new();
    let n = device.inner.device_descriptor().map(|d| d.num_configurations()).unwrap_or(0);
    for cfg in (0..n).filter_map(|c| device.inner.config_descriptor(c).ok()) {
        for id in cfg.interfaces().flat_map(|i| i.descriptors()) {
            let eps = id.endpoint_descriptors().map(|ep| EndpointInfo::from_codes(
                ep.address(), ep.transfer_type() == rusb::TransferType::Bulk,
                ep.direction() == rusb::Direction::In)).collect();
            out.push(AltSetting::from_parts(id.interface_number(), id.class_code(),
                id.sub_class_code(), id.protocol_code(), eps));
        }
    }
    out
}

/// Relies on rusb's descriptor walk (config_descriptor, interfaces,
/// descriptors) to list the class triple of every alternate setting.
#[verifier::external_body]
fn device_interface_triples(device: &UsbDevice) -> (r: Vec<InterfaceTriple>) {
    let mut out = Vec::new();
    let n = device.inner.device_descriptor().map(|d| d.num_configurations()).unwrap_or(0);
    for cfg in (0..n).filter_map(|c| device.inner.config_descriptor(c).ok()) {
        for id in cfg.interfaces().flat_map(|i| i.descriptors()) {
            out.push(InterfaceTriple::from_codes(
                id.class_code(), id.sub_class_code(), id.protocol_code()));
        }
    }
    out
}

/// Relies on rusb::Device::open: a handle to the device.
#[verifier::external_body]
fn open_device(device: &UsbDevice) -> (r: Result<UsbHandle, rusb::Error>) {
    Ok(UsbHandle { inner: device.inner.open()? })
}

/// Relies on rusb::DeviceHandle::claim_interface: claims the interface for
/// this handle.
#[verifier::external_body]
fn claim_interface_raw(handle: &UsbHandle, iface: u8) -> (r: Result<(), rusb::Error>) {
    handle.inner.claim_interface(iface)
}

/// Relies on rusb::DeviceHandle::release_interface: releases a claimed
/// interface.
#[verifier::external_body]
fn release_interface_raw(handle: &UsbHandle, iface: u8) -> (r: Result<(), rusb::Error>) {
    handle.inner.release_interface(iface)
}

/// Relies on rusb::DeviceHandle::read_bulk: on success, the bytes that the
/// endpoint delivered within the deadline, at most `want` of them.
#[verifier::external_body]
fn bulk_read_chunk(
    handle: &UsbHandle,
    endpoint: u8,
    want: usize,
    timeout_ms: u64,
) -> (r: Result<Vec<u8>, rusb::Error>)
    ensures
        r matches Ok(v) ==> v@.len() <= want,
{
    let mut buf = vec![0u8; want];
    let n = handle.inner.read_bulk(endpoint, &mut buf, std::time::Duration::from_millis(timeout_ms))?;
    buf.truncate(n);
    Ok(buf)
}

/// Relies on rusb::DeviceHandle::write_bulk: on success, the number of bytes
/// of `bytes` that the endpoint accepted within the deadline.
#[verifier::external_body]
fn bulk_write_chunk(
    handle: &UsbHandle,
    endpoint: u8,
    bytes: &[u8],
    timeout_ms: u64,
) -> (r: Result<usize, rusb::Error>)
    ensures
        r matches Ok(n) ==> n <= bytes@.len(),
{
    handle.inner.write_bulk(endpoint, bytes, std::time::Duration::from_millis(timeout_ms))
}

/// Relies on rusb::DeviceHandle::write_control: a control transfer to the
/// device; on success, the number of bytes of `buf` that were sent.
#[verifier::external_body]
fn control_out_raw(
    handle: &UsbHandle,
    request_type: u8,
    request: u8,
    value: u16,
    index: u16,
    buf: &[u8],
    timeout_ms: u64,
) -> (r: Result<usize, rusb::Error>)
    ensures
        r matches Ok(n) ==> n <= buf@.len(),
{
    handle.inner.write_control(
        request_type, request, value, index, buf, std::time::Duration::from_millis(timeout_ms))
}

/// Writes all of `bytes` to a bulk OUT endpoint, looping over partial
/// transfers; each transfer is bounded by the given deadline.
fn write_all(
    handle: &UsbHandle,
    endpoint: u8,
    bytes: &[u8],
    timeout_ms: u64,
) -> (r: Result<(), AdbError>)
    ensures
        r matches Err(e) ==> (e is Timeout || e is PermissionDenied || e is IoError),
{
    let mut written: usize = 0;
    while written < bytes.len()
        invariant
            written <= bytes@.len(),
        decreases bytes@.len() - written,
    {
        let chunk = slice_subrange(bytes, written, bytes.len());
        match bulk_write_chunk(handle, endpoint, chunk, timeout_ms) {
            Ok(n) => {
                if n == 0 {
                    return Err(AdbError::IoError);
                }
                written += n;
            },
            Err(e) => {
                return Err(map_usb_error(e));
            },
        }
    }
    Ok(())
}

/// Reads exactly `want` bytes from a bulk IN endpoint, looping over partial
/// transfers; each transfer is bounded by the given deadline.
fn read_exact(
    handle: &UsbHandle,
    endpoint: u8,
    want: usize,
    timeout_ms: u64,
) -> (r: Result<Vec<u8>, AdbError>)
    ensures
        r matches Ok(v) ==> v@.len() == want,
        r matches Err(e) ==> (e is Timeout || e is PermissionDenied || e is IoError),
{
    let mut data: Vec<u8> = Vec::new();
    while data.len() < want
        invariant
            data@.len() <= want,
        decreases want - data@.len(),
    {
        match bulk_read_chunk(handle, endpoint, want - data.len(), timeout_ms) {
            Ok(chunk) => {
                if chunk.len() == 0 {
                    return Err(AdbError::IoError);
                }
                let mut c = chunk;
                data.append(&mut c);
            },
            Err(e) => {
                return Err(map_usb_error(e));
            },
        }
    }
    Ok(data)
}

/// A transport over a USB device: the device reference, and — once
/// connected — the open handle and the claimed ADB bulk endpoint pair.
pub struct USBTransport {
    /// The USB device this transport speaks to.
    device: UsbDevice,
    /// Handle opened on `connect`.
    handle: Option<UsbHandle>,
    /// IN bulk endpoint located on `connect`.
    read_endpoint: Option<Endpoint>,
    /// OUT bulk endpoint located on `connect`.
    write_endpoint: Option<Endpoint>,
}

impl USBTransport {
    /// The transport has an open handle and both bulk endpoints recorded.
    pub closed spec fn connected(self) -> bool {
        &&& self.handle is Some
        &&& self.read_endpoint is Some
        &&& self.write_endpoint is Some
    }

    /// The transport holds an open handle.
    pub closed spec fn has_handle(self) -> bool {
        self.handle is Some
    }

    /// Ready to read messages: an open handle and a recorded IN endpoint.
    pub closed spec fn read_ready(self) -> bool {
        self.handle is Some && self.read_endpoint is Some
    }

    /// Ready to write messages: an open handle and a recorded OUT endpoint.
    pub closed spec fn write_ready(self) -> bool {
        self.handle is Some && self.write_endpoint is Some
    }

    /// Fully detached: no open handle and no endpoint recorded.
    pub closed spec fn detached(self) -> bool {
        &&& self.handle is None
        &&& self.read_endpoint is None
        &&& self.write_endpoint is None
    }

    /// Wraps a USB device; the transport starts fully detached: no handle
    /// and no endpoints recorded.
    pub fn new_from_device(device: UsbDevice) -> (r: USBTransport)
        ensures
            r.detached(),
            !r.connected(),
    {
        USBTransport { device, handle: None, read_endpoint: None, write_endpoint: None }
    }

    /// Finds the first attached device with the given vendor and product
    /// id and wraps it fully detached; `NotFound` when none matches. The
    /// first-match rule over the read identities is decided by
    /// `first_matching_device`.
    pub fn new(vendor_id: u16, product_id: u16) -> (r: Result<USBTransport, AdbError>)
        ensures
            r matches Ok(t) ==> t.detached(),
            r matches Err(e) ==> (e is NotFound || e is PermissionDenied || e is Timeout
                || e is IoError),
    {
        let mut devices = match list_devices() {
            Ok(d) => d,
            Err(e) => {
                return Err(map_usb_error(e));
            },
        };
        let mut ids: Vec<Option<(u16, u16)>> = Vec::new();
        let mut i: usize = 0;
        while i < devices.len()
            invariant
                i <= devices@.len(),
                ids@.len() == i,
            decreases devices@.len() - i,
        {
            ids.push(device_ids(&devices[i]));
            i += 1;
        }
        match first_matching_device(&ids, vendor_id, product_id) {
            Some(idx) => {
                let d = devices.remove(idx);
                Ok(USBTransport::new_from_device(d))
            },
            None => Err(AdbError::NotFound),
        }
    }

    /// Opens the device, locates the ADB bulk endpoint pair within one
    /// qualifying alternate setting, claims the interface the pair belongs
    /// to, and records the endpoints.
    ///
    /// Fails with `NoDescriptor` exactly when no alternate setting bears
    /// the ADB triple with a bulk endpoint of each direction, with
    /// `PermissionDenied` when the OS denies the open or the claim, and
    /// with `IoError` on other USB stack errors; on failure the transport
    /// is exactly as it was, usable for a retry.
    pub fn connect(&mut self) -> (r: Result<(), AdbError>)
        ensures
            r is Ok ==> final(self).connected(),
            r is Err ==> *final(self) == *old(self),
            r matches Err(e) ==> (e is NoDescriptor || e is PermissionDenied || e is Timeout
                || e is IoError),
    {
        let settings = device_alt_settings(&self.device);
        let (read_ep, write_ep) = find_adb_endpoint_pair(&settings)?;
        let handle = match open_device(&self.device) {
            Ok(h) => h,
            Err(e) => {
                return Err(map_usb_error(e));
            },
        };
        if let Err(e) = claim_interface_raw(&handle, read_ep.interface_number) {
            return Err(map_usb_error(e));
        }
        if let Err(e) = claim_interface_raw(&handle, write_ep.interface_number) {
            return Err(map_usb_error(e));
        }
        self.read_endpoint = Some(read_ep);
        self.write_endpoint = Some(write_ep);
        self.handle = Some(handle);
        Ok(())
    }

    /// Sends a best-effort CLSE message, releases the claimed interfaces,
    /// and forgets the handle and endpoints: the transport is disconnected
    /// and can be connected again.
    pub fn disconnect(&mut self) -> (r: Result<(), AdbError>)
        ensures
            final(self).detached(),
            !final(self).connected(),
    {
        if self.handle.is_some() && self.write_endpoint.is_some() {
            let msg = Message::new(MessageCommand::Clse, 0, 0, Vec::new());
            let _ = self.write_message(&msg);
        }
        if let Some(h) = &self.handle {
            if let Some(ep) = self.read_endpoint {
                let _ = release_interface_raw(h, ep.interface_number);
            }
            if let Some(ep) = self.write_endpoint {
                let _ = release_interface_raw(h, ep.interface_number);
            }
        }
        self.handle = None;
        self.read_endpoint = None;
        self.write_endpoint = None;
        Ok(())
    }

    /// Claims an additional interface on the open handle; `IoError` with
    /// nothing done when no handle is open. The transport's own state is
    /// unchanged either way.
    pub fn claim_interface(&mut self, iface: u8) -> (r: Result<(), AdbError>)
        ensures
            *final(self) == *old(self),
            !old(self).has_handle() ==> r == Err::<(), AdbError>(AdbError::IoError),
            r matches Err(e) ==> (e is PermissionDenied || e is Timeout || e is IoError),
    {
        match &self.handle {
            Some(h) => match claim_interface_raw(h, iface) {
                Ok(()) => Ok(()),
                Err(e) => Err(map_usb_error(e)),
            },
            None => Err(AdbError::IoError),
        }
    }

    /// Sends a class-level control message to an interface of the device;
    /// `IoError` with no transfer issued when no handle is open.
    pub fn send_usb_class_control_msg(
        &self,
        request: u8,
        value: u16,
        index: u16,
        buf: &[u8],
        timeout_ms: u64,
    ) -> (r: Result<(), AdbError>)
        ensures
            !self.has_handle() ==> r == Err::<(), AdbError>(AdbError::IoError),
            r matches Err(e) ==> (e is PermissionDenied || e is Timeout || e is IoError),
    {
        match &self.handle {
            Some(h) => {
                // Request type 0x21: host-to-device, class, to an interface.
                match control_out_raw(h, 0x21, request, value, index, buf, timeout_ms) {
                    Ok(_) => Ok(()),
                    Err(e) => Err(map_usb_error(e)),
                }
            },
            None => Err(AdbError::IoError),
        }
    }

    /// Performs one raw bulk read on the given endpoint, bounded by the
    /// deadline: at most `want` bytes.
    pub fn usb_bulk_read(
        &self,
        endpoint: u8,
        want: usize,
        timeout_ms: u64,
    ) -> (r: Result<Vec<u8>, AdbError>)
        ensures
            r matches Ok(v) ==> v@.len() <= want,
            !self.has_handle() ==> r == Err::<Vec<u8>, AdbError>(AdbError::IoError),
            r matches Err(e) ==> (e is PermissionDenied || e is Timeout || e is IoError),
    {
        match &self.handle {
            Some(h) => match bulk_read_chunk(h, endpoint, want, timeout_ms) {
                Ok(v) => Ok(v),
                Err(e) => Err(map_usb_error(e)),
            },
            None => Err(AdbError::IoError),
        }
    }

    /// Performs one raw bulk write on the given endpoint, bounded by the
    /// deadline: the number of bytes accepted.
    pub fn usb_bulk_write(&self, endpoint: u8, buf: &[u8], timeout_ms: u64) -> (r: Result<
        usize,
        AdbError,
    >)
        ensures
            r matches Ok(n) ==> n <= buf@.len(),
            !self.has_handle() ==> r == Err::<usize, AdbError>(AdbError::IoError),
            r matches Err(e) ==> (e is PermissionDenied || e is Timeout || e is IoError),
    {
        match &self.handle {
            Some(h) => match bulk_write_chunk(h, endpoint, buf, timeout_ms) {
                Ok(n) => Ok(n),
                Err(e) => Err(map_usb_error(e)),
            },
            None => Err(AdbError::IoError),
        }
    }

    /// Writes a message: the 24 header bytes, then — when the payload is not
    /// empty — the payload bytes, each write looping over partial bulk
    /// transfers bounded by the deadline.
    pub fn write_message_with_timeout(&mut self, message: &Message, timeout_ms: u64) -> (r: Result<
        (),
        AdbError,
    >)
        ensures
            *final(self) == *old(self),
            !old(self).write_ready() ==> r == Err::<(), AdbError>(AdbError::IoError),
            r matches Err(e) ==> (e is Timeout || e is PermissionDenied || e is IoError),
    {
        let wr = match self.write_endpoint {
            Some(e) => e,
            None => {
                return Err(AdbError::IoError);
            },
        };
        let handle = match &self.handle {
            Some(h) => h,
            None => {
                return Err(AdbError::IoError);
            },
        };
        let header_bytes = message.header.encode();
        write_all(handle, wr.address, header_bytes.as_slice(), timeout_ms)?;
        if message.payload.len() > 0 {
            write_all(handle, wr.address, message.payload.as_slice(), timeout_ms)?;
        }
        Ok(())
    }

    /// Writes a message with the default deadline.
    pub fn write_message(&mut self, message: &Message) -> (r: Result<(), AdbError>)
        ensures
            *final(self) == *old(self),
            !old(self).write_ready() ==> r == Err::<(), AdbError>(AdbError::IoError),
            r matches Err(e) ==> (e is Timeout || e is PermissionDenied || e is IoError),
    {
        self.write_message_with_timeout(message, DEFAULT_TIMEOUT_MS)
    }

    /// Reads one message: exactly 24 header bytes, decoded and checked for
    /// the magic word; then exactly `data_length` payload bytes, accepted
    /// only when the payload sum matches the checksum field (the check is
    /// skipped for an empty payload).
    ///
    /// Every message returned is well formed, and its payload, when present,
    /// passed the integrity check.
    pub fn read_message_with_timeout(&mut self, timeout_ms: u64) -> (r: Result<Message, AdbError>)
        ensures
            *final(self) == *old(self),
            !old(self).read_ready() ==> r == Err::<Message, AdbError>(AdbError::IoError),
            r matches Ok(m) ==> m.wf() && (m.header.data_length != 0 ==> m.integrity_ok()),
            r matches Err(e) ==> (e is Timeout || e is InvalidHeader || e is InvalidIntegrity
                || e is PermissionDenied || e is IoError),
    {
        let rd = match self.read_endpoint {
            Some(e) => e,
            None => {
                return Err(AdbError::IoError);
            },
        };
        let handle = match &self.handle {
            Some(h) => h,
            None => {
                return Err(AdbError::IoError);
            },
        };
        let header_data = read_exact(handle, rd.address, 24, timeout_ms)?;
        let header = MessageHeader::decode(header_data.as_slice())?;
        let payload: Vec<u8> = if header.data_length != 0 {
            read_exact(handle, rd.address, header.data_length as usize, timeout_ms)?
        } else {
            Vec::new()
        };
        Message::from_wire(header, payload)
    }

    /// Reads one message with the default deadline.
    pub fn read_message(&mut self) -> (r: Result<Message, AdbError>)
        ensures
            *final(self) == *old(self),
            !old(self).read_ready() ==> r == Err::<Message, AdbError>(AdbError::IoError),
            r matches Ok(m) ==> m.wf() && (m.header.data_length != 0 ==> m.integrity_ok()),
            r matches Err(e) ==> (e is Timeout || e is InvalidHeader || e is InvalidIntegrity
                || e is PermissionDenied || e is IoError),
    {
        self.read_message_with_timeout(DEFAULT_TIMEOUT_MS)
    }
}

/// Enumerates the attached USB devices: the identity and alternate-setting
/// class triples of each device whose descriptors can be read.
pub fn enumerate_device_summaries() -> (r: Result<Vec<UsbDeviceSummary>, AdbError>)
    ensures
        r matches Err(e) ==> (e is PermissionDenied || e is Timeout || e is IoError),
{
    let devices = match list_devices() {
        Ok(d) => d,
        Err(e) => {
            return Err(map_usb_error(e));
        },
    };
    let mut out: Vec<UsbDeviceSummary> = Vec::new();
    let mut i: usize = 0;
    while i < devices.len()
        invariant
            i <= devices@.len(),
        decreases devices@.len() - i,
    {
        if let Some((vid, pid)) = device_ids(&devices[i]) {
            let triples = device_interface_triples(&devices[i]);
            out.push(UsbDeviceSummary { vendor_id: vid, product_id: pid, triples });
        }
        i += 1;
    }
    Ok(out)
}

/// Searches the attached USB devices for an ADB device.
///
/// The selection among the enumerated devices is decided by
/// `select_adb_device`: `None` when none qualifies, the single qualifying
/// identity, or `Ambiguous` citing the first two qualifying devices.
pub fn search_adb_devices() -> (r: Result<Option<(u16, u16)>, AdbError>)
    ensures
        r matches Err(e) ==> (e is Ambiguous || e is PermissionDenied || e is Timeout
            || e is IoError),
{
    let summaries = enumerate_device_summaries()?;
    select_adb_device(&summaries)
}

} // verus!
