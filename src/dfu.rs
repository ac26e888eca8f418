use crate::error::AppleDeviceError;
use crate::mode::Mode;
use vstd::prelude::*;

verus! {

/// One DFU class request, as the session hands it to the USB layer.
#[derive(Debug, PartialEq, Eq)]
pub enum DfuRequest {
    /// DFU_DNLOAD: send these bytes (empty to signal end of transfer).
    Dnload(Vec<u8>),
    /// DFU_UPLOAD: read this many bytes from the device.
    Upload(usize),
    /// DFU_GETSTATUS: read the six status bytes.
    GetStatus,
    /// DFU_CLRSTATUS: no payload.
    ClrStatus,
}

/// The mathematical content of a request.
pub enum DfuOp {
    Dnload(Seq<u8>),
    Upload(nat),
    GetStatus,
    ClrStatus,
}

impl View for DfuRequest {
    type V = DfuOp;

    open spec fn view(&self) -> DfuOp {
        match self {
            DfuRequest::Dnload(d) => DfuOp::Dnload(d@),
            DfuRequest::Upload(n) => DfuOp::Upload(*n as nat),
            DfuRequest::GetStatus => DfuOp::GetStatus,
            DfuRequest::ClrStatus => DfuOp::ClrStatus,
        }
    }
}

/// The setup fields of a control transfer: request type, request code,
/// value and index.
pub struct ControlSetup {
    pub request_type: u8,
    pub request: u8,
    pub value: u16,
    pub index: u16,
}

/// Length of the status reply.
pub const STATUS_LEN: usize = 6;

/// Request-type byte of a class request to an interface: 0xA1 when the
/// device answers (device to host), 0x21 when the host sends.
pub open spec fn class_interface_type(to_host: bool) -> u8 {
    if to_host {
        0xA1u8
    } else {
        0x21u8
    }
}

/// Relies on rusb::request_type: it ors the direction bit (0x80 for In,
/// 0 for Out), the class type (0x20) and the interface recipient (0x01).
#[verifier::external_body]
fn class_interface_request_type(to_host: bool) -> (r: u8)
    ensures
        r == class_interface_type(to_host),
{
    let direction = if to_host {
        rusb::Direction::In
    } else {
        rusb::Direction::Out
    };
    rusb::request_type(direction, rusb::RequestType::Class, rusb::Recipient::Interface)
}

/// Whether the request reads from the device.
pub open spec fn op_to_host(op: DfuOp) -> bool {
    match op {
        DfuOp::Upload(_) | DfuOp::GetStatus => true,
        _ => false,
    }
}

/// Request code of the request: 1 to 4 in the order of the DFU class.
pub open spec fn op_code(op: DfuOp) -> u8 {
    match op {
        DfuOp::Dnload(_) => 1u8,
        DfuOp::Upload(_) => 2u8,
        DfuOp::GetStatus => 3u8,
        DfuOp::ClrStatus => 4u8,
    }
}

/// Value field: 1 for every download, else 0. A fixed 1 rather than an
/// increasing block number is the behaviour observed on this stage, and kept.
pub open spec fn op_value(op: DfuOp) -> u16 {
    match op {
        DfuOp::Dnload(_) => 1u16,
        _ => 0u16,
    }
}

impl DfuRequest {
    /// The setup fields that the control transfer carries for this request.
    pub fn setup(&self) -> (r: ControlSetup)
        ensures
            r.request_type == class_interface_type(op_to_host(self@)),
            r.request == op_code(self@),
            r.value == op_value(self@),
            r.index == 0,
    {
        let (to_host, request, value): (bool, u8, u16) = match self {
            DfuRequest::Dnload(_) => (false, 1, 1),
            DfuRequest::Upload(_) => (true, 2, 0),
            DfuRequest::GetStatus => (true, 3, 0),
            DfuRequest::ClrStatus => (false, 4, 0),
        };
        ControlSetup {
            request_type: class_interface_request_type(to_host),
            request,
            value,
            index: 0,
        }
    }

    /// Number of bytes that the device is asked for (0 for requests that send).
    pub fn read_len(&self) -> (r: usize)
        ensures
            r == match self@ {
                DfuOp::Upload(n) => n,
                DfuOp::GetStatus => STATUS_LEN as nat,
                _ => 0,
            },
    {
        match self {
            DfuRequest::Upload(n) => *n,
            DfuRequest::GetStatus => STATUS_LEN,
            _ => 0,
        }
    }
}

/// The outcome of a DFU primitive: the request to issue in the DFU stage,
/// and a wrong-mode error, with nothing to issue, in any other stage.
pub open spec fn guarded(mode: Mode, op: DfuOp, r: Result<DfuRequest, AppleDeviceError>) -> bool {
    if mode == Mode::DFU {
        r is Ok && r->Ok_0@ == op
    } else {
        r == Err::<DfuRequest, AppleDeviceError>(AppleDeviceError::WrongMode)
    }
}

/// Copies a byte slice into a vector.
pub fn bytes_to_vec(data: &[u8]) -> (r: Vec<u8>)
    ensures
        r@ == data@,
{
    let mut v: Vec<u8> = Vec::with_capacity(data.len());
    let mut i: usize = 0;
    while i < data.len()
        invariant
            i <= data@.len(),
            v@ == data@.subrange(0, i as int),
        decreases data@.len() - i,
    {
        v.push(data[i]);
        i = i + 1;
        assert(v@ =~= data@.subrange(0, i as int));
    }
    assert(v@ =~= data@);
    v
}

/// DFU_DNLOAD of `data`, in the DFU stage only.
pub fn dfu_dnload(mode: Mode, data: &[u8]) -> (r: Result<DfuRequest, AppleDeviceError>)
    ensures
        guarded(mode, DfuOp::Dnload(data@), r),
{
    if mode != Mode::DFU {
        return Err(AppleDeviceError::WrongMode);
    }
    Ok(DfuRequest::Dnload(bytes_to_vec(data)))
}

/// DFU_UPLOAD into a buffer of `len` bytes, in the DFU stage only.
pub fn dfu_upload(mode: Mode, len: usize) -> (r: Result<DfuRequest, AppleDeviceError>)
    ensures
        guarded(mode, DfuOp::Upload(len as nat), r),
{
    if mode != Mode::DFU {
        return Err(AppleDeviceError::WrongMode);
    }
    Ok(DfuRequest::Upload(len))
}

/// DFU_GETSTATUS, in the DFU stage only.
pub fn dfu_getstatus(mode: Mode) -> (r: Result<DfuRequest, AppleDeviceError>)
    ensures
        guarded(mode, DfuOp::GetStatus, r),
{
    if mode != Mode::DFU {
        return Err(AppleDeviceError::WrongMode);
    }
    Ok(DfuRequest::GetStatus)
}

/// DFU_CLRSTATUS, in the DFU stage only.
pub fn dfu_clrstatus(mode: Mode) -> (r: Result<DfuRequest, AppleDeviceError>)
    ensures
        guarded(mode, DfuOp::ClrStatus, r),
{
    if mode != Mode::DFU {
        return Err(AppleDeviceError::WrongMode);
    }
    Ok(DfuRequest::ClrStatus)
}

/// Poll timeout in milliseconds of a status reply: bytes 1 to 3, little endian.
pub open spec fn poll_timeout_of(status: Seq<u8>) -> nat {
    status[1] as nat + status[2] as nat * 256 + status[3] as nat * 65536
}

/// Reads the poll timeout of a status reply.
pub fn poll_timeout(status: &[u8]) -> (r: u64)
    requires
        status@.len() == STATUS_LEN,
    ensures
        r as nat == poll_timeout_of(status@),
{
    status[1] as u64 + status[2] as u64 * 256 + status[3] as u64 * 65536
}

/// Protocol state code of a status reply.
pub open spec fn state_of(status: Seq<u8>) -> u8 {
    status[4]
}

} // verus!
