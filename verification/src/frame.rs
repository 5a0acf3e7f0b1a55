//! Byte layout and transport parameters of the control transfers that the
//! monitor understands.

use vstd::prelude::*;

verus! {

/// Length in bytes of one page of the monitor's settings table.
pub const PAGE_LEN: usize = 36;

/// Pause, in milliseconds, that precedes every transfer.
pub const COMMAND_DELAY_MS: u64 = 50;

/// Setup-packet request type of a write: host to device, vendor, device.
pub const WRITE_REQUEST_TYPE: u8 = 0x40;

/// Setup-packet request code of a write.
pub const WRITE_REQUEST: u8 = 178;

/// Setup-packet value of a write.
pub const WRITE_VALUE: u16 = 0x0000;

/// Setup-packet index of a write.
pub const WRITE_INDEX: u16 = 0x0000;

/// Time, in milliseconds, after which a write is given up.
pub const WRITE_TIMEOUT_MS: u64 = 100;

/// Setup-packet request type of a read: device to host, vendor, device.
pub const READ_REQUEST_TYPE: u8 = 0xC0;

/// Setup-packet request code of a read.
pub const READ_REQUEST: u8 = 162;

/// Setup-packet value of a read.
pub const READ_VALUE: u16 = 0x0000;

/// Setup-packet index of a read.
pub const READ_INDEX: u16 = 111;

/// Time, in milliseconds, after which a read is given up.
pub const READ_TIMEOUT_MS: u64 = 1000;

/// Selector byte of the first settings page.
pub const PAGE0_SELECTOR: u8 = 0x50;

/// Selector byte of the second settings page.
pub const PAGE1_SELECTOR: u8 = 0x51;

/// A control-transfer write, ready to be handed to the transport: wait
/// `delay_ms`, then send `payload` under the given setup packet.
#[derive(Clone, Debug)]
pub struct ControlWrite {
    pub delay_ms: u64,
    pub request_type: u8,
    pub request: u8,
    pub value: u16,
    pub index: u16,
    pub payload: Vec<u8>,
    pub timeout_ms: u64,
}

/// Mathematical model of a [`ControlWrite`].
pub ghost struct ControlWriteModel {
    pub delay_ms: u64,
    pub request_type: u8,
    pub request: u8,
    pub value: u16,
    pub index: u16,
    pub payload: Seq<u8>,
    pub timeout_ms: u64,
}

impl View for ControlWrite {
    type V = ControlWriteModel;

    open spec fn view(&self) -> ControlWriteModel {
        ControlWriteModel {
            delay_ms: self.delay_ms,
            request_type: self.request_type,
            request: self.request,
            value: self.value,
            index: self.index,
            payload: self.payload@,
            timeout_ms: self.timeout_ms,
        }
    }
}

/// A control-transfer read, ready to be handed to the transport: wait
/// `delay_ms`, then ask for `length` bytes under the given setup packet.
#[derive(Clone, Copy, Debug, PartialEq, Eq, Structural)]
pub struct ControlRead {
    pub delay_ms: u64,
    pub request_type: u8,
    pub request: u8,
    pub value: u16,
    pub index: u16,
    pub length: usize,
    pub timeout_ms: u64,
}

/// The four bytes that open every feature-set payload.
pub open spec fn set_prefix() -> Seq<u8> {
    seq![0x6Eu8, 0x51u8, 0x84u8, 0x03u8]
}

/// The payload of a feature-set request: the prefix, the two bytes of the
/// command code, then the value.
pub open spec fn set_payload(code: (u8, u8), value: u8) -> Seq<u8> {
    set_prefix() + seq![code.0, code.1, value]
}

/// The payload of a page-select request.
pub open spec fn page_select_payload(selector: u8) -> Seq<u8> {
    seq![0x6Eu8, 0x51u8, 0x83u8, 0x01u8, 0xE0u8, selector]
}

/// The write that carries `payload`: every write shares one setup packet,
/// one timeout and the pause before it.
pub open spec fn write_request(payload: Seq<u8>) -> ControlWriteModel {
    ControlWriteModel {
        delay_ms: 50,
        request_type: 0x40,
        request: 178,
        value: 0,
        index: 0,
        payload,
        timeout_ms: 100,
    }
}

/// The read that fetches the page selected last.
pub open spec fn page_read_request() -> ControlRead {
    ControlRead {
        delay_ms: 50,
        request_type: 0xC0,
        request: 162,
        value: 0,
        index: 111,
        length: 36,
        timeout_ms: 1000,
    }
}

/// Every feature-set payload is seven bytes long and opens with the same
/// four bytes, whatever the command code and the value.
pub proof fn lemma_set_payload_prefix(code: (u8, u8), value: u8)
    ensures
        set_payload(code, value).len() == 7,
        set_payload(code, value).subrange(0, 4) == set_prefix(),
        set_payload(code, value)[0] == 0x6E,
        set_payload(code, value)[1] == 0x51,
        set_payload(code, value)[2] == 0x84,
        set_payload(code, value)[3] == 0x03,
        set_payload(code, value)[4] == code.0,
        set_payload(code, value)[5] == code.1,
        set_payload(code, value)[6] == value,
{
    assert(set_payload(code, value).subrange(0, 4) =~= set_prefix());
}

/// Wraps `payload` into a write with the shared setup packet.
fn write_with(payload: Vec<u8>) -> (request: ControlWrite)
    ensures
        request@ == write_request(payload@),
{
    ControlWrite {
        delay_ms: COMMAND_DELAY_MS,
        request_type: WRITE_REQUEST_TYPE,
        request: WRITE_REQUEST,
        value: WRITE_VALUE,
        index: WRITE_INDEX,
        payload,
        timeout_ms: WRITE_TIMEOUT_MS,
    }
}

/// Encodes the write that sets the feature with command code `code` to
/// `value`. No range is checked here.
pub fn write_value_control(code: (u8, u8), value: u8) -> (request: ControlWrite)
    ensures
        request@ == write_request(set_payload(code, value)),
{
    let mut payload: Vec<u8> = Vec::with_capacity(7);
    payload.push(0x6E);
    payload.push(0x51);
    payload.push(0x84);
    payload.push(0x03);
    payload.push(code.0);
    payload.push(code.1);
    payload.push(value);
    assert(payload@ =~= set_payload(code, value));
    write_with(payload)
}

/// Encodes the write that selects the settings page with the given selector
/// byte for the next read.
pub fn page_select(selector: u8) -> (request: ControlWrite)
    ensures
        request@ == write_request(page_select_payload(selector)),
{
    let mut payload: Vec<u8> = Vec::with_capacity(6);
    payload.push(0x6E);
    payload.push(0x51);
    payload.push(0x83);
    payload.push(0x01);
    payload.push(0xE0);
    payload.push(selector);
    assert(payload@ =~= page_select_payload(selector));
    write_with(payload)
}

/// Builds the read that fetches the page selected last.
pub fn page_read() -> (request: ControlRead)
    ensures
        request == page_read_request(),
{
    ControlRead {
        delay_ms: COMMAND_DELAY_MS,
        request_type: READ_REQUEST_TYPE,
        request: READ_REQUEST,
        value: READ_VALUE,
        index: READ_INDEX,
        length: PAGE_LEN,
        timeout_ms: READ_TIMEOUT_MS,
    }
}

} // verus!
