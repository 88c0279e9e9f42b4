//! Assembling the list of audio devices from what the hardware layer reports.
//!
//! The caller queries Core Audio for each device and hands the raw answers
//! over as a [`DeviceProbe`]; this module decides what they mean.

use vstd::prelude::*;
use vstd::utf8::{decode_utf8, valid_utf8};
use crate::config::AecError;
use crate::status::{append_decimal, decimal};

verus! {

/// Bytes in one device identifier.
pub const DEVICE_ID_BYTES: u32 = 4;

/// Number of device identifiers in a property of `data_size` bytes.
pub fn device_count(data_size: u32) -> (n: usize)
    ensures
        n == data_size / DEVICE_ID_BYTES,
{
    (data_size / DEVICE_ID_BYTES) as usize
}

/// The hardware-layer calls whose failure ends the listing.
#[derive(Clone, Copy, Debug, PartialEq, Eq, Structural)]
pub enum HalCall {
    /// Asking how large the device list is.
    GetPropertyDataSize,
    /// Reading the device list.
    GetPropertyData,
    /// Reading a device's name.
    DeviceName,
    /// Reading a device's nominal sample rate.
    NominalSampleRate,
}

/// Name of each call as the error text gives it.
pub open spec fn hal_call_name(call: HalCall) -> Seq<char> {
    match call {
        HalCall::GetPropertyDataSize => "AudioObjectGetPropertyDataSize"@,
        HalCall::GetPropertyData => "AudioObjectGetPropertyData"@,
        HalCall::DeviceName => "AudioObjectGetPropertyData (device name)"@,
        HalCall::NominalSampleRate => "AudioObjectGetPropertyData (nominal sample rate)"@,
    }
}

/// `"<call> failed: <status>"`.
pub open spec fn hal_failure_message(call: HalCall, status: i32) -> Seq<char> {
    hal_call_name(call) + " failed: "@ + decimal(status as int)
}

/// Maps the status of a listing call to a result: `0` is success, anything
/// else a backend error naming the call and the status.
pub fn hal_status_to_result(call: HalCall, status: i32) -> (r: Result<(), AecError>)
    ensures
        r is Ok <==> status == 0,
        r matches Err(e) ==> e matches AecError::BackendError(m) && m@ == hal_failure_message(call, status),
{
    if status == 0 {
        Ok(())
    } else {
        let name = match call {
            HalCall::GetPropertyDataSize => "AudioObjectGetPropertyDataSize",
            HalCall::GetPropertyData => "AudioObjectGetPropertyData",
            HalCall::DeviceName => "AudioObjectGetPropertyData (device name)",
            HalCall::NominalSampleRate => "AudioObjectGetPropertyData (nominal sample rate)",
        };
        let mut message = String::from_str(name);
        message.append(" failed: ");
        append_decimal(&mut message, status);
        Err(AecError::BackendError(message))
    }
}

/// A device has streams in a direction when the size query succeeded and
/// reported a non-empty stream list.
pub open spec fn has_streams_spec(status: i32, size: u32) -> bool {
    status == 0 && size > 0
}

/// Whether a device has streams in the direction that was queried.
pub fn has_streams(status: i32, size: u32) -> (b: bool)
    ensures
        b == has_streams_spec(status, size),
{
    status == 0 && size > 0
}

/// Index of the first NUL byte, or the length when there is none.
pub open spec fn nul_index(bytes: Seq<u8>) -> nat
    decreases bytes.len(),
{
    if bytes.len() == 0 {
        0
    } else if bytes[0] == 0 {
        0
    } else {
        1 + nul_index(bytes.drop_first())
    }
}

/// The bytes of a C string buffer before its terminating NUL.
pub open spec fn c_string_bytes(buffer: Seq<u8>) -> Seq<u8> {
    buffer.take(nul_index(buffer) as int)
}

proof fn lemma_nul_index(bytes: Seq<u8>, i: int)
    requires
        0 <= i <= bytes.len(),
        forall|k: int| 0 <= k < i ==> bytes[k] != 0,
        i == bytes.len() || bytes[i] == 0,
    ensures
        nul_index(bytes) == i,
    decreases i,
{
    if i > 0 {
        let rest = bytes.drop_first();
        assert forall|k: int| 0 <= k < i - 1 implies rest[k] != 0 by {
            assert(rest[k] == bytes[k + 1]);
        }
        if i < bytes.len() {
            assert(rest[i - 1] == bytes[i]);
        }
        lemma_nul_index(rest, i - 1);
    }
}

/// What `String::from_utf8_lossy` makes of a byte sequence.
pub uninterp spec fn utf8_lossy(bytes: Seq<u8>) -> Seq<char>;

/// Decodes bytes as UTF-8, replacing every invalid sequence with U+FFFD,
/// by `String::from_utf8_lossy`. Claimed of it: the result is a function of
/// the bytes alone, and valid UTF-8 decodes to exactly the characters it
/// encodes. What replaces invalid input is left unsaid.
#[verifier::external_body]
fn utf8_lossy_string(bytes: &[u8]) -> (s: String)
    ensures
        s@ == utf8_lossy(bytes@),
        valid_utf8(bytes@) ==> s@ == decode_utf8(bytes@),
{
    String::from_utf8_lossy(bytes).into_owned()
}

/// The name a device reports: the text of the C string the name was
/// converted into, or empty when the device has no name or the conversion
/// failed.
pub open spec fn device_name_spec(has_name: bool, converted: bool, buffer: Seq<u8>) -> Seq<char> {
    if has_name && converted {
        utf8_lossy(c_string_bytes(buffer))
    } else {
        Seq::empty()
    }
}

/// The text of a NUL-terminated UTF-8 name buffer.
pub fn device_name(has_name: bool, converted: bool, buffer: &[u8]) -> (name: String)
    ensures
        name@ == device_name_spec(has_name, converted, buffer@),
        has_name && converted && valid_utf8(c_string_bytes(buffer@)) ==> name@ == decode_utf8(c_string_bytes(buffer@)),
{
    if has_name && converted {
        let len = buffer.len();
        let mut i: usize = 0;
        while i < len && buffer[i] != 0
            invariant
                len == buffer@.len(),
                i <= len,
                forall|k: int| 0 <= k < i ==> buffer@[k] != 0,
            decreases len - i,
        {
            i += 1;
        }
        proof {
            lemma_nul_index(buffer@, i as int);
        }
        let mut text: Vec<u8> = Vec::with_capacity(i);
        let mut j: usize = 0;
        while j < i
            invariant
                i <= len,
                len == buffer@.len(),
                j <= i,
                text@ == buffer@.take(j as int),
            decreases i - j,
        {
            text.push(buffer[j]);
            proof {
                assert(buffer@.take(j as int + 1) == buffer@.take(j as int).push(buffer@[j as int]));
            }
            j += 1;
        }
        utf8_lossy_string(text.as_slice())
    } else {
        String::new()
    }
}

/// What the hardware layer answered about one device.
pub struct DeviceProbe {
    /// The device identifier.
    pub id: u32,
    /// Status of the name query.
    pub name_status: i32,
    /// Whether the device returned a name object.
    pub has_name: bool,
    /// Whether the name was converted into `name_buffer` as a C string.
    pub name_converted: bool,
    /// The UTF-8 C string buffer the name was converted into.
    pub name_buffer: Vec<u8>,
    /// Status and size of the input stream list query.
    pub input_status: i32,
    pub input_size: u32,
    /// Status and size of the output stream list query.
    pub output_status: i32,
    pub output_size: u32,
    /// Status of the nominal sample rate query.
    pub rate_status: i32,
    /// Bit pattern (`f64::to_bits`) of the nominal sample rate that was read.
    pub sample_rate_bits: u64,
}

/// A probe is usable when its name and sample-rate queries succeeded.
pub open spec fn probe_ok(probe: DeviceProbe) -> bool {
    probe.name_status == 0 && probe.rate_status == 0
}

/// Text of the error for a probe whose name or sample-rate query failed; the
/// name query is reported first.
pub open spec fn probe_failure_message(probe: DeviceProbe) -> Seq<char> {
    if probe.name_status != 0 {
        hal_failure_message(HalCall::DeviceName, probe.name_status)
    } else {
        hal_failure_message(HalCall::NominalSampleRate, probe.rate_status)
    }
}

/// Checks the status of a device's name and sample-rate queries.
pub fn check_probe(probe: &DeviceProbe) -> (r: Result<(), AecError>)
    ensures
        r is Ok <==> probe_ok(*probe),
        r matches Err(e) ==> e matches AecError::BackendError(m) && m@ == probe_failure_message(*probe),
{
    hal_status_to_result(HalCall::DeviceName, probe.name_status)?;
    hal_status_to_result(HalCall::NominalSampleRate, probe.rate_status)
}

/// Metadata about an audio device.
pub struct DeviceInfo {
    /// Unique device identifier.
    pub id: u32,
    /// Human-readable device name.
    pub name: String,
    /// Whether the device supports audio input.
    pub is_input: bool,
    /// Whether the device supports audio output.
    pub is_output: bool,
    /// Bit pattern (`f64::to_bits`) of the nominal sample rate in Hz.
    pub sample_rate_bits: u64,
    /// Number of channels; not queried, always 0.
    pub channel_count: u32,
}

/// `info` is what the listing reports for the device that answered `probe`.
pub open spec fn describes(info: DeviceInfo, probe: DeviceProbe) -> bool {
    &&& info.id == probe.id
    &&& info.name@ == device_name_spec(probe.has_name, probe.name_converted, probe.name_buffer@)
    &&& info.is_input == has_streams_spec(probe.input_status, probe.input_size)
    &&& info.is_output == has_streams_spec(probe.output_status, probe.output_size)
    &&& info.sample_rate_bits == probe.sample_rate_bits
    &&& info.channel_count == 0
}

/// The entry of the device list for one probed device.
pub fn describe_device(probe: &DeviceProbe) -> (info: DeviceInfo)
    ensures
        describes(info, *probe),
{
    DeviceInfo {
        id: probe.id,
        name: device_name(probe.has_name, probe.name_converted, probe.name_buffer.as_slice()),
        is_input: has_streams(probe.input_status, probe.input_size),
        is_output: has_streams(probe.output_status, probe.output_size),
        sample_rate_bits: probe.sample_rate_bits,
        channel_count: 0,
    }
}

/// The device list, one entry per probed device, in the order the system
/// listed the devices; or, when a device's name or sample-rate query failed,
/// the error of the first such device.
pub fn build_device_list(probes: &Vec<DeviceProbe>) -> (r: Result<Vec<DeviceInfo>, AecError>)
    ensures
        r is Ok <==> (forall|i: int| 0 <= i < probes@.len() ==> probe_ok(#[trigger] probes@[i])),
        r matches Ok(list) ==> list@.len() == probes@.len()
            && forall|i: int| 0 <= i < probes@.len() ==> describes(#[trigger] list@[i], probes@[i]),
        r matches Err(e) ==> exists|k: int| {
            &&& 0 <= k < probes@.len()
            &&& !probe_ok(#[trigger] probes@[k])
            &&& forall|j: int| 0 <= j < k ==> probe_ok(#[trigger] probes@[j])
            &&& e matches AecError::BackendError(m) && m@ == probe_failure_message(probes@[k])
        },
{
    let n = probes.len();
    let mut list: Vec<DeviceInfo> = Vec::with_capacity(n);
    let mut i: usize = 0;
    while i < n
        invariant
            n == probes@.len(),
            i <= n,
            list@.len() == i,
            forall|k: int| 0 <= k < i ==> probe_ok(#[trigger] probes@[k]),
            forall|k: int| 0 <= k < i ==> describes(#[trigger] list@[k], probes@[k]),
        decreases n - i,
    {
        let checked = check_probe(&probes[i]);
        match checked {
            Ok(()) => {},
            Err(e) => {
                assert(!probe_ok(probes@[i as int]));
                return Err(e);
            },
        }
        let info = describe_device(&probes[i]);
        list.push(info);
        i += 1;
    }
    Ok(list)
}


/// A device has streams in a direction exactly when the stream-list size
/// query succeeded and reported a non-empty list; one stream identifier
/// (4 bytes) is enough.
pub proof fn lemma_has_streams(status: i32, size: u32)
    ensures
        has_streams_spec(status, size) <==> (status == 0 && size > 0),
        has_streams_spec(0, 4),
        !has_streams_spec(0, 0),
{
}

/// The text taken from a name buffer is the longest prefix free of NUL
/// bytes: it is a prefix of the buffer, holds no NUL, and is followed by a
/// NUL or by the end of the buffer.
pub proof fn lemma_c_string_bytes(buffer: Seq<u8>)
    ensures
        c_string_bytes(buffer).len() <= buffer.len(),
        c_string_bytes(buffer) == buffer.take(c_string_bytes(buffer).len() as int),
        forall|k: int| 0 <= k < c_string_bytes(buffer).len() ==> #[trigger] c_string_bytes(buffer)[k] != 0,
        c_string_bytes(buffer).len() == buffer.len() || buffer[c_string_bytes(buffer).len() as int] == 0,
{
    lemma_nul_index_bounds(buffer);
}

proof fn lemma_nul_index_bounds(bytes: Seq<u8>)
    ensures
        nul_index(bytes) <= bytes.len(),
        forall|k: int| 0 <= k < nul_index(bytes) ==> #[trigger] bytes[k] != 0,
        nul_index(bytes) == bytes.len() || bytes[nul_index(bytes) as int] == 0,
    decreases bytes.len(),
{
    if bytes.len() > 0 && bytes[0] != 0 {
        let rest = bytes.drop_first();
        lemma_nul_index_bounds(rest);
        assert forall|k: int| 0 <= k < nul_index(bytes) implies #[trigger] bytes[k] != 0 by {
            if k > 0 {
                assert(bytes[k] == rest[k - 1]);
            }
        }
        if nul_index(rest) < rest.len() {
            assert(bytes[nul_index(bytes) as int] == rest[nul_index(rest) as int]);
        }
    }
}

/// A probe is usable exactly when both its name query and its sample-rate
/// query returned 0; the error of an unusable probe names the name query
/// when that one failed, and the sample-rate query otherwise, with the
/// status it returned.
pub proof fn lemma_probe_checks(probe: DeviceProbe)
    ensures
        probe_ok(probe) <==> (probe.name_status == 0 && probe.rate_status == 0),
        probe.name_status != 0 ==> probe_failure_message(probe)
            == "AudioObjectGetPropertyData (device name)"@ + " failed: "@ + decimal(probe.name_status as int),
        probe.name_status == 0 && probe.rate_status != 0 ==> probe_failure_message(probe)
            == "AudioObjectGetPropertyData (nominal sample rate)"@ + " failed: "@ + decimal(probe.rate_status as int),
{
}

/// What the listing reports of a device: its identifier, its name, input
/// (output) capability exactly when the input (output) stream-list query
/// succeeded with a non-empty list, the sample rate exactly as read, and no
/// channel count.
pub proof fn lemma_describes(info: DeviceInfo, probe: DeviceProbe)
    requires
        describes(info, probe),
    ensures
        info.id == probe.id,
        info.is_input == (probe.input_status == 0 && probe.input_size > 0),
        info.is_output == (probe.output_status == 0 && probe.output_size > 0),
        info.sample_rate_bits == probe.sample_rate_bits,
        info.channel_count == 0,
        probe.has_name && probe.name_converted ==> info.name@ == utf8_lossy(c_string_bytes(probe.name_buffer@)),
        !(probe.has_name && probe.name_converted) ==> info.name@ == Seq::<char>::empty(),
{
}


/// A device identifier is 4 bytes, and the listing calls are named as Core
/// Audio names them.
pub proof fn lemma_device_constants()
    ensures
        DEVICE_ID_BYTES == 4,
        hal_call_name(HalCall::GetPropertyDataSize) == "AudioObjectGetPropertyDataSize"@,
        hal_call_name(HalCall::GetPropertyData) == "AudioObjectGetPropertyData"@,
        forall|call: HalCall, status: i32| #[trigger] hal_failure_message(call, status)
            == hal_call_name(call) + " failed: "@ + decimal(status as int),
{
}

} // verus!
