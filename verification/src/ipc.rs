//! The app <-> injector protocol: its messages and the length-prefixed frame
//! that carries each serialised message over the pipe.
use vstd::prelude::*;

use crate::MAX_MESSAGE_BYTES;

verus! {

#[derive(Debug, Clone, PartialEq, Eq)]
pub enum InjectorRequest {
    Hello,
    BeginSession { session_id: String },
    ApplyState { session_id: String, sequence: i64, full_text: String },
    FinishSession { session_id: String, sequence: i64 },
    QuerySession { session_id: String },
    ProbeTarget,
    CancelInvalidSession { session_id: String },
}

#[derive(Debug, Clone, PartialEq, Eq)]
pub enum InjectorResponse {
    Hello { ipc_version: u16, instance_id: String, executable_path: String, elevated: bool },
    SessionBegun { target_name: String },
    Applied { sequence: i64 },
    Finished { sequence: i64 },
    SessionActive { session_id: String, sequence: i64, full_text: String },
    SessionFinished { session_id: String, sequence: i64, full_text: String },
    SessionMissing,
    TargetReady { target_name: String, activity_age_ms: u64 },
    Cancelled,
    TargetNotForeground { target_name: String },
    TargetInvalid,
    TargetModified,
    TargetSubmitted,
    TargetUnsupported,
    TsfUnavailable,
    InjectionUnknown,
    InvalidRequest,
}

/// Why a frame cannot be written or read.
#[derive(Debug, Clone, Copy, PartialEq, Eq, Structural)]
pub enum FrameError {
    /// The payload is longer than `MAX_MESSAGE_BYTES`.
    TooLarge,
    /// The buffer ends before the frame does.
    Incomplete,
}

/// Little-endian encoding of a 32-bit length.
pub open spec fn le_u32_bytes(value: nat) -> Seq<u8> {
    seq![
        (value % 256) as u8,
        ((value / 256) % 256) as u8,
        ((value / 65536) % 256) as u8,
        ((value / 16777216) % 256) as u8,
    ]
}

/// The value of four little-endian bytes.
pub open spec fn le_u32_value(bytes: Seq<u8>) -> nat {
    (bytes[0] as nat) + (bytes[1] as nat) * 256 + (bytes[2] as nat) * 65536 + (bytes[3] as nat)
        * 16777216
}

/// The frame that carries `payload`: its length as four little-endian
/// bytes, then the payload.
pub open spec fn frame_of(payload: Seq<u8>) -> Seq<u8> {
    le_u32_bytes(payload.len()) + payload
}

/// Reading a frame from the front of `buffer`: the payload and the number of
/// bytes the frame takes.
pub open spec fn parse_frame(buffer: Seq<u8>) -> Result<(Seq<u8>, nat), FrameError> {
    if buffer.len() < 4 {
        Err(FrameError::Incomplete)
    } else if le_u32_value(buffer.take(4)) > MAX_MESSAGE_BYTES {
        Err(FrameError::TooLarge)
    } else if buffer.len() < 4 + le_u32_value(buffer.take(4)) {
        Err(FrameError::Incomplete)
    } else {
        Ok(
            (
                buffer.subrange(4, 4 + le_u32_value(buffer.take(4)) as int),
                4 + le_u32_value(buffer.take(4)),
            ),
        )
    }
}

proof fn lemma_le_round_trip(value: nat)
    requires
        value < 0x1_0000_0000,
    ensures
        le_u32_value(le_u32_bytes(value)) == value,
{
    let b0 = value % 256;
    let b1 = (value / 256) % 256;
    let b2 = (value / 65536) % 256;
    let b3 = (value / 16777216) % 256;
    assert(value == b0 + b1 * 256 + b2 * 65536 + b3 * 16777216) by (nonlinear_arith)
        requires
            value < 0x1_0000_0000,
            b0 == value % 256,
            b1 == (value / 256) % 256,
            b2 == (value / 65536) % 256,
            b3 == (value / 16777216) % 256,
    ;
}

/// Frames a serialised message.
pub fn encode_frame(payload: &[u8]) -> (frame: Result<Vec<u8>, FrameError>)
    ensures
        payload@.len() > MAX_MESSAGE_BYTES ==> frame == Err::<Vec<u8>, FrameError>(
            FrameError::TooLarge,
        ),
        payload@.len() <= MAX_MESSAGE_BYTES ==> (frame matches Ok(bytes) && bytes@ == frame_of(
            payload@,
        )),
{
    let length = payload.len();
    if length > MAX_MESSAGE_BYTES {
        return Err(FrameError::TooLarge);
    }
    let mut bytes: Vec<u8> = Vec::new();
    bytes.push((length % 256) as u8);
    bytes.push(((length / 256) % 256) as u8);
    bytes.push(((length / 65536) % 256) as u8);
    bytes.push(((length / 16777216) % 256) as u8);
    let mut index: usize = 0;
    while index < length
        invariant
            length == payload@.len(),
            index <= length,
            bytes@ == le_u32_bytes(length as nat) + payload@.take(index as int),
        decreases length - index,
    {
        proof {
            assert(payload@.take(index + 1) =~= payload@.take(index as int).push(payload@[index as int]));
        }
        bytes.push(payload[index]);
        index += 1;
    }
    proof {
        assert(payload@.take(length as int) =~= payload@);
    }
    Ok(bytes)
}

/// The payload length announced by a frame header.
pub fn frame_payload_len(header: [u8; 4]) -> (length: Result<usize, FrameError>)
    ensures
        le_u32_value(header@) > MAX_MESSAGE_BYTES ==> length == Err::<usize, FrameError>(
            FrameError::TooLarge,
        ),
        le_u32_value(header@) <= MAX_MESSAGE_BYTES ==> length == Ok::<usize, FrameError>(
            le_u32_value(header@) as usize,
        ),
{
    let value: u64 = header[0] as u64 + header[1] as u64 * 256 + header[2] as u64 * 65536
        + header[3] as u64 * 16777216;
    if value > MAX_MESSAGE_BYTES as u64 {
        return Err(FrameError::TooLarge);
    }
    Ok(value as usize)
}

/// Whether a pipe holding `available` bytes, whose first four are `header`,
/// already holds a whole frame.
pub fn frame_is_complete(header: [u8; 4], available: usize) -> (complete: Result<
    bool,
    FrameError,
>)
    ensures
        le_u32_value(header@) > MAX_MESSAGE_BYTES ==> complete == Err::<bool, FrameError>(
            FrameError::TooLarge,
        ),
        le_u32_value(header@) <= MAX_MESSAGE_BYTES ==> complete == Ok::<bool, FrameError>(
            available >= 4 + le_u32_value(header@),
        ),
{
    let length = frame_payload_len(header)?;
    Ok(available >= 4 && available - 4 >= length)
}

/// Reads the frame at the front of `buffer`.
pub fn decode_frame(buffer: &[u8]) -> (result: Result<(Vec<u8>, usize), FrameError>)
    ensures
        match (result, parse_frame(buffer@)) {
            (Ok((payload, used)), Ok((spec_payload, spec_used))) => payload@ == spec_payload
                && used == spec_used,
            (Err(e), Err(spec_e)) => e == spec_e,
            _ => false,
        },
{
    if buffer.len() < 4 {
        return Err(FrameError::Incomplete);
    }
    let header: [u8; 4] = [buffer[0], buffer[1], buffer[2], buffer[3]];
    proof {
        assert(header@ =~= buffer@.take(4));
    }
    let length = frame_payload_len(header)?;
    if buffer.len() - 4 < length {
        return Err(FrameError::Incomplete);
    }
    let total = buffer.len();
    let mut payload: Vec<u8> = Vec::new();
    let mut index: usize = 0;
    while index < length
        invariant
            total == buffer@.len(),
            4 + length <= buffer@.len(),
            index <= length,
            payload@ == buffer@.subrange(4, 4 + index),
        decreases length - index,
    {
        proof {
            assert(buffer@.subrange(4, 4 + index + 1) =~= buffer@.subrange(4, 4 + index).push(
                buffer@[4 + index],
            ));
        }
        payload.push(buffer[4 + index]);
        index += 1;
    }
    Ok((payload, 4 + length))
}

/// Reading back a frame gives the payload that was framed, whatever bytes
/// follow it.
pub proof fn law_frame_round_trip(payload: Seq<u8>, rest: Seq<u8>)
    requires
        payload.len() <= MAX_MESSAGE_BYTES,
    ensures
        parse_frame(frame_of(payload) + rest) == Ok::<(Seq<u8>, nat), FrameError>(
            (payload, 4 + payload.len()),
        ),
{
    let buffer = frame_of(payload) + rest;
    lemma_le_round_trip(payload.len());
    assert(buffer.take(4) =~= le_u32_bytes(payload.len()));
    assert(buffer.subrange(4, 4 + payload.len() as int) =~= payload);
}

} // verus!
