//! The frame codec: how a command and its payload are laid out in an outbound
//! report, and when an inbound report counts as the answer to it.

use crate::api_commands::ViaCommandId;
use crate::error::{Error, PAYLOAD};
use vstd::prelude::*;

verus! {

/// The report id that opens every outbound frame.
pub const COMMAND_START: u8 = 0x00;

/// The bytes that the device has to echo: the command's byte, then the payload.
pub open spec fn request_bytes(command: ViaCommandId, payload: Seq<u8>) -> Seq<u8> {
    seq![command.spec_code()] + payload
}

/// The outbound frame of `frame_size` bytes: the report id, the command's
/// byte, the payload, and zeros up to the end.
pub open spec fn frame_of(command: ViaCommandId, payload: Seq<u8>, frame_size: nat) -> Seq<u8> {
    Seq::new(
        frame_size,
        |i: int|
            if i == 0 {
                COMMAND_START
            } else if i <= payload.len() + 1 {
                request_bytes(command, payload)[i - 1]
            } else {
                0u8
            },
    )
}

/// Whether a frame of `frame_size` bytes has room for the payload.
pub open spec fn fits_frame(payload: Seq<u8>, frame_size: nat) -> bool {
    payload.len() + 2 <= frame_size
}

/// Whether `response` begins with the bytes of the request.
pub open spec fn echoes(command: ViaCommandId, payload: Seq<u8>, response: Seq<u8>) -> bool {
    request_bytes(command, payload).is_prefix_of(response)
}

/// Builds the outbound frame for a command. A payload that leaves no room for
/// the report id and the command's byte is refused.
pub fn encode(command: ViaCommandId, payload: &[u8], frame_size: usize) -> (frame: Result<
    Vec<u8>,
    Error,
>)
    ensures
        fits_frame(payload@, frame_size as nat) ==> frame.is_ok() && frame.unwrap()@ == frame_of(
            command,
            payload@,
            frame_size as nat,
        ),
        !fits_frame(payload@, frame_size as nat) ==> frame == Err::<Vec<u8>, Error>(
            Error::SizeExceeded {
                expected: if frame_size >= 2 {
                    (frame_size - 2) as usize
                } else {
                    0
                },
                actual: payload@.len() as usize,
                context: PAYLOAD,
            },
        ),
{
    if frame_size < 2 || payload.len() > frame_size - 2 {
        let room: usize = if frame_size >= 2 {
            frame_size - 2
        } else {
            0
        };
        return Err(Error::size_mismatch(PAYLOAD, room, payload.len()));
    }
    let mut frame: Vec<u8> = Vec::with_capacity(frame_size);
    frame.push(COMMAND_START);
    frame.push(command.code());
    let mut i: usize = 0;
    while i < payload.len()
        invariant
            i <= payload@.len(),
            payload@.len() + 2 <= frame_size,
            frame@ == frame_of(command, payload@, frame_size as nat).take(i + 2),
        decreases payload@.len() - i,
    {
        frame.push(payload[i]);
        i = i + 1;
        assert(frame@ =~= frame_of(command, payload@, frame_size as nat).take(i + 2));
    }
    while frame.len() < frame_size
        invariant
            payload@.len() + 2 <= frame@.len() <= frame_size,
            frame@ == frame_of(command, payload@, frame_size as nat).take(frame@.len() as int),
        decreases frame_size - frame@.len(),
    {
        frame.push(0u8);
        assert(frame@ =~= frame_of(command, payload@, frame_size as nat).take(frame@.len() as int));
    }
    assert(frame@ =~= frame_of(command, payload@, frame_size as nat));
    Ok(frame)
}

/// Accepts `response` as the answer to a request if it begins with the
/// request's bytes, and hands it back whole; refuses it otherwise.
pub fn decode_and_validate(command: ViaCommandId, payload: &[u8], response: Vec<u8>) -> (checked:
    Result<Vec<u8>, Error>)
    ensures
        echoes(command, payload@, response@) ==> checked.is_ok() && checked.unwrap()@
            == response@,
        !echoes(command, payload@, response@) ==> checked == Err::<Vec<u8>, Error>(
            Error::BadResponse(command),
        ),
{
    let ghost request = request_bytes(command, payload@);
    if response.len() == 0 || response.len() - 1 < payload.len() {
        return Err(Error::BadResponse(command));
    }
    if response[0] != command.code() {
        assert(request[0] != response@[0]);
        return Err(Error::BadResponse(command));
    }
    let mut i: usize = 0;
    while i < payload.len()
        invariant
            i <= payload@.len(),
            payload@.len() + 1 <= response@.len(),
            request == request_bytes(command, payload@),
            forall|k: int| 0 <= k < i + 1 ==> request[k] == response@[k],
        decreases payload@.len() - i,
    {
        if response[i + 1] != payload[i] {
            assert(request[i + 1] != response@[i + 1]);
            return Err(Error::BadResponse(command));
        }
        i = i + 1;
    }
    Ok(response)
}

/// A report that repeats the request's bytes and goes on with anything at all
/// is accepted as the answer.
pub proof fn lemma_echo_with_any_tail(command: ViaCommandId, payload: Seq<u8>, tail: Seq<u8>)
    ensures
        echoes(command, payload, request_bytes(command, payload) + tail),
{
}

/// A report that is shorter than the request, or differs from it at any
/// position of the request, is refused.
pub proof fn lemma_mismatch_is_refused(
    command: ViaCommandId,
    payload: Seq<u8>,
    response: Seq<u8>,
    at: int,
)
    requires
        0 <= at < payload.len() + 1,
        at >= response.len() || response[at] != request_bytes(command, payload)[at],
    ensures
        !echoes(command, payload, response),
{
}

/// The frame opens with the report id, carries the request's bytes next and is
/// zero from there on.
pub proof fn lemma_frame_layout(command: ViaCommandId, payload: Seq<u8>, frame_size: nat)
    requires
        fits_frame(payload, frame_size),
    ensures
        frame_of(command, payload, frame_size).len() == frame_size,
        frame_of(command, payload, frame_size)[0] == COMMAND_START,
        frame_of(command, payload, frame_size).subrange(1, payload.len() as int + 2) == request_bytes(
            command,
            payload,
        ),
        forall|i: int|
            payload.len() + 2 <= i < frame_size ==> #[trigger] frame_of(
                command,
                payload,
                frame_size,
            )[i] == 0,
{
    assert(frame_of(command, payload, frame_size).subrange(1, payload.len() as int + 2) =~= request_bytes(
        command,
        payload,
    ));
}

} // verus!
