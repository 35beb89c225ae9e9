//! Reading the macro buffer, and replacing its content in a way that lets a
//! reader tell an interrupted write from a complete one.

use crate::api::KeyboardApi;
use crate::api_commands::ViaCommandId;
use crate::error::{Error, MACRO_DATA};
use crate::session::{sized, After, AfterView};
use crate::transfer::{
    all_fit, lemma_views_concat, lemma_views_push, plan_view, read_buffer, read_windows, views,
    window_header, write_buffer, write_windows, Keep, Request, RequestView, DATA_BUFFER_SIZE,
};
use crate::utils::shift_from_16_bit;
use vstd::prelude::*;

verus! {

/// The last byte of the macro buffer while a write is under way.
pub const WRITE_IN_PROGRESS: u8 = 0xff;

/// The last byte of the macro buffer once a write is complete.
pub const WRITE_COMPLETE: u8 = 0x00;

/// The request that clears the macro buffer.
pub open spec fn reset_request() -> RequestView {
    RequestView {
        command: ViaCommandId::DynamicKeymapMacroReset,
        payload: Seq::empty(),
        keep: Keep::Range { start: 0, len: 0 },
    }
}

/// The request that sets the last byte of a macro buffer of `capacity` bytes
/// to `value`.
pub open spec fn marker(capacity: nat, value: u8) -> RequestView {
    RequestView {
        command: ViaCommandId::DynamicKeymapMacroSetBuffer,
        payload: window_header((capacity - 1) as nat, 1) + seq![value],
        keep: Keep::Range { start: 0, len: 0 },
    }
}

/// Reading a macro buffer of `capacity` bytes: the chunked read of all of it.
pub open spec fn macro_read(capacity: nat) -> Seq<RequestView> {
    read_windows(ViaCommandId::DynamicKeymapMacroGetBuffer, 0, capacity, DATA_BUFFER_SIZE as nat)
}

/// The bytes that a macro write needs in the buffer: those of the data, and
/// one for the marker in any case.
pub open spec fn macro_room(data: Seq<u8>) -> nat {
    if data.len() > 1 {
        data.len()
    } else {
        1
    }
}

/// Replacing the content of a macro buffer of `capacity` bytes by `data`:
/// clear the buffer, mark its last byte as being written, write the data
/// window by window, and mark the last byte as complete. Refused where the
/// buffer has no room for the data, or for the marker.
pub open spec fn macro_write(capacity: nat, data: Seq<u8>) -> Result<Seq<RequestView>, Error> {
    if macro_room(data) > capacity {
        Err(
            Error::SizeExceeded {
                expected: capacity as usize,
                actual: macro_room(data) as usize,
                context: MACRO_DATA,
            },
        )
    } else {
        Ok(
            seq![reset_request(), marker(capacity, WRITE_IN_PROGRESS)] + write_windows(
                ViaCommandId::DynamicKeymapMacroSetBuffer,
                data,
                DATA_BUFFER_SIZE as nat,
            ) + seq![marker(capacity, WRITE_COMPLETE)],
        )
    }
}

/// The request that sets the last byte of the macro buffer.
fn mark(capacity: u16, value: u8) -> (request: Request)
    requires
        capacity > 0,
    ensures
        request@ == marker(capacity as nat, value),
{
    let (hi, lo) = shift_from_16_bit((capacity - 1) as u16);
    let mut payload: Vec<u8> = Vec::new();
    payload.push(hi);
    payload.push(lo);
    payload.push(1u8);
    payload.push(value);
    assert(payload@ =~= marker(capacity as nat, value).payload);
    Request {
        command: ViaCommandId::DynamicKeymapMacroSetBuffer,
        payload,
        keep: Keep::Range { start: 0, len: 0 },
    }
}

impl KeyboardApi {
    /// Plans the read of a macro buffer of `capacity` bytes.
    pub fn macro_read_requests(capacity: u16) -> (requests: Vec<Request>)
        ensures
            views(requests@) == macro_read(capacity as nat),
            all_fit(Ok(views(requests@))),
    {
        match read_buffer(
            ViaCommandId::DynamicKeymapMacroGetBuffer,
            0,
            capacity as usize,
            DATA_BUFFER_SIZE,
        ) {
            Ok(requests) => requests,
            Err(_) => Vec::new(),
        }
    }

    /// Plans the replacement of the content of a macro buffer of `capacity`
    /// bytes by `data`.
    pub fn macro_write_requests(capacity: u16, data: &[u8]) -> (plan: Result<Vec<Request>, Error>)
        ensures
            plan_view(plan) == macro_write(capacity as nat, data@),
            all_fit(plan_view(plan)),
    {
        let room: usize = if data.len() > 1 {
            data.len()
        } else {
            1
        };
        if room > capacity as usize {
            return Err(Error::size_mismatch(MACRO_DATA, capacity as usize, room));
        }
        let mut requests: Vec<Request> = Vec::new();
        let reset = Request {
            command: ViaCommandId::DynamicKeymapMacroReset,
            payload: Vec::new(),
            keep: Keep::Range { start: 0, len: 0 },
        };
        assert(reset@.payload =~= reset_request().payload);
        requests.push(reset);
        requests.push(mark(capacity, WRITE_IN_PROGRESS));
        assert(views(requests@) =~= seq![
            reset_request(),
            marker(capacity as nat, WRITE_IN_PROGRESS),
        ]);
        match write_buffer(ViaCommandId::DynamicKeymapMacroSetBuffer, data, DATA_BUFFER_SIZE) {
            Ok(mut windows) => {
                proof {
                    lemma_views_concat(requests@, windows@);
                }
                requests.append(&mut windows);
            },
            Err(error) => {
                return Err(error);
            },
        }
        let seal = mark(capacity, WRITE_COMPLETE);
        proof {
            lemma_views_push(requests@, seal);
        }
        requests.push(seal);
        assert(views(requests@) =~= macro_write(capacity as nat, data@)->Ok_0);
        Ok(requests)
    }

    /// Begins reading the whole macro buffer: its size is asked for first.
    /// The result holds the macros one after the other, each ended by a zero
    /// byte.
    pub fn get_macro_bytes() -> (step: crate::api::Step)
        ensures
            step@ == sized(AfterView::MacroRead),
    {
        KeyboardApi::begin_sized(After::MacroRead)
    }

    /// Begins replacing the content of the macro buffer by `data`: the size
    /// of the buffer is asked for first.
    pub fn set_macro_bytes(data: Vec<u8>) -> (step: crate::api::Step)
        ensures
            step@ == sized(AfterView::MacroWrite { data: data@ }),
    {
        KeyboardApi::begin_sized(After::MacroWrite { data })
    }
}

} // verus!
