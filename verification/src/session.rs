//! The protocol as a state machine over mathematical values: which frame an
//! operation writes next, which report it waits for, and what it ends with.
//! The executable client follows this model step by step.

use crate::api::{MatrixInfo, PROTOCOL_ALPHA, PROTOCOL_BETA};
use crate::api_commands::ViaCommandId;
use crate::error::{Error, PAYLOAD};
use crate::frame::{echoes, frame_of};
use crate::macros::{macro_read, macro_write};
use crate::matrix::{fast_read, fast_write, layers, slow_read, slow_write};
use crate::transfer::{
    reply_of, shape_needs, Keep, ReplyView, RequestView, Shape, RAW_EPSIZE,
};
use crate::utils::word_of;
use vstd::prelude::*;

verus! {

/// Bytes of one outbound report: the report id and `RAW_EPSIZE` more.
pub const REPORT_SIZE: usize = RAW_EPSIZE + 1;

/// The number of layers of a keyboard that cannot be asked for it.
pub const DEFAULT_LAYER_COUNT: u8 = 4;

/// What an operation does once all answers of its running requests are in.
#[derive(Debug)]
pub enum After {
    /// Hand the kept bytes out in the given shape.
    Reply(Shape),
    /// The kept bytes are the protocol version: ask for the layer count, or
    /// answer for a keyboard that cannot be asked.
    LayerCount,
    /// The kept bytes are the protocol version: read the layer's keycodes in
    /// the way that the version allows.
    ReadMatrix { info: MatrixInfo, layer: u8 },
    /// The kept bytes are the protocol version: write the keymap in the way
    /// that the version allows.
    WriteMatrix { info: MatrixInfo, keymap: Vec<Vec<u16>> },
    /// The kept bytes are the size of the macro buffer: read all of it.
    MacroRead,
    /// The kept bytes are the size of the macro buffer: replace its content.
    MacroWrite { data: Vec<u8> },
}

/// A continuation as a mathematical value.
pub enum AfterView {
    Reply(Shape),
    LayerCount,
    ReadMatrix { info: MatrixInfo, layer: u8 },
    WriteMatrix { info: MatrixInfo, keymap: Seq<Seq<u16>> },
    MacroRead,
    MacroWrite { data: Seq<u8> },
}

impl View for After {
    type V = AfterView;

    open spec fn view(&self) -> AfterView {
        match self {
            After::Reply(shape) => AfterView::Reply(*shape),
            After::LayerCount => AfterView::LayerCount,
            After::ReadMatrix { info, layer } => AfterView::ReadMatrix { info: *info, layer: *layer },
            After::WriteMatrix { info, keymap } => AfterView::WriteMatrix {
                info: *info,
                keymap: layers(keymap@),
            },
            After::MacroRead => AfterView::MacroRead,
            After::MacroWrite { data } => AfterView::MacroWrite { data: data@ },
        }
    }
}

/// An operation under way: the requests of its current stage, the one in
/// flight, the bytes kept from the answers so far, whether the request in
/// flight has been written, and what follows the stage.
pub struct Session {
    pub requests: Seq<RequestView>,
    pub index: int,
    pub kept: Seq<u8>,
    pub receiving: bool,
    pub after: AfterView,
}

/// What the caller has to do next for an operation, as a mathematical value.
pub enum StepView {
    /// Write the frame to the channel and report how many bytes went out.
    Write(Session, Seq<u8>),
    /// Read one report from the channel and hand it over.
    Read(Session),
    /// Nothing: the operation has ended, with its result or its failure.
    Done(Result<ReplyView, Error>),
}

/// The kept bytes that a continuation reads.
pub open spec fn after_needs(after: AfterView) -> nat {
    match after {
        AfterView::Reply(shape) => shape_needs(shape),
        _ => 2,
    }
}

/// Whether the stage in flight is the version query of a version-gated
/// operation.
pub open spec fn version_gated(after: AfterView) -> bool {
    after is LayerCount || after is ReadMatrix || after is WriteMatrix
}

/// The failure that an operation ends with when an exchange fails with
/// `error`: a version query that fails leaves the version unknown.
pub open spec fn failure(after: AfterView, error: Error) -> Error {
    if version_gated(after) {
        Error::UnsupportedProtocol(None)
    } else {
        error
    }
}

/// The frame that carries a request.
pub open spec fn frame(request: RequestView) -> Seq<u8> {
    frame_of(request.command, request.payload, REPORT_SIZE as nat)
}

/// Whether a report is the answer to a request and holds all that the request
/// keeps of it.
pub open spec fn accepts(request: RequestView, report: Seq<u8>) -> bool {
    &&& echoes(request.command, request.payload, report)
    &&& match request.keep {
        Keep::All => true,
        Keep::Range { start, len } => start + len <= report.len(),
    }
}

/// The part of a report that a request keeps.
pub open spec fn kept_of(keep: Keep, report: Seq<u8>) -> Seq<u8> {
    match keep {
        Keep::All => report,
        Keep::Range { start, len } => report.subrange(start as int, start + len),
    }
}

/// The first step of a stage with at least one request: write the first
/// request's frame.
pub open spec fn start(requests: Seq<RequestView>, after: AfterView) -> StepView {
    StepView::Write(
        Session { requests, index: 0, kept: Seq::empty(), receiving: false, after },
        frame(requests[0]),
    )
}

/// The first step of the last stage of an operation: the plan's failure, the
/// result at once where the plan holds no request, else its first frame.
pub open spec fn launch(plan: Result<Seq<RequestView>, Error>, shape: Shape) -> StepView {
    match plan {
        Err(error) => StepView::Done(Err(error)),
        Ok(requests) => if requests.len() == 0 {
            StepView::Done(Ok(reply_of(shape, Seq::empty())))
        } else {
            start(requests, AfterView::Reply(shape))
        },
    }
}

/// The plan of an operation that is one exchange: refused where the payload
/// does not fit into a report.
pub open spec fn one(command: ViaCommandId, payload: Seq<u8>, keep: Keep) -> Result<
    Seq<RequestView>,
    Error,
> {
    if payload.len() + 1 <= RAW_EPSIZE {
        Ok(seq![RequestView { command, payload, keep }])
    } else {
        Err(
            Error::SizeExceeded {
                expected: (RAW_EPSIZE - 1) as usize,
                actual: payload.len() as usize,
                context: PAYLOAD,
            },
        )
    }
}

/// The first step of an operation that is one exchange.
pub open spec fn single(command: ViaCommandId, payload: Seq<u8>, keep: Keep, shape: Shape) -> StepView {
    launch(one(command, payload, keep), shape)
}

/// The request for the protocol version; the version is bytes 1 and 2 of the
/// answer.
pub open spec fn version_request() -> RequestView {
    RequestView {
        command: ViaCommandId::GetProtocolVersion,
        payload: Seq::empty(),
        keep: Keep::Range { start: 1, len: 2 },
    }
}

/// The request for the layer count; the count is byte 1 of the answer.
pub open spec fn layer_count_request() -> RequestView {
    RequestView {
        command: ViaCommandId::DynamicKeymapGetLayerCount,
        payload: Seq::empty(),
        keep: Keep::Range { start: 1, len: 1 },
    }
}

/// The request for the size of the macro buffer; the size is bytes 1 and 2 of
/// the answer.
pub open spec fn macro_size_request() -> RequestView {
    RequestView {
        command: ViaCommandId::DynamicKeymapMacroGetBufferSize,
        payload: Seq::empty(),
        keep: Keep::Range { start: 1, len: 2 },
    }
}

/// The first step of an operation that begins with the version query.
pub open spec fn gated(after: AfterView) -> StepView {
    start(seq![version_request()], after)
}

/// The first step of an operation that begins with the macro size query.
pub open spec fn sized(after: AfterView) -> StepView {
    start(seq![macro_size_request()], after)
}

/// What follows a stage whose answers are all in, given the bytes kept from
/// them.
pub open spec fn conclude(after: AfterView, kept: Seq<u8>) -> StepView {
    let value = word_of(kept[0], kept[1]);
    match after {
        AfterView::Reply(shape) => StepView::Done(Ok(reply_of(shape, kept))),
        AfterView::LayerCount => if value >= PROTOCOL_BETA {
            start(seq![layer_count_request()], AfterView::Reply(Shape::Byte))
        } else if value >= PROTOCOL_ALPHA {
            StepView::Done(Ok(ReplyView::Byte(DEFAULT_LAYER_COUNT)))
        } else {
            StepView::Done(Err(Error::UnsupportedProtocol(Some(value))))
        },
        AfterView::ReadMatrix { info, layer } => if value >= PROTOCOL_BETA {
            launch(fast_read(info, layer), Shape::Words)
        } else if value == PROTOCOL_ALPHA {
            launch(Ok(slow_read(info, layer)), Shape::Words)
        } else {
            StepView::Done(Err(Error::UnsupportedProtocol(Some(value))))
        },
        AfterView::WriteMatrix { info, keymap } => if value >= PROTOCOL_BETA {
            launch(fast_write(keymap), Shape::Empty)
        } else if value == PROTOCOL_ALPHA {
            launch(slow_write(info, keymap), Shape::Empty)
        } else {
            StepView::Done(Err(Error::UnsupportedProtocol(Some(value))))
        },
        AfterView::MacroRead => launch(Ok(macro_read(value as nat)), Shape::Bytes),
        AfterView::MacroWrite { data } => launch(macro_write(value as nat, data), Shape::Empty),
    }
}

/// The step after the channel reported a write: read the answer if the whole
/// frame went out and a write was due, else the operation fails.
pub open spec fn on_written(session: Session, count: Option<usize>) -> StepView {
    if !session.receiving && count == Some(REPORT_SIZE) {
        StepView::Read(Session { receiving: true, ..session })
    } else {
        StepView::Done(Err(failure(session.after, Error::Io)))
    }
}

/// The step after the channel handed over a report, or failed to: the
/// operation fails unless a read was due and the report answers the request
/// in flight; else the kept bytes grow by the request's part of the report,
/// and the next request of the stage goes out or the stage is concluded.
pub open spec fn on_received(session: Session, report: Option<Seq<u8>>) -> StepView {
    let request = session.requests[session.index];
    if !session.receiving || report is None {
        StepView::Done(Err(failure(session.after, Error::Io)))
    } else if !accepts(request, report->0) {
        StepView::Done(Err(failure(session.after, Error::BadResponse(request.command))))
    } else {
        let kept = session.kept + kept_of(request.keep, report->0);
        if session.index + 1 < session.requests.len() {
            StepView::Write(
                Session { index: session.index + 1, kept, receiving: false, ..session },
                frame(session.requests[session.index + 1]),
            )
        } else {
            conclude(session.after, kept)
        }
    }
}

} // verus!
