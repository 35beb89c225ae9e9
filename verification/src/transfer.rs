//! Requests, the parts of their answers worth keeping, and the chunked
//! transfer of a buffer that is larger than one frame can carry.

use crate::api_commands::ViaCommandId;
use crate::error::{Error, BUFFER, WINDOW};
use crate::utils::{high_byte, low_byte, shift_buffer_to_16_bit, shift_from_16_bit, words_of};
use vstd::prelude::*;

verus! {

/// Bytes that one report carries after the report id: the command's byte and
/// the payload.
pub const RAW_EPSIZE: usize = 32;

/// Bytes of a buffer that one window moves.
pub const DATA_BUFFER_SIZE: usize = 28;

/// Bytes that a 16-bit offset can address.
pub const ADDRESS_SPACE: usize = 0x10000;

/// Where the data of a window begins in the answer to a buffer read.
pub const DATA_OFFSET: usize = 4;

/// The part of an answer that belongs to the result.
#[derive(Clone, Copy, Debug, PartialEq, Eq)]
pub enum Keep {
    /// The answer as it came.
    All,
    /// `len` bytes from position `start` of the answer; position 0 holds the
    /// echoed command byte.
    Range { start: usize, len: usize },
}

/// The form in which the kept bytes of an operation are handed out.
#[derive(Clone, Copy, Debug, PartialEq, Eq)]
pub enum Shape {
    Empty,
    Byte,
    Flag,
    Word,
    Pair,
    Bytes,
    Words,
}

/// One command with its payload, and what to keep of the answer.
#[derive(Clone, Debug, PartialEq, Eq)]
pub struct Request {
    pub command: ViaCommandId,
    pub payload: Vec<u8>,
    pub keep: Keep,
}

/// A request as a mathematical value.
pub struct RequestView {
    pub command: ViaCommandId,
    pub payload: Seq<u8>,
    pub keep: Keep,
}

impl View for Request {
    type V = RequestView;

    open spec fn view(&self) -> RequestView {
        RequestView { command: self.command, payload: self.payload@, keep: self.keep }
    }
}

/// The result of an operation.
#[derive(Clone, Debug, PartialEq, Eq)]
pub enum Reply {
    Empty,
    Byte(u8),
    Flag(bool),
    Word(u16),
    Pair(u8, u8),
    Bytes(Vec<u8>),
    Words(Vec<u16>),
}

/// A result as a mathematical value.
pub enum ReplyView {
    Empty,
    Byte(u8),
    Flag(bool),
    Word(u16),
    Pair(u8, u8),
    Bytes(Seq<u8>),
    Words(Seq<u16>),
}

impl View for Reply {
    type V = ReplyView;

    open spec fn view(&self) -> ReplyView {
        match self {
            Reply::Empty => ReplyView::Empty,
            Reply::Byte(b) => ReplyView::Byte(*b),
            Reply::Flag(f) => ReplyView::Flag(*f),
            Reply::Word(w) => ReplyView::Word(*w),
            Reply::Pair(a, b) => ReplyView::Pair(*a, *b),
            Reply::Bytes(bytes) => ReplyView::Bytes(bytes@),
            Reply::Words(words) => ReplyView::Words(words@),
        }
    }
}

impl Reply {
    /// The byte of a one-byte result.
    pub fn into_byte(self) -> (byte: Option<u8>)
        ensures
            byte == (match self@ {
                ReplyView::Byte(b) => Some(b),
                _ => None,
            }),
    {
        match self {
            Reply::Byte(b) => Some(b),
            _ => None,
        }
    }

    /// The flag of a result that is a flag.
    pub fn into_flag(self) -> (flag: Option<bool>)
        ensures
            flag == (match self@ {
                ReplyView::Flag(f) => Some(f),
                _ => None,
            }),
    {
        match self {
            Reply::Flag(f) => Some(f),
            _ => None,
        }
    }

    /// The value of a 16-bit result.
    pub fn into_word(self) -> (word: Option<u16>)
        ensures
            word == (match self@ {
                ReplyView::Word(w) => Some(w),
                _ => None,
            }),
    {
        match self {
            Reply::Word(w) => Some(w),
            _ => None,
        }
    }

    /// The two bytes of a result that is a pair.
    pub fn into_pair(self) -> (pair: Option<(u8, u8)>)
        ensures
            pair == (match self@ {
                ReplyView::Pair(a, b) => Some((a, b)),
                _ => None,
            }),
    {
        match self {
            Reply::Pair(a, b) => Some((a, b)),
            _ => None,
        }
    }

    /// The bytes of a result that is a byte string.
    pub fn into_bytes(self) -> (bytes: Option<Vec<u8>>)
        ensures
            match self@ {
                ReplyView::Bytes(b) => bytes is Some && bytes->0@ == b,
                _ => bytes is None,
            },
    {
        match self {
            Reply::Bytes(b) => Some(b),
            _ => None,
        }
    }

    /// The values of a result that is a list of 16-bit values.
    pub fn into_words(self) -> (words: Option<Vec<u16>>)
        ensures
            match self@ {
                ReplyView::Words(w) => words is Some && words->0@ == w,
                _ => words is None,
            },
    {
        match self {
            Reply::Words(w) => Some(w),
            _ => None,
        }
    }
}

/// The requests of a list as mathematical values.
pub open spec fn views(requests: Seq<Request>) -> Seq<RequestView> {
    Seq::new(requests.len(), |i: int| requests[i]@)
}

/// A planned list of requests, or the reason why there is none, as a
/// mathematical value.
pub open spec fn plan_view(plan: Result<Vec<Request>, Error>) -> Result<Seq<RequestView>, Error> {
    match plan {
        Ok(requests) => Ok(views(requests@)),
        Err(error) => Err(error),
    }
}

/// Whether every request of a plan fits into one report.
pub open spec fn all_fit(plan: Result<Seq<RequestView>, Error>) -> bool {
    plan is Ok ==> forall|i: int|
        0 <= i < plan->Ok_0.len() ==> (#[trigger] plan->Ok_0[i]).payload.len() + 1 <= RAW_EPSIZE
}

/// How many kept bytes a shape reads.
pub open spec fn shape_needs(shape: Shape) -> nat {
    match shape {
        Shape::Byte | Shape::Flag => 1,
        Shape::Word | Shape::Pair => 2,
        Shape::Empty | Shape::Bytes | Shape::Words => 0,
    }
}

/// The kept bytes in the given shape: nothing, the first byte, whether the
/// first byte is 1, the first two bytes as a big-endian value or as a pair,
/// all bytes, or all bytes as big-endian 16-bit values.
pub open spec fn reply_of(shape: Shape, kept: Seq<u8>) -> ReplyView {
    match shape {
        Shape::Empty => ReplyView::Empty,
        Shape::Byte => ReplyView::Byte(kept[0]),
        Shape::Flag => ReplyView::Flag(kept[0] == 1),
        Shape::Word => ReplyView::Word(crate::utils::word_of(kept[0], kept[1])),
        Shape::Pair => ReplyView::Pair(kept[0], kept[1]),
        Shape::Bytes => ReplyView::Bytes(kept),
        Shape::Words => ReplyView::Words(words_of(kept)),
    }
}

/// The shape that a result has.
pub open spec fn shape_of(reply: ReplyView) -> Shape {
    match reply {
        ReplyView::Empty => Shape::Empty,
        ReplyView::Byte(_) => Shape::Byte,
        ReplyView::Flag(_) => Shape::Flag,
        ReplyView::Word(_) => Shape::Word,
        ReplyView::Pair(_, _) => Shape::Pair,
        ReplyView::Bytes(_) => Shape::Bytes,
        ReplyView::Words(_) => Shape::Words,
    }
}

/// A result has the shape that it was asked for in, whatever bytes were
/// kept.
pub proof fn lemma_reply_has_shape(shape: Shape, kept: Seq<u8>)
    ensures
        shape_of(reply_of(shape, kept)) == shape,
{
}

/// Hands the kept bytes out in the given shape.
pub(crate) fn shape_reply(shape: Shape, kept: Vec<u8>) -> (reply: Reply)
    requires
        kept@.len() >= shape_needs(shape),
    ensures
        reply@ == reply_of(shape, kept@),
{
    match shape {
        Shape::Empty => Reply::Empty,
        Shape::Byte => Reply::Byte(kept[0]),
        Shape::Flag => Reply::Flag(kept[0] == 1),
        Shape::Word => Reply::Word(crate::utils::shift_to_16_bit(kept[0], kept[1])),
        Shape::Pair => Reply::Pair(kept[0], kept[1]),
        Shape::Bytes => Reply::Bytes(kept),
        Shape::Words => Reply::Words(shift_buffer_to_16_bit(kept.as_slice())),
    }
}

/// The number of windows of at most `window` bytes that a buffer of `total`
/// bytes takes.
pub open spec fn window_count(total: nat, window: nat) -> nat {
    ((total + window - 1) / (window as int)) as nat
}

/// The number of bytes in window `i` of a buffer of `total` bytes: a full
/// window, or what is left of the buffer.
pub open spec fn window_len(total: nat, window: nat, i: int) -> nat {
    if total - window * i < window {
        (total - window * i) as nat
    } else {
        window
    }
}

/// The three bytes that address a window: its offset, high byte first, and its
/// length.
pub open spec fn window_header(offset: nat, len: nat) -> Seq<u8> {
    seq![high_byte(offset as u16), low_byte(offset as u16), len as u8]
}

/// The request that reads window `i` of the `total` bytes at `base`.
pub open spec fn read_window(
    command: ViaCommandId,
    base: nat,
    total: nat,
    window: nat,
    i: int,
) -> RequestView {
    RequestView {
        command,
        payload: window_header((base + window * i) as nat, window_len(total, window, i)),
        keep: Keep::Range { start: DATA_OFFSET, len: window_len(total, window, i) as usize },
    }
}

/// The requests that read `total` bytes at `base` in windows of at most
/// `window` bytes, in rising order of offset.
pub open spec fn read_windows(command: ViaCommandId, base: nat, total: nat, window: nat) -> Seq<
    RequestView,
> {
    Seq::new(window_count(total, window), |i: int| read_window(command, base, total, window, i))
}

/// The bytes that are left of the address space from `base` on.
pub open spec fn room_at(base: nat) -> nat {
    if base <= ADDRESS_SPACE {
        (ADDRESS_SPACE - base) as nat
    } else {
        0
    }
}

/// The chunked read of `total` bytes at `base`, refused where a window does
/// not fit into a report, or the bytes do not all lie in the address space.
pub open spec fn read_transfer(command: ViaCommandId, base: nat, total: nat, window: nat) -> Result<
    Seq<RequestView>,
    Error,
> {
    if window > DATA_BUFFER_SIZE {
        Err(
            Error::SizeExceeded {
                expected: DATA_BUFFER_SIZE,
                actual: window as usize,
                context: WINDOW,
            },
        )
    } else if total > room_at(base) {
        Err(
            Error::SizeExceeded {
                expected: room_at(base) as usize,
                actual: total as usize,
                context: BUFFER,
            },
        )
    } else {
        Ok(read_windows(command, base, total, window))
    }
}

/// The request that writes window `i` of `data`, which goes to the buffer
/// from offset 0 on.
pub open spec fn write_window(command: ViaCommandId, data: Seq<u8>, window: nat, i: int) -> RequestView {
    RequestView {
        command,
        payload: window_header((window * i) as nat, window_len(data.len(), window, i))
            + data.subrange(window * i, window * i + window_len(data.len(), window, i)),
        keep: Keep::Range { start: 0, len: 0 },
    }
}

/// The requests that write `data` from offset 0 on in windows of at most
/// `window` bytes, in rising order of offset.
pub open spec fn write_windows(command: ViaCommandId, data: Seq<u8>, window: nat) -> Seq<
    RequestView,
> {
    Seq::new(window_count(data.len(), window), |i: int| write_window(command, data, window, i))
}

/// The chunked write of `data`, refused where a window does not fit into a
/// report, or the data is larger than the address space.
pub open spec fn write_transfer(command: ViaCommandId, data: Seq<u8>, window: nat) -> Result<
    Seq<RequestView>,
    Error,
> {
    if window > DATA_BUFFER_SIZE {
        Err(
            Error::SizeExceeded {
                expected: DATA_BUFFER_SIZE,
                actual: window as usize,
                context: WINDOW,
            },
        )
    } else if data.len() > ADDRESS_SPACE {
        Err(
            Error::SizeExceeded {
                expected: ADDRESS_SPACE,
                actual: data.len() as usize,
                context: BUFFER,
            },
        )
    } else {
        Ok(write_windows(command, data, window))
    }
}

/// Window `i` begins inside the buffer exactly if it is one of the buffer's
/// windows.
pub proof fn lemma_window_index(total: nat, window: nat, i: nat)
    requires
        window > 0,
    ensures
        window * i < total <==> i < window_count(total, window),
{
    let x: int = total + window - 1;
    let d: int = window as int;
    let count: int = x / d;
    vstd::arithmetic::div_mod::lemma_fundamental_div_mod(x, d);
    vstd::arithmetic::div_mod::lemma_mod_bound(x, d);
    assert(count >= 0) by (nonlinear_arith)
        requires
            x >= 0,
            d > 0,
            count == x / d,
    ;
    if i < count {
        assert(d * (i + 1) <= d * count) by (nonlinear_arith)
            requires
                i + 1 <= count,
                d > 0,
        ;
        assert(d * (i + 1) == d * i + d) by (nonlinear_arith);
    } else {
        assert(d * i >= d * count) by (nonlinear_arith)
            requires
                i >= count,
                d > 0,
        ;
    }
}

/// Appends `source[start..end]` to `target`.
pub(crate) fn extend_bytes(target: &mut Vec<u8>, source: &[u8], start: usize, end: usize)
    requires
        start <= end <= source@.len(),
    ensures
        final(target)@ == old(target)@ + source@.subrange(start as int, end as int),
{
    let mut i: usize = start;
    while i < end
        invariant
            start <= i <= end <= source@.len(),
            target@ == old(target)@ + source@.subrange(start as int, i as int),
        decreases end - i,
    {
        target.push(source[i]);
        i = i + 1;
        assert(target@ =~= old(target)@ + source@.subrange(start as int, i as int));
    }
    assert(target@ =~= old(target)@ + source@.subrange(start as int, end as int));
}

/// The header of the window of `len` bytes at `offset`.
fn header(offset: usize, len: usize) -> (bytes: Vec<u8>)
    requires
        offset < ADDRESS_SPACE,
        len <= DATA_BUFFER_SIZE,
    ensures
        bytes@ == window_header(offset as nat, len as nat),
{
    let (hi, lo) = shift_from_16_bit(offset as u16);
    let mut bytes: Vec<u8> = Vec::new();
    bytes.push(hi);
    bytes.push(lo);
    bytes.push(len as u8);
    assert(bytes@ =~= window_header(offset as nat, len as nat));
    bytes
}

/// Plans the chunked read of `total` bytes at offset `base` of a device
/// buffer: one request per window of at most `window_max` bytes, in rising
/// order of offset, each keeping the window's data from its answer.
pub fn read_buffer(command: ViaCommandId, base: usize, total: usize, window_max: usize) -> (plan:
    Result<Vec<Request>, Error>)
    requires
        window_max > 0,
    ensures
        plan_view(plan) == read_transfer(command, base as nat, total as nat, window_max as nat),
        all_fit(plan_view(plan)),
{
    if window_max > DATA_BUFFER_SIZE {
        return Err(Error::size_mismatch(WINDOW, DATA_BUFFER_SIZE, window_max));
    }
    let room: usize = if base <= ADDRESS_SPACE {
        ADDRESS_SPACE - base
    } else {
        0
    };
    if total > room {
        return Err(Error::size_mismatch(BUFFER, room, total));
    }
    let ghost windows = read_windows(command, base as nat, total as nat, window_max as nat);
    let mut requests: Vec<Request> = Vec::new();
    let mut done: usize = 0;
    while done < total
        invariant
            0 < window_max <= DATA_BUFFER_SIZE,
            total == 0 || base + total <= ADDRESS_SPACE,
            done == window_max * requests@.len(),
            requests@.len() <= windows.len(),
            windows == read_windows(command, base as nat, total as nat, window_max as nat),
            views(requests@) == windows.take(requests@.len() as int),
            forall|k: int|
                0 <= k < requests@.len() ==> (#[trigger] requests@[k]).payload@.len() + 1
                    <= RAW_EPSIZE,
        decreases windows.len() - requests@.len(),
    {
        let ghost i = requests@.len();
        proof {
            lemma_window_index(total as nat, window_max as nat, i);
            assert(window_max * (i + 1) == window_max * i + window_max) by (nonlinear_arith);
        }
        let len: usize = if total - done < window_max {
            total - done
        } else {
            window_max
        };
        let payload = header(base + done, len);
        let request = Request { command, payload, keep: Keep::Range { start: DATA_OFFSET, len } };
        assert(request@ == windows[i as int]);
        proof {
            lemma_views_push(requests@, request);
        }
        requests.push(request);
        done = done + window_max;
        assert(views(requests@) =~= windows.take(i as int + 1));
    }
    proof {
        lemma_window_index(total as nat, window_max as nat, requests@.len());
        assert(windows.take(requests@.len() as int) =~= windows);
    }
    Ok(requests)
}

/// Plans the chunked write of `data` to a device buffer from offset 0 on: one
/// request per window of at most `window_max` bytes, in rising order of
/// offset, each carrying the window's offset, its length and its bytes.
pub fn write_buffer(command: ViaCommandId, data: &[u8], window_max: usize) -> (plan: Result<
    Vec<Request>,
    Error,
>)
    requires
        window_max > 0,
    ensures
        plan_view(plan) == write_transfer(command, data@, window_max as nat),
        all_fit(plan_view(plan)),
{
    if window_max > DATA_BUFFER_SIZE {
        return Err(Error::size_mismatch(WINDOW, DATA_BUFFER_SIZE, window_max));
    }
    let total: usize = data.len();
    if total > ADDRESS_SPACE {
        return Err(Error::size_mismatch(BUFFER, ADDRESS_SPACE, total));
    }
    let ghost windows = write_windows(command, data@, window_max as nat);
    let mut requests: Vec<Request> = Vec::new();
    let mut done: usize = 0;
    while done < total
        invariant
            0 < window_max <= DATA_BUFFER_SIZE,
            total == data@.len(),
            total <= ADDRESS_SPACE,
            done == window_max * requests@.len(),
            requests@.len() <= windows.len(),
            windows == write_windows(command, data@, window_max as nat),
            views(requests@) == windows.take(requests@.len() as int),
            forall|k: int|
                0 <= k < requests@.len() ==> (#[trigger] requests@[k]).payload@.len() + 1
                    <= RAW_EPSIZE,
        decreases windows.len() - requests@.len(),
    {
        let ghost i = requests@.len();
        proof {
            lemma_window_index(total as nat, window_max as nat, i);
            assert(window_max * (i + 1) == window_max * i + window_max) by (nonlinear_arith);
        }
        let len: usize = if total - done < window_max {
            total - done
        } else {
            window_max
        };
        let mut payload = header(done, len);
        extend_bytes(&mut payload, data, done, done + len);
        let request = Request { command, payload, keep: Keep::Range { start: 0, len: 0 } };
        assert(request@ == windows[i as int]);
        proof {
            lemma_views_push(requests@, request);
        }
        requests.push(request);
        done = done + window_max;
        assert(views(requests@) =~= windows.take(i as int + 1));
    }
    proof {
        lemma_window_index(total as nat, window_max as nat, requests@.len());
        assert(windows.take(requests@.len() as int) =~= windows);
    }
    Ok(requests)
}

/// The values of a list that grew by one request.
pub proof fn lemma_views_push(before: Seq<Request>, request: Request)
    ensures
        views(before.push(request)) == views(before).push(request@),
{
    assert(views(before.push(request)) =~= views(before).push(request@));
}

/// The values of two lists joined.
pub proof fn lemma_views_concat(front: Seq<Request>, back: Seq<Request>)
    ensures
        views(front + back) == views(front) + views(back),
{
    assert(views(front + back) =~= views(front) + views(back));
}

/// The windows of a chunked transfer cover the buffer: each but the last is
/// full, none is empty, and the last ends where the buffer ends.
pub proof fn lemma_windows_cover(total: nat, window: nat, i: int)
    requires
        window > 0,
        0 <= i < window_count(total, window),
    ensures
        0 < window_len(total, window, i) <= window,
        window * i + window_len(total, window, i) <= total,
        i + 1 < window_count(total, window) ==> window_len(total, window, i) == window,
        i + 1 == window_count(total, window) ==> window * i + window_len(total, window, i)
            == total,
{
    lemma_window_index(total, window, i as nat);
    lemma_window_index(total, window, (i + 1) as nat);
    assert(window * (i + 1) == window * i + window) by (nonlinear_arith);
}

} // verus!
