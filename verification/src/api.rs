//! The keyboard client. Each operation begins with a call that names it and
//! returns the first step; the caller performs the step on the channel,
//! reports the outcome with `written` or `received`, and goes on with the
//! step that comes back, until the operation is done.

use crate::api_commands::ViaCommandId;
use crate::error::{Error, PAYLOAD};
use crate::frame::{decode_and_validate, encode};
use crate::session::{
    after_needs, conclude, failure, gated, launch, on_received, on_written, single, sized, start,
    version_gated, After, AfterView, Session, StepView, DEFAULT_LAYER_COUNT, REPORT_SIZE,
};
use crate::transfer::{
    all_fit, extend_bytes, plan_view, shape_needs, shape_reply, views, Keep, Reply, ReplyView,
    Request, RequestView, Shape, RAW_EPSIZE,
};
use crate::utils::{shift_from_16_bit, shift_to_16_bit};
use vstd::prelude::*;

verus! {

/// The oldest protocol version that the client speaks: keycodes are reached
/// cell by cell, and the keyboard has four layers.
pub const PROTOCOL_ALPHA: u16 = 7;

/// The protocol version that brought the layer count and the keymap buffer.
pub const PROTOCOL_BETA: u16 = 8;

/// A later protocol version, which the client treats like `PROTOCOL_BETA`.
pub const PROTOCOL_GAMMA: u16 = 9;

pub type Layer = u8;

pub type Row = u8;

pub type Column = u8;

/// The size of the key matrix.
#[derive(Clone, Copy, Debug, PartialEq, Eq)]
pub struct MatrixInfo {
    pub rows: u8,
    pub cols: u8,
}

impl MatrixInfo {
    /// The number of cells of the matrix.
    pub open spec fn cells(self) -> nat {
        (self.rows as nat) * (self.cols as nat)
    }

    /// The number of cells of the matrix.
    pub fn cell_count(self) -> (count: usize)
        ensures
            count == self.cells(),
            count <= 65025,
    {
        assert((self.rows as nat) * (self.cols as nat) <= 65025) by (nonlinear_arith)
            requires
                self.rows <= 255,
                self.cols <= 255,
        ;
        self.rows as usize * self.cols as usize
    }
}

/// The facts that a keyboard can be asked for.
#[derive(Clone, Copy, Debug, PartialEq, Eq)]
pub enum KeyboardValue {
    Uptime,
    LayoutOptions,
    SwitchMatrixState,
    FirmwareVersion,
    DeviceIndication,
}

impl KeyboardValue {
    /// The byte that stands for this value on the wire.
    pub open spec fn spec_code(self) -> u8 {
        match self {
            KeyboardValue::Uptime => 0x01,
            KeyboardValue::LayoutOptions => 0x02,
            KeyboardValue::SwitchMatrixState => 0x03,
            KeyboardValue::FirmwareVersion => 0x04,
            KeyboardValue::DeviceIndication => 0x05,
        }
    }

    /// The byte that stands for this value on the wire.
    #[verifier::when_used_as_spec(spec_code)]
    pub fn code(self) -> (byte: u8)
        ensures
            byte == self.spec_code(),
    {
        match self {
            KeyboardValue::Uptime => 0x01,
            KeyboardValue::LayoutOptions => 0x02,
            KeyboardValue::SwitchMatrixState => 0x03,
            KeyboardValue::FirmwareVersion => 0x04,
            KeyboardValue::DeviceIndication => 0x05,
        }
    }
}

impl KeyboardValue {
    /// The value that a name stands for, if it is the name of one.
    pub open spec fn named(name: Seq<char>) -> Option<KeyboardValue> {
        if name == "Uptime"@ {
            Some(KeyboardValue::Uptime)
        } else if name == "LayoutOptions"@ {
            Some(KeyboardValue::LayoutOptions)
        } else if name == "SwitchMatrixState"@ {
            Some(KeyboardValue::SwitchMatrixState)
        } else if name == "FirmwareVersion"@ {
            Some(KeyboardValue::FirmwareVersion)
        } else if name == "DeviceIndication"@ {
            Some(KeyboardValue::DeviceIndication)
        } else {
            None
        }
    }

    /// Reads a value from its name, written as the variant is.
    pub fn from_name(s: &str) -> (value: Option<KeyboardValue>)
        ensures
            value == KeyboardValue::named(s@),
    {
        let name = s.to_owned();
        if name == "Uptime".to_owned() {
            Some(KeyboardValue::Uptime)
        } else if name == "LayoutOptions".to_owned() {
            Some(KeyboardValue::LayoutOptions)
        } else if name == "SwitchMatrixState".to_owned() {
            Some(KeyboardValue::SwitchMatrixState)
        } else if name == "FirmwareVersion".to_owned() {
            Some(KeyboardValue::FirmwareVersion)
        } else if name == "DeviceIndication".to_owned() {
            Some(KeyboardValue::DeviceIndication)
        } else {
            None
        }
    }
}

impl core::str::FromStr for KeyboardValue {
    type Err = &'static str;

    fn from_str(s: &str) -> (value: Result<Self, Self::Err>)
        ensures
            match value {
                Ok(found) => KeyboardValue::named(s@) == Some(found),
                Err(message) => KeyboardValue::named(s@) is None && message@
                    == "Invalid KeyboardValue"@,
            },
    {
        match KeyboardValue::from_name(s) {
            Some(value) => Ok(value),
            None => Err("Invalid KeyboardValue"),
        }
    }
}

/// Whether a request keeps at least `needed` bytes of its answer.
pub open spec fn keeps_enough(keep: Keep, needed: nat) -> bool {
    match keep {
        Keep::All => needed == 0,
        Keep::Range { start, len } => len >= needed,
    }
}

/// The result of an operation as a mathematical value.
pub open spec fn outcome_view(outcome: Result<Reply, Error>) -> Result<ReplyView, Error> {
    match outcome {
        Ok(reply) => Ok(reply@),
        Err(error) => Err(error),
    }
}

/// A report handed over by the channel, as a mathematical value.
pub open spec fn report_view(report: Option<Vec<u8>>) -> Option<Seq<u8>> {
    match report {
        Some(bytes) => Some(bytes@),
        None => None,
    }
}

/// An operation under way on a keyboard.
#[derive(Debug)]
pub struct KeyboardApi {
    requests: Vec<Request>,
    index: usize,
    kept: Vec<u8>,
    receiving: bool,
    after: After,
}

/// What the caller has to do next for an operation.
#[derive(Debug)]
pub enum Step {
    /// Write the frame to the channel, then call `written` on the client with
    /// the number of bytes that went out, or `None` if the write failed.
    Write(KeyboardApi, Vec<u8>),
    /// Read one report from the channel, then call `received` on the client
    /// with the report, or `None` if the read failed.
    Read(KeyboardApi),
    /// Nothing: the operation has ended, with its result or its failure.
    Done(Result<Reply, Error>),
}

impl View for KeyboardApi {
    type V = Session;

    closed spec fn view(&self) -> Session {
        Session {
            requests: views(self.requests@),
            index: self.index as int,
            kept: self.kept@,
            receiving: self.receiving,
            after: self.after@,
        }
    }
}

impl View for Step {
    type V = StepView;

    open spec fn view(&self) -> StepView {
        match self {
            Step::Write(api, frame) => StepView::Write(api@, frame@),
            Step::Read(api) => StepView::Read(api@),
            Step::Done(outcome) => StepView::Done(outcome_view(*outcome)),
        }
    }
}

/// The failure that an operation ends with when an exchange fails.
fn fail(after: &After, error: Error) -> (ended: Error)
    ensures
        ended == failure(after@, error),
{
    match after {
        After::LayerCount => Error::UnsupportedProtocol(None),
        After::ReadMatrix { .. } => Error::UnsupportedProtocol(None),
        After::WriteMatrix { .. } => Error::UnsupportedProtocol(None),
        _ => error,
    }
}

/// A request without a payload.
fn bare(command: ViaCommandId, keep: Keep) -> (requests: Vec<Request>)
    ensures
        views(requests@) == seq![RequestView { command, payload: Seq::empty(), keep }],
        requests@.len() == 1,
        requests@[0].payload@.len() == 0,
        requests@[0].keep == keep,
{
    let mut requests: Vec<Request> = Vec::new();
    let request = Request { command, payload: Vec::new(), keep };
    assert(request@.payload =~= Seq::<u8>::empty());
    requests.push(request);
    assert(views(requests@) =~= seq![RequestView { command, payload: Seq::empty(), keep }]);
    requests
}

impl KeyboardApi {
    #[verifier::type_invariant]
    spec fn well_formed(self) -> bool {
        &&& self.index < self.requests@.len()
        &&& forall|i: int|
            0 <= i < self.requests@.len() ==> (#[trigger] self.requests@[i]).payload@.len() + 1
                <= RAW_EPSIZE
        &&& keeps_enough(self.requests@.last().keep, after_needs(self.after@))
    }

    /// Begins a stage: the first request's frame is to be written.
    pub(crate) fn begin(requests: Vec<Request>, after: After) -> (step: Step)
        requires
            requests@.len() > 0,
            all_fit(Ok(views(requests@))),
            keeps_enough(requests@.last().keep, after_needs(after@)),
        ensures
            step@ == start(views(requests@), after@),
    {
        assert(views(requests@)[0].payload.len() + 1 <= RAW_EPSIZE);
        assert forall|i: int| 0 <= i < requests@.len() implies (#[trigger] requests@[i]).payload@.len()
            + 1 <= RAW_EPSIZE by {
            assert(views(requests@)[i].payload.len() + 1 <= RAW_EPSIZE);
        }
        match encode(requests[0].command, requests[0].payload.as_slice(), REPORT_SIZE) {
            Ok(frame) => Step::Write(
                KeyboardApi { requests, index: 0, kept: Vec::new(), receiving: false, after },
                frame,
            ),
            Err(error) => Step::Done(Err(error)),
        }
    }

    /// Begins the last stage of an operation.
    pub(crate) fn launch(plan: Result<Vec<Request>, Error>, shape: Shape) -> (step: Step)
        requires
            all_fit(plan_view(plan)),
            plan matches Ok(requests) ==> if requests@.len() == 0 {
                shape_needs(shape) == 0
            } else {
                keeps_enough(requests@.last().keep, shape_needs(shape))
            },
        ensures
            step@ == launch(plan_view(plan), shape),
    {
        match plan {
            Err(error) => Step::Done(Err(error)),
            Ok(requests) => {
                if requests.len() == 0 {
                    Step::Done(Ok(shape_reply(shape, Vec::new())))
                } else {
                    KeyboardApi::begin(requests, After::Reply(shape))
                }
            },
        }
    }

    /// Begins an operation that is one exchange.
    pub(crate) fn exchange(command: ViaCommandId, payload: Vec<u8>, keep: Keep, shape: Shape) -> (step:
        Step)
        requires
            keeps_enough(keep, shape_needs(shape)),
        ensures
            step@ == single(command, payload@, keep, shape),
    {
        if payload.len() > RAW_EPSIZE - 1 {
            return Step::Done(Err(Error::size_mismatch(PAYLOAD, RAW_EPSIZE - 1, payload.len())));
        }
        let mut requests: Vec<Request> = Vec::new();
        let ghost bytes = payload@;
        requests.push(Request { command, payload, keep });
        assert(views(requests@) =~= seq![RequestView { command, payload: bytes, keep }]);
        KeyboardApi::begin(requests, After::Reply(shape))
    }

    /// Begins an operation whose course depends on the protocol version.
    pub(crate) fn begin_gated(after: After) -> (step: Step)
        requires
            version_gated(after@),
        ensures
            step@ == gated(after@),
    {
        KeyboardApi::begin(
            bare(ViaCommandId::GetProtocolVersion, Keep::Range { start: 1, len: 2 }),
            after,
        )
    }

    /// Begins an operation on the macro buffer, whose size is asked for first.
    pub(crate) fn begin_sized(after: After) -> (step: Step)
        requires
            after@ is MacroRead || after@ is MacroWrite,
        ensures
            step@ == sized(after@),
    {
        KeyboardApi::begin(
            bare(ViaCommandId::DynamicKeymapMacroGetBufferSize, Keep::Range { start: 1, len: 2 }),
            after,
        )
    }

    /// What follows a stage whose answers are all in.
    fn conclude(after: After, kept: Vec<u8>) -> (step: Step)
        requires
            kept@.len() >= after_needs(after@),
        ensures
            step@ == conclude(after@, kept@),
    {
        match after {
            After::Reply(shape) => Step::Done(Ok(shape_reply(shape, kept))),
            After::LayerCount => {
                let version: u16 = shift_to_16_bit(kept[0], kept[1]);
                if version >= PROTOCOL_BETA {
                    KeyboardApi::begin(
                        bare(
                            ViaCommandId::DynamicKeymapGetLayerCount,
                            Keep::Range { start: 1, len: 1 },
                        ),
                        After::Reply(Shape::Byte),
                    )
                } else if version >= PROTOCOL_ALPHA {
                    Step::Done(Ok(Reply::Byte(DEFAULT_LAYER_COUNT)))
                } else {
                    Step::Done(Err(Error::UnsupportedProtocol(Some(version))))
                }
            },
            After::ReadMatrix { info, layer } => {
                let version: u16 = shift_to_16_bit(kept[0], kept[1]);
                if version >= PROTOCOL_BETA {
                    KeyboardApi::launch(KeyboardApi::fast_read_raw_matrix(info, layer), Shape::Words)
                } else if version == PROTOCOL_ALPHA {
                    KeyboardApi::launch(
                        Ok(KeyboardApi::slow_read_raw_matrix(info, layer)),
                        Shape::Words,
                    )
                } else {
                    Step::Done(Err(Error::UnsupportedProtocol(Some(version))))
                }
            },
            After::WriteMatrix { info, keymap } => {
                let version: u16 = shift_to_16_bit(kept[0], kept[1]);
                if version >= PROTOCOL_BETA {
                    KeyboardApi::launch(KeyboardApi::fast_write_raw_matrix(&keymap), Shape::Empty)
                } else if version == PROTOCOL_ALPHA {
                    KeyboardApi::launch(
                        KeyboardApi::slow_write_raw_matrix(info, &keymap),
                        Shape::Empty,
                    )
                } else {
                    Step::Done(Err(Error::UnsupportedProtocol(Some(version))))
                }
            },
            After::MacroRead => {
                let capacity: u16 = shift_to_16_bit(kept[0], kept[1]);
                KeyboardApi::launch(Ok(KeyboardApi::macro_read_requests(capacity)), Shape::Bytes)
            },
            After::MacroWrite { data } => {
                let capacity: u16 = shift_to_16_bit(kept[0], kept[1]);
                KeyboardApi::launch(
                    KeyboardApi::macro_write_requests(capacity, data.as_slice()),
                    Shape::Empty,
                )
            },
        }
    }

    /// Takes the channel's report on the write that the last step asked for:
    /// the number of bytes that went out, or `None` if the write failed. The
    /// answer is to be read next if the whole frame went out; the operation
    /// fails otherwise, and also where no write was due.
    pub fn written(self, count: Option<usize>) -> (step: Step)
        ensures
            step@ == on_written(self@, count),
    {
        proof {
            use_type_invariant(&self);
        }
        let whole: bool = match count {
            Some(n) => n == REPORT_SIZE,
            None => false,
        };
        if !self.receiving && whole {
            Step::Read(
                KeyboardApi {
                    requests: self.requests,
                    index: self.index,
                    kept: self.kept,
                    receiving: true,
                    after: self.after,
                },
            )
        } else {
            Step::Done(Err(fail(&self.after, Error::Io)))
        }
    }

    /// Takes the report that the last step asked to read, or `None` if the
    /// read failed. The operation fails unless a read was due and the report
    /// echoes the request in flight and holds the fields that the request
    /// returns. Otherwise the next frame is to be written, or the operation
    /// is done.
    pub fn received(self, report: Option<Vec<u8>>) -> (step: Step)
        ensures
            step@ == on_received(self@, report_view(report)),
    {
        proof {
            use_type_invariant(&self);
        }
        let command = self.requests[self.index].command;
        let keep = self.requests[self.index].keep;
        if !self.receiving {
            return Step::Done(Err(fail(&self.after, Error::Io)));
        }
        let report = match report {
            Some(report) => report,
            None => {
                return Step::Done(Err(fail(&self.after, Error::Io)));
            },
        };
        let report = match decode_and_validate(
            command,
            self.requests[self.index].payload.as_slice(),
            report,
        ) {
            Ok(report) => report,
            Err(_) => {
                return Step::Done(Err(fail(&self.after, Error::BadResponse(command))));
            },
        };
        let mut kept = self.kept;
        match keep {
            Keep::All => {
                extend_bytes(&mut kept, report.as_slice(), 0, report.len());
                assert(report@.subrange(0, report@.len() as int) =~= report@);
            },
            Keep::Range { start, len } => {
                if len > report.len() || start > report.len() - len {
                    return Step::Done(Err(fail(&self.after, Error::BadResponse(command))));
                }
                extend_bytes(&mut kept, report.as_slice(), start, start + len);
            },
        }
        let count: usize = self.requests.len();
        if self.index < count - 1 {
            let next: usize = self.index + 1;
            match encode(
                self.requests[next].command,
                self.requests[next].payload.as_slice(),
                REPORT_SIZE,
            ) {
                Ok(frame) => Step::Write(
                    KeyboardApi {
                        requests: self.requests,
                        index: next,
                        kept,
                        receiving: false,
                        after: self.after,
                    },
                    frame,
                ),
                Err(error) => Step::Done(Err(error)),
            }
        } else {
            KeyboardApi::conclude(self.after, kept)
        }
    }

    /// Begins a raw exchange: the command with the given payload. The result
    /// is the whole answer.
    pub fn hid_command(command: ViaCommandId, bytes: Vec<u8>) -> (step: Step)
        ensures
            step@ == single(command, bytes@, Keep::All, Shape::Bytes),
    {
        KeyboardApi::exchange(command, bytes, Keep::All, Shape::Bytes)
    }

    /// Begins reading the protocol version, which is bytes 1 and 2 of the
    /// answer, high byte first.
    pub fn get_protocol_version() -> (step: Step)
        ensures
            step@ == single(
                ViaCommandId::GetProtocolVersion,
                Seq::empty(),
                Keep::Range { start: 1, len: 2 },
                Shape::Word,
            ),
    {
        KeyboardApi::exchange(
            ViaCommandId::GetProtocolVersion,
            Vec::new(),
            Keep::Range { start: 1, len: 2 },
            Shape::Word,
        )
    }

    /// Begins reading the number of layers: the protocol version is asked for
    /// first, and decides whether the keyboard can be asked for the count.
    pub fn get_layer_count() -> (step: Step)
        ensures
            step@ == gated(AfterView::LayerCount),
    {
        KeyboardApi::begin_gated(After::LayerCount)
    }

    /// Begins reading the keycode at a layer, row and column.
    pub fn get_key(layer: Layer, row: Row, col: Column) -> (step: Step)
        ensures
            step@ == single(
                ViaCommandId::DynamicKeymapGetKeycode,
                seq![layer, row, col],
                Keep::Range { start: 4, len: 2 },
                Shape::Word,
            ),
    {
        let mut bytes: Vec<u8> = Vec::new();
        bytes.push(layer);
        bytes.push(row);
        bytes.push(col);
        assert(bytes@ =~= seq![layer, row, col]);
        KeyboardApi::exchange(
            ViaCommandId::DynamicKeymapGetKeycode,
            bytes,
            Keep::Range { start: 4, len: 2 },
            Shape::Word,
        )
    }

    /// Begins setting the keycode at a layer, row and column. The result is
    /// the keycode that the keyboard reports back.
    pub fn set_key(layer: Layer, row: Row, column: Column, val: u16) -> (step: Step)
        ensures
            step@ == single(
                ViaCommandId::DynamicKeymapSetKeycode,
                seq![
                    layer,
                    row,
                    column,
                    crate::utils::high_byte(val),
                    crate::utils::low_byte(val),
                ],
                Keep::Range { start: 4, len: 2 },
                Shape::Word,
            ),
    {
        let val_bytes = shift_from_16_bit(val);
        let mut bytes: Vec<u8> = Vec::new();
        bytes.push(layer);
        bytes.push(row);
        bytes.push(column);
        bytes.push(val_bytes.0);
        bytes.push(val_bytes.1);
        assert(bytes@ =~= seq![
            layer,
            row,
            column,
            crate::utils::high_byte(val),
            crate::utils::low_byte(val),
        ]);
        KeyboardApi::exchange(
            ViaCommandId::DynamicKeymapSetKeycode,
            bytes,
            Keep::Range { start: 4, len: 2 },
            Shape::Word,
        )
    }

    /// Begins reading a keyboard value. The result is the `result_length`
    /// bytes of the answer that follow the echoed request.
    pub fn get_keyboard_value(
        command: KeyboardValue,
        parameters: Vec<u8>,
        result_length: usize,
    ) -> (step: Step)
        ensures
            step@ == single(
                ViaCommandId::GetKeyboardValue,
                seq![command.spec_code()] + parameters@,
                Keep::Range { start: (1 + parameters@.len()) as usize, len: result_length },
                Shape::Bytes,
            ),
    {
        let start: usize = if parameters.len() < RAW_EPSIZE {
            1 + parameters.len()
        } else {
            0
        };
        let mut bytes: Vec<u8> = Vec::new();
        bytes.push(command.code());
        extend_bytes(&mut bytes, parameters.as_slice(), 0, parameters.len());
        assert(bytes@ =~= seq![command.spec_code()] + parameters@);
        KeyboardApi::exchange(
            ViaCommandId::GetKeyboardValue,
            bytes,
            Keep::Range { start, len: result_length },
            Shape::Bytes,
        )
    }

    /// Begins setting a keyboard value.
    pub fn set_keyboard_value(command: KeyboardValue, parameters: Vec<u8>) -> (step: Step)
        ensures
            step@ == single(
                ViaCommandId::SetKeyboardValue,
                seq![command.spec_code()] + parameters@,
                Keep::Range { start: 0, len: 0 },
                Shape::Empty,
            ),
    {
        let mut bytes: Vec<u8> = Vec::new();
        bytes.push(command.code());
        extend_bytes(&mut bytes, parameters.as_slice(), 0, parameters.len());
        assert(bytes@ =~= seq![command.spec_code()] + parameters@);
        KeyboardApi::exchange(
            ViaCommandId::SetKeyboardValue,
            bytes,
            Keep::Range { start: 0, len: 0 },
            Shape::Empty,
        )
    }

    /// Begins reading the keycode bound to one direction of an encoder.
    pub fn get_encoder_value(layer: Layer, id: u8, is_clockwise: bool) -> (step: Step)
        ensures
            step@ == single(
                ViaCommandId::DynamicKeymapGetEncoder,
                seq![layer, id, if is_clockwise { 1u8 } else { 0u8 }],
                Keep::Range { start: 4, len: 2 },
                Shape::Word,
            ),
    {
        let direction: u8 = if is_clockwise {
            1
        } else {
            0
        };
        let mut bytes: Vec<u8> = Vec::new();
        bytes.push(layer);
        bytes.push(id);
        bytes.push(direction);
        assert(bytes@ =~= seq![layer, id, direction]);
        KeyboardApi::exchange(
            ViaCommandId::DynamicKeymapGetEncoder,
            bytes,
            Keep::Range { start: 4, len: 2 },
            Shape::Word,
        )
    }

    /// Begins binding a keycode to one direction of an encoder.
    pub fn set_encoder_value(layer: Layer, id: u8, is_clockwise: bool, keycode: u16) -> (step: Step)
        ensures
            step@ == single(
                ViaCommandId::DynamicKeymapSetEncoder,
                seq![
                    layer,
                    id,
                    if is_clockwise { 1u8 } else { 0u8 },
                    crate::utils::high_byte(keycode),
                    crate::utils::low_byte(keycode),
                ],
                Keep::Range { start: 0, len: 0 },
                Shape::Empty,
            ),
    {
        let keycode_bytes = shift_from_16_bit(keycode);
        let direction: u8 = if is_clockwise {
            1
        } else {
            0
        };
        let mut bytes: Vec<u8> = Vec::new();
        bytes.push(layer);
        bytes.push(id);
        bytes.push(direction);
        bytes.push(keycode_bytes.0);
        bytes.push(keycode_bytes.1);
        assert(bytes@ =~= seq![
            layer,
            id,
            direction,
            crate::utils::high_byte(keycode),
            crate::utils::low_byte(keycode),
        ]);
        KeyboardApi::exchange(
            ViaCommandId::DynamicKeymapSetEncoder,
            bytes,
            Keep::Range { start: 0, len: 0 },
            Shape::Empty,
        )
    }

    /// Begins reading a custom menu value. The result is the first bytes of
    /// the answer, as many as `command_bytes` holds.
    pub fn get_custom_menu_value(command_bytes: Vec<u8>) -> (step: Step)
        ensures
            step@ == single(
                ViaCommandId::CustomMenuGetValue,
                command_bytes@,
                Keep::Range { start: 0, len: command_bytes@.len() as usize },
                Shape::Bytes,
            ),
    {
        let len: usize = command_bytes.len();
        KeyboardApi::exchange(
            ViaCommandId::CustomMenuGetValue,
            command_bytes,
            Keep::Range { start: 0, len },
            Shape::Bytes,
        )
    }

    /// Begins setting a custom menu value.
    pub fn set_custom_menu_value(args: Vec<u8>) -> (step: Step)
        ensures
            step@ == single(
                ViaCommandId::CustomMenuSetValue,
                args@,
                Keep::Range { start: 0, len: 0 },
                Shape::Empty,
            ),
    {
        KeyboardApi::exchange(
            ViaCommandId::CustomMenuSetValue,
            args,
            Keep::Range { start: 0, len: 0 },
            Shape::Empty,
        )
    }

    /// Begins saving the custom menu values of a channel.
    pub fn save_custom_menu(channel: u8) -> (step: Step)
        ensures
            step@ == single(
                ViaCommandId::CustomMenuSave,
                seq![channel],
                Keep::Range { start: 0, len: 0 },
                Shape::Empty,
            ),
    {
        let mut bytes: Vec<u8> = Vec::new();
        bytes.push(channel);
        assert(bytes@ =~= seq![channel]);
        KeyboardApi::exchange(
            ViaCommandId::CustomMenuSave,
            bytes,
            Keep::Range { start: 0, len: 0 },
            Shape::Empty,
        )
    }

    /// Begins reading the number of macros, which is byte 1 of the answer.
    pub fn get_macro_count() -> (step: Step)
        ensures
            step@ == single(
                ViaCommandId::DynamicKeymapMacroGetCount,
                Seq::empty(),
                Keep::Range { start: 1, len: 1 },
                Shape::Byte,
            ),
    {
        KeyboardApi::exchange(
            ViaCommandId::DynamicKeymapMacroGetCount,
            Vec::new(),
            Keep::Range { start: 1, len: 1 },
            Shape::Byte,
        )
    }

    /// Begins clearing all saved macros.
    pub fn reset_macros() -> (step: Step)
        ensures
            step@ == single(
                ViaCommandId::DynamicKeymapMacroReset,
                Seq::empty(),
                Keep::Range { start: 0, len: 0 },
                Shape::Empty,
            ),
    {
        KeyboardApi::exchange(
            ViaCommandId::DynamicKeymapMacroReset,
            Vec::new(),
            Keep::Range { start: 0, len: 0 },
            Shape::Empty,
        )
    }

    /// Begins resetting the EEPROM, which clears keymaps, macros and all
    /// other settings.
    pub fn reset_eeprom() -> (step: Step)
        ensures
            step@ == single(
                ViaCommandId::EepromReset,
                Seq::empty(),
                Keep::Range { start: 0, len: 0 },
                Shape::Empty,
            ),
    {
        KeyboardApi::exchange(
            ViaCommandId::EepromReset,
            Vec::new(),
            Keep::Range { start: 0, len: 0 },
            Shape::Empty,
        )
    }

    /// Begins the jump to the bootloader.
    pub fn jump_to_bootloader() -> (step: Step)
        ensures
            step@ == single(
                ViaCommandId::BootloaderJump,
                Seq::empty(),
                Keep::Range { start: 0, len: 0 },
                Shape::Empty,
            ),
    {
        KeyboardApi::exchange(
            ViaCommandId::BootloaderJump,
            Vec::new(),
            Keep::Range { start: 0, len: 0 },
            Shape::Empty,
        )
    }
}

} // verus!
