//! Reading and writing the keymap of a key matrix: in bulk through the keymap
//! buffer, or cell by cell for keyboards that lack the buffer commands.

use crate::api::{KeyboardApi, Layer, MatrixInfo};
use crate::api_commands::ViaCommandId;
use crate::error::{Error, KEYCODES, LAYERS};
use crate::session::{gated, After, AfterView};
use crate::transfer::{
    all_fit, extend_bytes, lemma_views_push, plan_view, read_buffer, read_transfer, views,
    write_buffer, write_transfer, Keep, Request, RequestView, RAW_EPSIZE,
};
use crate::utils::{bytes_of, high_byte, low_byte, shift_buffer_from_16_bit, shift_from_16_bit};
use vstd::prelude::*;

verus! {

/// Keycodes that one window of the keymap buffer moves.
pub const MAX_KEYCODES_PARTIAL: usize = 14;

/// Bytes that one window of the keymap buffer moves: a whole number of
/// keycodes.
pub const KEYMAP_WINDOW: usize = 2 * MAX_KEYCODES_PARTIAL;

/// Layers that a one-byte layer index can address.
pub const MAX_LAYERS: usize = 256;

/// The keycodes of each layer of a keymap.
pub open spec fn layers(keymap: Seq<Vec<u16>>) -> Seq<Seq<u16>> {
    Seq::new(keymap.len(), |l: int| keymap[l]@)
}

/// The request that reads the keycode of cell `i` of a layer, cells counted
/// row by row; the keycode is bytes 4 and 5 of the answer.
pub open spec fn cell_read(info: MatrixInfo, layer: u8, i: int) -> RequestView {
    RequestView {
        command: ViaCommandId::DynamicKeymapGetKeycode,
        payload: seq![layer, (i / info.cols as int) as u8, (i % info.cols as int) as u8],
        keep: Keep::Range { start: 4, len: 2 },
    }
}

/// Reading a layer cell by cell: one request per cell, row by row.
pub open spec fn slow_read(info: MatrixInfo, layer: u8) -> Seq<RequestView> {
    Seq::new(info.cells(), |i: int| cell_read(info, layer, i))
}

/// Reading a layer in bulk: the chunked read of its `2 * cells` bytes, which
/// lie in the keymap buffer behind those of the layers before it.
pub open spec fn fast_read(info: MatrixInfo, layer: u8) -> Result<Seq<RequestView>, Error> {
    read_transfer(
        ViaCommandId::DynamicKeymapGetBuffer,
        layer as nat * info.cells() * 2,
        info.cells() * 2,
        KEYMAP_WINDOW as nat,
    )
}

/// The bytes of a keymap: the keycodes of each layer, high byte first, one
/// layer after the other.
pub open spec fn keymap_bytes(keymap: Seq<Seq<u16>>) -> Seq<u8> {
    Seq::new(keymap.len(), |l: int| bytes_of(keymap[l])).flatten()
}

/// Writing a keymap in bulk: the chunked write of its bytes to the keymap
/// buffer.
pub open spec fn fast_write(keymap: Seq<Seq<u16>>) -> Result<Seq<RequestView>, Error> {
    write_transfer(
        ViaCommandId::DynamicKeymapSetBuffer,
        keymap_bytes(keymap),
        KEYMAP_WINDOW as nat,
    )
}

/// The length of the longest layer of a keymap.
pub open spec fn longest_layer(keymap: Seq<Seq<u16>>) -> nat
    decreases keymap.len(),
{
    if keymap.len() == 0 {
        0
    } else if keymap.last().len() > longest_layer(keymap.drop_last()) {
        keymap.last().len()
    } else {
        longest_layer(keymap.drop_last())
    }
}

/// The request that sets cell `key` of layer `layer` to `keycode`, cells
/// counted row by row.
pub open spec fn cell_write(info: MatrixInfo, layer: int, key: int, keycode: u16) -> RequestView {
    RequestView {
        command: ViaCommandId::DynamicKeymapSetKeycode,
        payload: seq![
            layer as u8,
            (key / info.cols as int) as u8,
            (key % info.cols as int) as u8,
            high_byte(keycode),
            low_byte(keycode),
        ],
        keep: Keep::Range { start: 0, len: 0 },
    }
}

/// The requests that set the cells of one layer, in the order of its
/// keycodes.
pub open spec fn layer_writes(info: MatrixInfo, layer: int, keycodes: Seq<u16>) -> Seq<
    RequestView,
> {
    Seq::new(keycodes.len(), |key: int| cell_write(info, layer, key, keycodes[key]))
}

/// The requests of each layer of a keymap written cell by cell.
pub open spec fn keymap_writes(info: MatrixInfo, keymap: Seq<Seq<u16>>) -> Seq<Seq<RequestView>> {
    Seq::new(keymap.len(), |l: int| layer_writes(info, l, keymap[l]))
}

/// Writing a keymap cell by cell: one request per keycode, layer by layer.
/// Refused where the keymap has more layers than a byte can count, or a layer
/// has more keycodes than the matrix has cells.
pub open spec fn slow_write(info: MatrixInfo, keymap: Seq<Seq<u16>>) -> Result<
    Seq<RequestView>,
    Error,
> {
    if keymap.len() > MAX_LAYERS {
        Err(
            Error::SizeExceeded {
                expected: MAX_LAYERS,
                actual: keymap.len() as usize,
                context: LAYERS,
            },
        )
    } else if longest_layer(keymap) > info.cells() {
        Err(
            Error::SizeExceeded {
                expected: info.cells() as usize,
                actual: longest_layer(keymap) as usize,
                context: KEYCODES,
            },
        )
    } else {
        Ok(keymap_writes(info, keymap).flatten())
    }
}

/// No layer is longer than the longest.
pub proof fn lemma_longest_layer(keymap: Seq<Seq<u16>>, l: int)
    requires
        0 <= l < keymap.len(),
    ensures
        keymap[l].len() <= longest_layer(keymap),
    decreases keymap.len(),
{
    if l < keymap.len() - 1 {
        lemma_longest_layer(keymap.drop_last(), l);
    }
}

/// A cell's row and column each fit into a byte.
proof fn lemma_cell_position(rows: int, cols: int, i: int)
    requires
        0 <= rows <= 255,
        0 <= cols <= 255,
        0 <= i < rows * cols,
    ensures
        cols > 0,
        0 <= i / cols < rows,
        0 <= i % cols < cols,
{
    assert(cols > 0) by (nonlinear_arith)
        requires
            0 <= cols,
            0 <= i < rows * cols,
    ;
    assert(0 <= i / cols < rows) by (nonlinear_arith)
        requires
            cols > 0,
            0 <= i < rows * cols,
    ;
}

impl KeyboardApi {
    /// Plans the bulk read of one layer of the keymap.
    pub fn fast_read_raw_matrix(matrix_info: MatrixInfo, layer: Layer) -> (plan: Result<
        Vec<Request>,
        Error,
    >)
        ensures
            plan_view(plan) == fast_read(matrix_info, layer),
            all_fit(plan_view(plan)),
    {
        let length: usize = matrix_info.cell_count();
        assert(layer as nat * matrix_info.cells() * 2 <= 255 * 65025 * 2) by (nonlinear_arith)
            requires
                layer <= 255,
                matrix_info.cells() <= 65025,
        ;
        let base: usize = layer as usize * length * 2;
        read_buffer(ViaCommandId::DynamicKeymapGetBuffer, base, length * 2, KEYMAP_WINDOW)
    }

    /// Plans the read of one layer of the keymap cell by cell.
    pub fn slow_read_raw_matrix(matrix_info: MatrixInfo, layer: Layer) -> (requests: Vec<Request>)
        ensures
            views(requests@) == slow_read(matrix_info, layer),
            all_fit(Ok(views(requests@))),
    {
        let length: usize = matrix_info.cell_count();
        let mut requests: Vec<Request> = Vec::new();
        let mut i: usize = 0;
        while i < length
            invariant
                i <= length,
                length == matrix_info.cells(),
                requests@.len() == i,
                views(requests@) == slow_read(matrix_info, layer).take(i as int),
                forall|k: int|
                    0 <= k < requests@.len() ==> (#[trigger] requests@[k]).payload@.len() + 1
                        <= RAW_EPSIZE,
            decreases length - i,
        {
            proof {
                lemma_cell_position(matrix_info.rows as int, matrix_info.cols as int, i as int);
            }
            let row: u8 = (i / matrix_info.cols as usize) as u8;
            let col: u8 = (i % matrix_info.cols as usize) as u8;
            let mut payload: Vec<u8> = Vec::new();
            payload.push(layer);
            payload.push(row);
            payload.push(col);
            let request = Request {
                command: ViaCommandId::DynamicKeymapGetKeycode,
                payload,
                keep: Keep::Range { start: 4, len: 2 },
            };
            assert(request@.payload =~= cell_read(matrix_info, layer, i as int).payload);
            proof {
                lemma_views_push(requests@, request);
            }
            requests.push(request);
            i = i + 1;
            assert(views(requests@) =~= slow_read(matrix_info, layer).take(i as int));
        }
        assert(views(requests@) =~= slow_read(matrix_info, layer));
        requests
    }

    /// Plans the bulk write of a keymap.
    pub fn fast_write_raw_matrix(keymap: &Vec<Vec<u16>>) -> (plan: Result<Vec<Request>, Error>)
        ensures
            plan_view(plan) == fast_write(layers(keymap@)),
            all_fit(plan_view(plan)),
    {
        let ghost parts = Seq::new(layers(keymap@).len(), |l: int| bytes_of(layers(keymap@)[l]));
        let mut data: Vec<u8> = Vec::new();
        let mut l: usize = 0;
        while l < keymap.len()
            invariant
                l <= keymap@.len(),
                parts == Seq::new(layers(keymap@).len(), |l: int| bytes_of(layers(keymap@)[l])),
                data@ == parts.take(l as int).flatten(),
            decreases keymap@.len() - l,
        {
            let bytes = shift_buffer_from_16_bit(keymap[l].as_slice());
            extend_bytes(&mut data, bytes.as_slice(), 0, bytes.len());
            proof {
                assert(bytes@.subrange(0, bytes@.len() as int) =~= bytes@);
                assert(parts.take(l + 1) =~= parts.take(l as int).push(parts[l as int]));
                parts.take(l as int).lemma_flatten_push(parts[l as int]);
            }
            l = l + 1;
        }
        assert(parts.take(l as int) =~= parts);
        write_buffer(ViaCommandId::DynamicKeymapSetBuffer, data.as_slice(), KEYMAP_WINDOW)
    }

    /// Plans the write of a keymap cell by cell.
    pub fn slow_write_raw_matrix(matrix_info: MatrixInfo, keymap: &Vec<Vec<u16>>) -> (plan: Result<
        Vec<Request>,
        Error,
    >)
        ensures
            plan_view(plan) == slow_write(matrix_info, layers(keymap@)),
            all_fit(plan_view(plan)),
    {
        let ghost model = layers(keymap@);
        let cells: usize = matrix_info.cell_count();
        if keymap.len() > MAX_LAYERS {
            return Err(Error::size_mismatch(LAYERS, MAX_LAYERS, keymap.len()));
        }
        let mut longest: usize = 0;
        let mut l: usize = 0;
        while l < keymap.len()
            invariant
                l <= keymap@.len(),
                model == layers(keymap@),
                longest == longest_layer(model.take(l as int)),
            decreases keymap@.len() - l,
        {
            assert(model.take(l + 1).drop_last() =~= model.take(l as int));
            if keymap[l].len() > longest {
                longest = keymap[l].len();
            }
            l = l + 1;
        }
        assert(model.take(l as int) =~= model);
        if longest > cells {
            return Err(Error::size_mismatch(KEYCODES, cells, longest));
        }
        let ghost parts = keymap_writes(matrix_info, model);
        let mut requests: Vec<Request> = Vec::new();
        let mut l: usize = 0;
        while l < keymap.len()
            invariant
                l <= keymap@.len() <= MAX_LAYERS,
                model == layers(keymap@),
                parts == keymap_writes(matrix_info, model),
                longest_layer(model) <= matrix_info.cells(),
                views(requests@) == parts.take(l as int).flatten(),
                forall|k: int|
                    0 <= k < requests@.len() ==> (#[trigger] requests@[k]).payload@.len() + 1
                        <= RAW_EPSIZE,
            decreases keymap@.len() - l,
        {
            let layer = &keymap[l];
            let ghost writes = layer_writes(matrix_info, l as int, layer@);
            let ghost done = parts.take(l as int).flatten();
            proof {
                lemma_longest_layer(model, l as int);
            }
            let mut key: usize = 0;
            while key < layer.len()
                invariant
                    key <= layer@.len() <= matrix_info.cells(),
                    l < MAX_LAYERS,
                    writes == layer_writes(matrix_info, l as int, layer@),
                    views(requests@) == done + writes.take(key as int),
                    forall|k: int|
                        0 <= k < requests@.len() ==> (#[trigger] requests@[k]).payload@.len() + 1
                            <= RAW_EPSIZE,
                decreases layer@.len() - key,
            {
                proof {
                    lemma_cell_position(
                        matrix_info.rows as int,
                        matrix_info.cols as int,
                        key as int,
                    );
                }
                let row: u8 = (key / matrix_info.cols as usize) as u8;
                let col: u8 = (key % matrix_info.cols as usize) as u8;
                let (hi, lo) = shift_from_16_bit(layer[key]);
                let mut payload: Vec<u8> = Vec::new();
                payload.push(l as u8);
                payload.push(row);
                payload.push(col);
                payload.push(hi);
                payload.push(lo);
                let request = Request {
                    command: ViaCommandId::DynamicKeymapSetKeycode,
                    payload,
                    keep: Keep::Range { start: 0, len: 0 },
                };
                assert(request@.payload =~= writes[key as int].payload);
                proof {
                    lemma_views_push(requests@, request);
                }
                requests.push(request);
                key = key + 1;
                assert(views(requests@) =~= done + writes.take(key as int));
            }
            proof {
                assert(writes.take(key as int) =~= writes);
                assert(parts[l as int] == writes);
                assert(parts.take(l + 1) =~= parts.take(l as int).push(parts[l as int]));
                parts.take(l as int).lemma_flatten_push(parts[l as int]);
            }
            l = l + 1;
        }
        assert(parts.take(l as int) =~= parts);
        Ok(requests)
    }

    /// Begins reading the keycodes of one layer: the protocol version is asked
    /// for first, and decides between the bulk read, the read cell by cell,
    /// and a refusal.
    pub fn read_raw_matrix(matrix_info: MatrixInfo, layer: Layer) -> (step: crate::api::Step)
        ensures
            step@ == gated(AfterView::ReadMatrix { info: matrix_info, layer }),
    {
        KeyboardApi::begin_gated(After::ReadMatrix { info: matrix_info, layer })
    }

    /// Begins writing a keymap, one list of keycodes per layer: the protocol
    /// version is asked for first, and decides between the bulk write, the
    /// write cell by cell, and a refusal.
    pub fn write_raw_matrix(matrix_info: MatrixInfo, keymap: Vec<Vec<u16>>) -> (step:
        crate::api::Step)
        ensures
            step@ == gated(AfterView::WriteMatrix { info: matrix_info, keymap: layers(keymap@) }),
    {
        KeyboardApi::begin_gated(After::WriteMatrix { info: matrix_info, keymap })
    }
}

} // verus!
