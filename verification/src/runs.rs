//! Whole runs of an operation against a channel, and what holds of them: in
//! which order the frames go out, where a run stops, and what it ends with.

use crate::api::{MatrixInfo, PROTOCOL_ALPHA, PROTOCOL_BETA};
use crate::error::{Error, MACRO_DATA};
use crate::macros::{macro_read, macro_write};
use crate::matrix::{fast_read, fast_write, slow_read, slow_write};
use crate::session::{
    accepts, conclude, failure, frame, gated, kept_of, launch, layer_count_request,
    macro_size_request, on_received, on_written, sized, start, version_request, AfterView,
    Session, StepView, DEFAULT_LAYER_COUNT, REPORT_SIZE,
};
use crate::transfer::{reply_of, ReplyView, RequestView, Shape};
use crate::utils::{word_of, words_of};
use vstd::prelude::*;

verus! {

/// What the channel does in one exchange: the number of bytes it reports for
/// the write, or `None` where the write fails, and the report it hands over
/// when asked to read, or `None` where the read fails.
pub struct Exchange {
    pub written: Option<usize>,
    pub report: Option<Seq<u8>>,
}

/// Performs a step, and those that follow it, against a channel that behaves
/// as the exchanges say, one exchange per frame: the frames written, and the
/// step that is left when the operation is done or the exchanges have run
/// out.
pub open spec fn perform(step: StepView, exchanges: Seq<Exchange>) -> (Seq<Seq<u8>>, StepView)
    decreases exchanges.len(),
{
    match step {
        StepView::Write(session, out) => if exchanges.len() == 0 {
            (Seq::empty(), step)
        } else {
            match on_written(session, exchanges[0].written) {
                StepView::Read(reading) => {
                    let rest = perform(
                        on_received(reading, exchanges[0].report),
                        exchanges.drop_first(),
                    );
                    (seq![out] + rest.0, rest.1)
                },
                ended => (seq![out], ended),
            }
        },
        _ => (Seq::empty(), step),
    }
}

/// Whether an exchange answers a request: the frame went out whole, a report
/// came back, and the report is accepted for the request.
pub open spec fn answered(request: RequestView, exchange: Exchange) -> bool {
    &&& exchange.written == Some(REPORT_SIZE)
    &&& exchange.report is Some
    &&& accepts(request, exchange.report->0)
}

/// The failure of an exchange that does not answer its request: one of the
/// channel where the write or the read failed, else a bad response.
pub open spec fn broken(request: RequestView, exchange: Exchange) -> Error {
    if exchange.written != Some(REPORT_SIZE) || exchange.report is None {
        Error::Io
    } else {
        Error::BadResponse(request.command)
    }
}

/// Whether each exchange answers the request at its place in the list.
pub open spec fn all_answered(requests: Seq<RequestView>, exchanges: Seq<Exchange>) -> bool {
    &&& exchanges.len() <= requests.len()
    &&& forall|k: int| 0 <= k < exchanges.len() ==> answered(#[trigger] requests[k], exchanges[k])
}

/// The frames of a list of requests.
pub open spec fn frames_of(requests: Seq<RequestView>) -> Seq<Seq<u8>> {
    Seq::new(requests.len(), |i: int| frame(requests[i]))
}

/// The parts that the requests keep of their answers, one after the other.
pub open spec fn gathered(requests: Seq<RequestView>, exchanges: Seq<Exchange>) -> Seq<u8>
    decreases exchanges.len(),
{
    if exchanges.len() == 0 {
        Seq::empty()
    } else {
        kept_of(requests[0].keep, exchanges[0].report->0) + gathered(
            requests.drop_first(),
            exchanges.drop_first(),
        )
    }
}

/// The session of a stage that is about to write its request `index`.
pub open spec fn writing(
    requests: Seq<RequestView>,
    index: int,
    kept: Seq<u8>,
    after: AfterView,
) -> Session {
    Session { requests, index, kept, receiving: false, after }
}

/// The version that a report carries in answer to the version query.
pub open spec fn version_in(report: Seq<u8>) -> u16 {
    word_of(report[1], report[2])
}

/// The size that a report carries in answer to the macro size query.
pub open spec fn capacity_in(report: Seq<u8>) -> nat {
    word_of(report[1], report[2]) as nat
}

/// Without an exchange nothing is performed.
pub proof fn lemma_perform_nothing(step: StepView)
    ensures
        perform(step, Seq::empty()) == (Seq::<Seq<u8>>::empty(), step),
{
}

/// An exchange that answers the request in flight moves a stage on to its
/// next request, or concludes it after the last.
pub proof fn lemma_answered_exchange(
    requests: Seq<RequestView>,
    index: int,
    kept: Seq<u8>,
    after: AfterView,
    exchanges: Seq<Exchange>,
)
    requires
        0 <= index < requests.len(),
        exchanges.len() > 0,
        answered(requests[index], exchanges[0]),
    ensures
        ({
            let run = perform(
                StepView::Write(writing(requests, index, kept, after), frame(requests[index])),
                exchanges,
            );
            let more = kept + kept_of(requests[index].keep, exchanges[0].report->0);
            let rest = perform(
                if index + 1 < requests.len() {
                    StepView::Write(
                        writing(requests, index + 1, more, after),
                        frame(requests[index + 1]),
                    )
                } else {
                    conclude(after, more)
                },
                exchanges.drop_first(),
            );
            run.0 == seq![frame(requests[index])] + rest.0 && run.1 == rest.1
        }),
{
    let session = writing(requests, index, kept, after);
    assert(on_written(session, exchanges[0].written) == StepView::Read(
        Session { receiving: true, ..session },
    ));
}

/// An exchange that does not answer the request in flight ends the
/// operation: the frame has gone out, and nothing follows it.
pub proof fn lemma_broken_exchange(
    requests: Seq<RequestView>,
    index: int,
    kept: Seq<u8>,
    after: AfterView,
    exchanges: Seq<Exchange>,
)
    requires
        0 <= index < requests.len(),
        exchanges.len() > 0,
        !answered(requests[index], exchanges[0]),
    ensures
        perform(
            StepView::Write(writing(requests, index, kept, after), frame(requests[index])),
            exchanges,
        ).0 == seq![frame(requests[index])],
        perform(
            StepView::Write(writing(requests, index, kept, after), frame(requests[index])),
            exchanges,
        ).1 == StepView::Done(Err(failure(after, broken(requests[index], exchanges[0])))),
{
    let session = writing(requests, index, kept, after);
    if exchanges[0].written == Some(REPORT_SIZE) {
        assert(on_written(session, exchanges[0].written) == StepView::Read(
            Session { receiving: true, ..session },
        ));
        lemma_perform_nothing(
            StepView::Done(Err(failure(after, broken(requests[index], exchanges[0])))),
        );
        assert(perform(
            StepView::Done(Err(failure(after, broken(requests[index], exchanges[0])))),
            exchanges.drop_first(),
        ).0 =~= Seq::<Seq<u8>>::empty());
        assert(seq![frame(requests[index])] + Seq::<Seq<u8>>::empty() =~= seq![
            frame(requests[index]),
        ]);
    }
}

/// A stage whose requests from `index` on are all answered writes the frames
/// of exactly those requests, in their order, and is then concluded with the
/// parts kept of the answers, in the same order.
pub proof fn lemma_stage_runs_in_order(
    requests: Seq<RequestView>,
    index: int,
    kept: Seq<u8>,
    after: AfterView,
    exchanges: Seq<Exchange>,
)
    requires
        0 <= index < requests.len(),
        exchanges.len() == requests.len() - index,
        all_answered(requests.skip(index), exchanges),
    ensures
        perform(
            StepView::Write(writing(requests, index, kept, after), frame(requests[index])),
            exchanges,
        ).0 == frames_of(requests.skip(index)),
        perform(
            StepView::Write(writing(requests, index, kept, after), frame(requests[index])),
            exchanges,
        ).1 == conclude(after, kept + gathered(requests.skip(index), exchanges)),
    decreases exchanges.len(),
{
    let more = kept + kept_of(requests[index].keep, exchanges[0].report->0);
    assert(requests.skip(index)[0] == requests[index]);
    assert(requests.skip(index).drop_first() =~= requests.skip(index + 1));
    lemma_answered_exchange(requests, index, kept, after, exchanges);
    if index + 1 < requests.len() {
        assert forall|k: int| 0 <= k < exchanges.drop_first().len() implies answered(
            #[trigger] requests.skip(index + 1)[k],
            exchanges.drop_first()[k],
        ) by {
            assert(requests.skip(index + 1)[k] == requests.skip(index)[k + 1]);
            assert(exchanges.drop_first()[k] == exchanges[k + 1]);
        }
        lemma_stage_runs_in_order(requests, index + 1, more, after, exchanges.drop_first());
        assert(more + gathered(requests.skip(index + 1), exchanges.drop_first()) =~= kept
            + gathered(requests.skip(index), exchanges));
        assert(seq![frame(requests[index])] + frames_of(requests.skip(index + 1)) =~= frames_of(
            requests.skip(index),
        ));
    } else {
        assert(exchanges.drop_first() =~= Seq::<Exchange>::empty());
        lemma_perform_nothing(conclude(after, more));
        assert(gathered(requests.skip(index + 1), exchanges.drop_first()) =~= Seq::<u8>::empty());
        assert(more =~= kept + gathered(requests.skip(index), exchanges));
        assert(seq![frame(requests[index])] + Seq::<Seq<u8>>::empty() =~= frames_of(
            requests.skip(index),
        ));
    }
}

/// A stage stops at the first exchange that fails: the frames of the
/// requests up to that one have gone out, none after it, and the operation
/// has failed as a whole, whatever the exchanges before it brought.
pub proof fn lemma_stage_stops_at_failure(
    requests: Seq<RequestView>,
    index: int,
    kept: Seq<u8>,
    after: AfterView,
    exchanges: Seq<Exchange>,
    failed: int,
)
    requires
        0 <= index < requests.len(),
        0 <= failed < exchanges.len() <= requests.len() - index,
        all_answered(requests.skip(index), exchanges.take(failed)),
        !answered(requests[index + failed], exchanges[failed]),
    ensures
        perform(
            StepView::Write(writing(requests, index, kept, after), frame(requests[index])),
            exchanges,
        ).0 == frames_of(requests.subrange(index, index + failed + 1)),
        perform(
            StepView::Write(writing(requests, index, kept, after), frame(requests[index])),
            exchanges,
        ).1 == StepView::Done(
            Err(failure(after, broken(requests[index + failed], exchanges[failed]))),
        ),
    decreases failed,
{
    if failed == 0 {
        lemma_broken_exchange(requests, index, kept, after, exchanges);
        assert(seq![frame(requests[index])] =~= frames_of(requests.subrange(index, index + 1)));
    } else {
        let more = kept + kept_of(requests[index].keep, exchanges[0].report->0);
        assert(requests.skip(index)[0] == requests[index]);
        assert(exchanges.take(failed)[0] == exchanges[0]);
        lemma_answered_exchange(requests, index, kept, after, exchanges);
        assert forall|k: int| 0 <= k < failed - 1 implies answered(
            #[trigger] requests.skip(index + 1)[k],
            exchanges.drop_first().take(failed - 1)[k],
        ) by {
            assert(requests.skip(index + 1)[k] == requests.skip(index)[k + 1]);
            assert(exchanges.drop_first().take(failed - 1)[k] == exchanges.take(failed)[k + 1]);
        }
        lemma_stage_stops_at_failure(
            requests,
            index + 1,
            more,
            after,
            exchanges.drop_first(),
            failed - 1,
        );
        assert(seq![frame(requests[index])] + frames_of(
            requests.subrange(index + 1, index + 1 + (failed - 1) + 1),
        ) =~= frames_of(requests.subrange(index, index + failed + 1)));
    }
}

/// A run over two lists of exchanges, one after the other, is the run over
/// the first list followed by the run over the second from where the first
/// ended.
pub proof fn lemma_perform_in_two(step: StepView, first: Seq<Exchange>, second: Seq<Exchange>)
    ensures
        perform(step, first + second).0 == perform(step, first).0 + perform(
            perform(step, first).1,
            second,
        ).0,
        perform(step, first + second).1 == perform(perform(step, first).1, second).1,
    decreases first.len(),
{
    if first.len() == 0 {
        assert(first + second =~= second);
        assert(Seq::<Seq<u8>>::empty() + perform(step, second).0 =~= perform(step, second).0);
    } else {
        match step {
            StepView::Write(session, out) => {
                assert((first + second)[0] == first[0]);
                assert((first + second).drop_first() =~= first.drop_first() + second);
                match on_written(session, first[0].written) {
                    StepView::Read(reading) => {
                        let next = on_received(reading, first[0].report);
                        lemma_perform_in_two(next, first.drop_first(), second);
                        assert(seq![out] + (perform(next, first.drop_first()).0 + perform(
                            perform(next, first.drop_first()).1,
                            second,
                        ).0) =~= (seq![out] + perform(next, first.drop_first()).0) + perform(
                            perform(next, first.drop_first()).1,
                            second,
                        ).0);
                    },
                    ended => {
                        assert(seq![out] + Seq::<Seq<u8>>::empty() =~= seq![out]);
                    },
                }
            },
            _ => {
                assert(Seq::<Seq<u8>>::empty() + Seq::<Seq<u8>>::empty() =~= Seq::<
                    Seq<u8>,
                >::empty());
            },
        }
    }
}

/// The first stage of an operation that begins with a query: once the query
/// is answered, the operation goes on as the kept part of the answer decides.
pub proof fn lemma_query_answered(query: RequestView, after: AfterView, exchange: Exchange)
    requires
        answered(query, exchange),
    ensures
        perform(start(seq![query], after), seq![exchange]).0 == seq![frame(query)],
        perform(start(seq![query], after), seq![exchange]).1 == conclude(
            after,
            kept_of(query.keep, exchange.report->0),
        ),
{
    let requests = seq![query];
    assert(requests.skip(0) =~= requests);
    lemma_stage_runs_in_order(requests, 0, Seq::empty(), after, seq![exchange]);
    assert(seq![exchange].drop_first() =~= Seq::<Exchange>::empty());
    assert(gathered(requests.drop_first(), seq![exchange].drop_first()) =~= Seq::<u8>::empty());
    assert(Seq::<u8>::empty() + gathered(requests, seq![exchange]) =~= kept_of(
        query.keep,
        exchange.report->0,
    ));
    assert(frames_of(requests) =~= seq![frame(query)]);
}

/// The layer count depends on the version: from `PROTOCOL_BETA` on the
/// keyboard is asked for it, for `PROTOCOL_ALPHA` it is four without another
/// exchange, and an older version is refused.
pub proof fn lemma_layer_count_by_version(exchange: Exchange)
    requires
        answered(version_request(), exchange),
    ensures
        perform(gated(AfterView::LayerCount), seq![exchange]).0 == seq![frame(version_request())],
        perform(gated(AfterView::LayerCount), seq![exchange]).1 == if version_in(
            exchange.report->0,
        ) >= PROTOCOL_BETA {
            start(seq![layer_count_request()], AfterView::Reply(Shape::Byte))
        } else if version_in(exchange.report->0) >= PROTOCOL_ALPHA {
            StepView::Done(Ok(ReplyView::Byte(DEFAULT_LAYER_COUNT)))
        } else {
            StepView::Done(Err(Error::UnsupportedProtocol(Some(version_in(exchange.report->0)))))
        },
{
    lemma_query_answered(version_request(), AfterView::LayerCount, exchange);
}

/// From `PROTOCOL_BETA` on, a layer count whose two exchanges are answered
/// is byte 1 of the second answer.
pub proof fn lemma_layer_count_asked(version: Exchange, count: Exchange)
    requires
        answered(version_request(), version),
        version_in(version.report->0) >= PROTOCOL_BETA,
        answered(layer_count_request(), count),
    ensures
        perform(gated(AfterView::LayerCount), seq![version, count]).0 == seq![
            frame(version_request()),
            frame(layer_count_request()),
        ],
        perform(gated(AfterView::LayerCount), seq![version, count]).1 == StepView::Done(
            Ok(ReplyView::Byte(count.report->0[1])),
        ),
{
    lemma_layer_count_by_version(version);
    assert(seq![version] + seq![count] =~= seq![version, count]);
    lemma_perform_in_two(gated(AfterView::LayerCount), seq![version], seq![count]);
    lemma_query_answered(layer_count_request(), AfterView::Reply(Shape::Byte), count);
    assert(seq![frame(version_request())] + seq![frame(layer_count_request())] =~= seq![
        frame(version_request()),
        frame(layer_count_request()),
    ]);
}

/// The plan that a keymap transfer follows for a version from
/// `PROTOCOL_ALPHA` on: in bulk from `PROTOCOL_BETA` on, else cell by cell.
pub open spec fn matrix_plan(after: AfterView, version: u16) -> Result<Seq<RequestView>, Error> {
    match after {
        AfterView::ReadMatrix { info, layer } => if version >= PROTOCOL_BETA {
            fast_read(info, layer)
        } else {
            Ok(slow_read(info, layer))
        },
        AfterView::WriteMatrix { info, keymap } => if version >= PROTOCOL_BETA {
            fast_write(keymap)
        } else {
            slow_write(info, keymap)
        },
        _ => Ok(Seq::empty()),
    }
}

/// The shape of the result of a keymap transfer: the keycodes read, or
/// nothing.
pub open spec fn matrix_shape(after: AfterView) -> Shape {
    if after is ReadMatrix {
        Shape::Words
    } else {
        Shape::Empty
    }
}

/// Reading and writing the keymap depend on the version: from
/// `PROTOCOL_BETA` on the transfer goes in bulk, for `PROTOCOL_ALPHA` cell by
/// cell, and any other version is refused.
pub proof fn lemma_matrix_by_version(after: AfterView, exchange: Exchange)
    requires
        after is ReadMatrix || after is WriteMatrix,
        answered(version_request(), exchange),
    ensures
        perform(gated(after), seq![exchange]).0 == seq![frame(version_request())],
        perform(gated(after), seq![exchange]).1 == if version_in(exchange.report->0)
            >= PROTOCOL_ALPHA {
            launch(matrix_plan(after, version_in(exchange.report->0)), matrix_shape(after))
        } else {
            StepView::Done(Err(Error::UnsupportedProtocol(Some(version_in(exchange.report->0)))))
        },
{
    lemma_query_answered(version_request(), after, exchange);
}

/// A version query that fails, in whatever way, leaves a version-gated
/// operation unsupported, with nothing but the query written.
pub proof fn lemma_version_query_failure(after: AfterView, exchange: Exchange)
    requires
        after is LayerCount || after is ReadMatrix || after is WriteMatrix,
        !answered(version_request(), exchange),
    ensures
        perform(gated(after), seq![exchange]).0 == seq![frame(version_request())],
        perform(gated(after), seq![exchange]).1 == StepView::Done(
            Err(Error::UnsupportedProtocol(None)),
        ),
{
    lemma_broken_exchange(seq![version_request()], 0, Seq::empty(), after, seq![exchange]);
}

/// A macro that is larger than the buffer is refused as soon as the size of
/// the buffer is known: nothing but the size query has gone out.
pub proof fn lemma_oversized_macro(data: Seq<u8>, exchange: Exchange)
    requires
        answered(macro_size_request(), exchange),
        capacity_in(exchange.report->0) < data.len() <= usize::MAX,
    ensures
        perform(sized(AfterView::MacroWrite { data }), seq![exchange]).0 == seq![
            frame(macro_size_request()),
        ],
        perform(sized(AfterView::MacroWrite { data }), seq![exchange]).1 == StepView::Done(
            Err(
                Error::SizeExceeded {
                    expected: capacity_in(exchange.report->0) as usize,
                    actual: data.len() as usize,
                    context: MACRO_DATA,
                },
            ),
        ),
{
    lemma_query_answered(macro_size_request(), AfterView::MacroWrite { data }, exchange);
}

/// A macro write whose every exchange is answered sends the size query, the
/// reset, the marker of a write in progress, the windows of the data in
/// rising order, and the marker of a complete write, in exactly this order,
/// and succeeds.
pub proof fn lemma_macro_write_order(data: Seq<u8>, size: Exchange, exchanges: Seq<Exchange>)
    requires
        answered(macro_size_request(), size),
        macro_write(capacity_in(size.report->0), data) is Ok,
        exchanges.len() == macro_write(capacity_in(size.report->0), data)->Ok_0.len(),
        all_answered(macro_write(capacity_in(size.report->0), data)->Ok_0, exchanges),
    ensures
        perform(sized(AfterView::MacroWrite { data }), seq![size] + exchanges).0 == seq![
            frame(macro_size_request()),
        ] + frames_of(macro_write(capacity_in(size.report->0), data)->Ok_0),
        perform(sized(AfterView::MacroWrite { data }), seq![size] + exchanges).1
            == StepView::Done(Ok(ReplyView::Empty)),
{
    let after = AfterView::MacroWrite { data };
    let plan = macro_write(capacity_in(size.report->0), data)->Ok_0;
    lemma_query_answered(macro_size_request(), after, size);
    lemma_perform_in_two(sized(after), seq![size], exchanges);
    assert(plan.len() > 0);
    assert(perform(sized(after), seq![size]).1 == start(plan, AfterView::Reply(Shape::Empty)));
    assert(plan.skip(0) =~= plan);
    lemma_stage_runs_in_order(plan, 0, Seq::empty(), AfterView::Reply(Shape::Empty), exchanges);
}

/// The last stage of an operation, once launched with a plan, whose every
/// exchange is answered: the frames of the plan go out in order, and the
/// result is what the requests keep of the answers, in the plan's shape.
pub proof fn lemma_launched_stage(plan: Seq<RequestView>, shape: Shape, exchanges: Seq<Exchange>)
    requires
        exchanges.len() == plan.len(),
        all_answered(plan, exchanges),
    ensures
        perform(launch(Ok(plan), shape), exchanges).0 == frames_of(plan),
        perform(launch(Ok(plan), shape), exchanges).1 == StepView::Done(
            Ok(reply_of(shape, gathered(plan, exchanges))),
        ),
{
    if plan.len() == 0 {
        assert(exchanges =~= Seq::<Exchange>::empty());
        assert(frames_of(plan) =~= Seq::<Seq<u8>>::empty());
        assert(gathered(plan, exchanges) =~= Seq::<u8>::empty());
        lemma_perform_nothing(launch(Ok(plan), shape));
    } else {
        assert(plan.skip(0) =~= plan);
        lemma_stage_runs_in_order(plan, 0, Seq::empty(), AfterView::Reply(shape), exchanges);
        assert(Seq::<u8>::empty() + gathered(plan, exchanges) =~= gathered(plan, exchanges));
    }
}

/// A keymap transfer whose every exchange is answered sends the version
/// query and then the requests of its plan in order: the windows in rising
/// order of offset, or the cells row by row and layer by layer. A read yields
/// the big-endian 16-bit values that the answers carry, in the order of the
/// requests.
pub proof fn lemma_matrix_transfer(after: AfterView, version: Exchange, exchanges: Seq<Exchange>)
    requires
        after is ReadMatrix || after is WriteMatrix,
        answered(version_request(), version),
        version_in(version.report->0) >= PROTOCOL_ALPHA,
        matrix_plan(after, version_in(version.report->0)) is Ok,
        exchanges.len() == matrix_plan(after, version_in(version.report->0))->Ok_0.len(),
        all_answered(matrix_plan(after, version_in(version.report->0))->Ok_0, exchanges),
    ensures
        perform(gated(after), seq![version] + exchanges).0 == seq![frame(version_request())]
            + frames_of(matrix_plan(after, version_in(version.report->0))->Ok_0),
        perform(gated(after), seq![version] + exchanges).1 == StepView::Done(
            Ok(
                reply_of(
                    matrix_shape(after),
                    gathered(matrix_plan(after, version_in(version.report->0))->Ok_0, exchanges),
                ),
            ),
        ),
{
    let plan = matrix_plan(after, version_in(version.report->0))->Ok_0;
    lemma_matrix_by_version(after, version);
    lemma_perform_in_two(gated(after), seq![version], exchanges);
    lemma_launched_stage(plan, matrix_shape(after), exchanges);
}

/// A keymap transfer whose plan is refused ends with the plan's failure as
/// soon as the version is known: nothing but the version query has gone out.
pub proof fn lemma_matrix_refused(after: AfterView, version: Exchange)
    requires
        after is ReadMatrix || after is WriteMatrix,
        answered(version_request(), version),
        version_in(version.report->0) >= PROTOCOL_ALPHA,
        matrix_plan(after, version_in(version.report->0)) is Err,
    ensures
        perform(gated(after), seq![version]).0 == seq![frame(version_request())],
        perform(gated(after), seq![version]).1 == StepView::Done(
            Err(matrix_plan(after, version_in(version.report->0))->Err_0),
        ),
{
    lemma_matrix_by_version(after, version);
}

/// A bulk read of a layer whose every exchange is answered sends the version
/// query and the windows of the layer in rising order, and yields the
/// big-endian 16-bit values of the windows' data, in the order of the
/// windows.
pub proof fn lemma_fast_read_reassembles(
    info: MatrixInfo,
    layer: u8,
    version: Exchange,
    exchanges: Seq<Exchange>,
)
    requires
        answered(version_request(), version),
        version_in(version.report->0) >= PROTOCOL_BETA,
        fast_read(info, layer) is Ok,
        exchanges.len() == fast_read(info, layer)->Ok_0.len(),
        all_answered(fast_read(info, layer)->Ok_0, exchanges),
    ensures
        perform(gated(AfterView::ReadMatrix { info, layer }), seq![version] + exchanges).0
            == seq![frame(version_request())] + frames_of(fast_read(info, layer)->Ok_0),
        perform(gated(AfterView::ReadMatrix { info, layer }), seq![version] + exchanges).1
            == StepView::Done(
            Ok(ReplyView::Words(words_of(gathered(fast_read(info, layer)->Ok_0, exchanges)))),
        ),
{
    lemma_matrix_transfer(AfterView::ReadMatrix { info, layer }, version, exchanges);
}

/// A read of the macro buffer whose every exchange is answered sends the
/// size query and the windows of the whole buffer in rising order, and
/// yields the windows' data, in the order of the windows.
pub proof fn lemma_macro_read_collects(size: Exchange, exchanges: Seq<Exchange>)
    requires
        answered(macro_size_request(), size),
        exchanges.len() == macro_read(capacity_in(size.report->0)).len(),
        all_answered(macro_read(capacity_in(size.report->0)), exchanges),
    ensures
        perform(sized(AfterView::MacroRead), seq![size] + exchanges).0 == seq![
            frame(macro_size_request()),
        ] + frames_of(macro_read(capacity_in(size.report->0))),
        perform(sized(AfterView::MacroRead), seq![size] + exchanges).1 == StepView::Done(
            Ok(ReplyView::Bytes(gathered(macro_read(capacity_in(size.report->0)), exchanges))),
        ),
{
    let plan = macro_read(capacity_in(size.report->0));
    lemma_query_answered(macro_size_request(), AfterView::MacroRead, size);
    lemma_perform_in_two(sized(AfterView::MacroRead), seq![size], exchanges);
    lemma_launched_stage(plan, Shape::Bytes, exchanges);
}

} // verus!
