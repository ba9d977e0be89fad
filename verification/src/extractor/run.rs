//! Whole runs of pipelines: what holds of every sequence of events.

use crate::extractor::table::{row_outcome, Effect, Event, Phase, Pipeline, Stage};
use crate::value::{Decoded, RawValue};
use vstd::arithmetic::div_mod::lemma_fundamental_div_mod_converse;
use vstd::prelude::*;

verus! {

/// Whether the rows that wait are bounded by the batch size: fewer than a
/// batch while rows are streamed, and none in any other phase.
pub open spec fn bounded(pipeline: Pipeline) -> bool {
    &&& pipeline.batch_size >= 1
    &&& pipeline.rows.len() < pipeline.batch_size
    &&& !(pipeline.phase is Streaming) ==> pipeline.rows.len() == 0
}

/// The waiting rows stay bounded by the batch size, whatever happens, and
/// no insert is empty or holds more rows than a batch.
pub proof fn lemma_batch_stays_bounded(pipeline: Pipeline, event: Event)
    requires
        bounded(pipeline),
    ensures
        bounded(pipeline.step(event).0),
        pipeline.step(event).1 matches Effect::Insert { statement, rows } ==> 1 <= rows.len()
            <= pipeline.batch_size,
{
}

/// The table, every one of its settings and, once they are known, its
/// columns stay as they are: only the answer to the column query sets the
/// columns.
pub proof fn lemma_columns_are_fixed(pipeline: Pipeline, event: Event)
    ensures
        pipeline.step(event).0.name == pipeline.name,
        pipeline.step(event).0.batch_size == pipeline.batch_size,
        pipeline.step(event).0.skip_data == pipeline.skip_data,
        pipeline.step(event).0.outfile == pipeline.outfile,
        pipeline.step(event).0.transformers == pipeline.transformers,
        !(pipeline.phase is ColumnDiscovery) ==> pipeline.step(event).0.columns
            == pipeline.columns,
{
}

/// Whether a pipeline can pass from one stage straight to another: to the
/// next stage; from the schema copy to the end where no rows are copied;
/// from streaming to the end where no rows are left over; and from every
/// stage but the end to failure.
pub open spec fn follows(from: Stage, to: Stage) -> bool {
    match (from, to) {
        (Stage::SchemaCopy, Stage::ColumnDiscovery) => true,
        (Stage::SchemaCopy, Stage::Done) => true,
        (Stage::ColumnDiscovery, Stage::Streaming) => true,
        (Stage::Streaming, Stage::Flush) => true,
        (Stage::Streaming, Stage::Done) => true,
        (Stage::Flush, Stage::Done) => true,
        (Stage::Done, Stage::Failed) => false,
        (_, Stage::Failed) => true,
        _ => false,
    }
}

/// A pipeline stays in its stage or passes to one that follows it. It
/// leaves the schema copy for the end exactly where its rows are skipped,
/// and failure is reached from every stage but the end.
pub proof fn lemma_stages_follow_each_other(pipeline: Pipeline, event: Event)
    ensures
        pipeline.step(event).0.phase.spec_stage() == pipeline.phase.spec_stage() || follows(
            pipeline.phase.spec_stage(),
            pipeline.step(event).0.phase.spec_stage(),
        ),
        pipeline.phase.spec_stage() is SchemaCopy && pipeline.step(event).0.phase.spec_stage()
            is Done ==> pipeline.skip_data,
        pipeline.phase.spec_stage() is SchemaCopy && pipeline.step(
            event,
        ).0.phase.spec_stage() is ColumnDiscovery ==> !pipeline.skip_data,
        !pipeline.phase.is_terminal() && event is Failed ==> pipeline.step(event).0.phase
            is Failed,
{
}

/// A pipeline that has ended stays where it is.
pub proof fn lemma_end_is_final(pipeline: Pipeline, event: Event)
    requires
        pipeline.phase.is_terminal(),
    ensures
        pipeline.step(event) == (pipeline, Effect::Nothing),
{
}

/// A pipeline after a sequence of events.
pub open spec fn run_one(pipeline: Pipeline, events: Seq<Event>) -> Pipeline
    decreases events.len(),
{
    if events.len() == 0 {
        pipeline
    } else {
        run_one(pipeline, events.drop_last()).step(events.last()).0
    }
}

/// The pipelines of a run after a schedule: a sequence of events, each for
/// the pipeline at the position named with it.
pub open spec fn run_all(pipelines: Seq<Pipeline>, schedule: Seq<(int, Event)>) -> Seq<Pipeline>
    decreases schedule.len(),
{
    if schedule.len() == 0 {
        pipelines
    } else {
        let before = run_all(pipelines, schedule.drop_last());
        let table = schedule.last().0;
        if 0 <= table < before.len() {
            before.update(table, before[table].step(schedule.last().1).0)
        } else {
            before
        }
    }
}

/// The events of a schedule that are for one pipeline, in their order.
pub open spec fn events_for(schedule: Seq<(int, Event)>, table: int) -> Seq<Event>
    decreases schedule.len(),
{
    if schedule.len() == 0 {
        Seq::empty()
    } else {
        let before = events_for(schedule.drop_last(), table);
        if schedule.last().0 == table {
            before.push(schedule.last().1)
        } else {
            before
        }
    }
}

/// Tables are isolated: however the events of a run are interleaved, each
/// pipeline ends where its own events alone would have taken it. What
/// happens to another table, a failure included, changes nothing.
pub proof fn lemma_tables_are_isolated(
    pipelines: Seq<Pipeline>,
    schedule: Seq<(int, Event)>,
    table: int,
)
    requires
        0 <= table < pipelines.len(),
    ensures
        run_all(pipelines, schedule).len() == pipelines.len(),
        run_all(pipelines, schedule)[table] == run_one(
            pipelines[table],
            events_for(schedule, table),
        ),
    decreases schedule.len(),
{
    if schedule.len() > 0 {
        lemma_tables_are_isolated(pipelines, schedule.drop_last(), table);
        let before = events_for(schedule.drop_last(), table);
        if schedule.last().0 == table {
            let own = before.push(schedule.last().1);
            assert(own.drop_last() =~= before);
            assert(own.last() == schedule.last().1);
        }
    }
}

/// A failure on the connection of one table ends that table's pipeline and
/// leaves every other pipeline of the run as it is.
pub proof fn lemma_failure_stays_in_its_table(
    pipelines: Seq<Pipeline>,
    schedule: Seq<(int, Event)>,
    failing: int,
    error: sqlx::Error,
    other: int,
)
    requires
        0 <= failing < pipelines.len(),
        0 <= other < pipelines.len(),
        other != failing,
    ensures
        run_all(pipelines, schedule.push((failing, Event::Failed(error))))[other] == run_all(
            pipelines,
            schedule,
        )[other],
        !run_all(pipelines, schedule)[failing].phase.is_terminal() ==> run_all(
            pipelines,
            schedule.push((failing, Event::Failed(error))),
        )[failing].phase is Failed,
{
    let longer = schedule.push((failing, Event::Failed(error)));
    assert(longer.drop_last() =~= schedule);
    lemma_tables_are_isolated(pipelines, schedule, failing);
}

/// A pipeline after the rows of a stream, every insert on the way having
/// succeeded, and the batches that were inserted, in their order.
pub open spec fn stream(pipeline: Pipeline, rows: Seq<Vec<RawValue>>) -> (
    Pipeline,
    Seq<Seq<Seq<Decoded>>>,
)
    decreases rows.len(),
{
    if rows.len() == 0 {
        (pipeline, Seq::empty())
    } else {
        let before = stream(pipeline, rows.drop_last());
        let next = before.0.step(Event::Row(rows.last()));
        match next.1 {
            Effect::Insert { statement, rows: batch } => (
                next.0.step(Event::Completed).0,
                before.1.push(batch),
            ),
            _ => (next.0, before.1),
        }
    }
}

/// A pipeline after the end of its stream, the last insert having
/// succeeded, and all batches that were inserted.
pub open spec fn finish(state: (Pipeline, Seq<Seq<Seq<Decoded>>>)) -> (
    Pipeline,
    Seq<Seq<Seq<Decoded>>>,
) {
    let next = state.0.step(Event::EndOfStream);
    match next.1 {
        Effect::Insert { statement, rows: batch } => (
            next.0.step(Event::Completed).0,
            state.1.push(batch),
        ),
        _ => (next.0, state.1),
    }
}

/// The rows of a stream, decoded and transformed.
pub open spec fn processed(pipeline: Pipeline, rows: Seq<Vec<RawValue>>) -> Seq<Seq<Decoded>> {
    Seq::new(
        rows.len(),
        |i: int|
            row_outcome(rows[i]@, pipeline.columns, pipeline.transformers, rows[i]@.len()).values,
    )
}

/// Whether every cell of every row has a decoding.
pub open spec fn decodable(pipeline: Pipeline, rows: Seq<Vec<RawValue>>) -> bool {
    forall|i: int|
        0 <= i < rows.len() ==> (#[trigger] row_outcome(
            rows[i]@,
            pipeline.columns,
            pipeline.transformers,
            rows[i]@.len(),
        )).failure is None
}

/// The rows of a sequence of batches, one batch behind the other.
pub open spec fn joined(batches: Seq<Seq<Seq<Decoded>>>) -> Seq<Seq<Decoded>>
    decreases batches.len(),
{
    if batches.len() == 0 {
        Seq::empty()
    } else {
        joined(batches.drop_last()) + batches.last()
    }
}

/// While rows arrive, every batch that leaves is full, and the rows that
/// left and the rows that wait are the rows that came, in their order.
pub proof fn lemma_stream(pipeline: Pipeline, rows: Seq<Vec<RawValue>>)
    requires
        pipeline.phase is Streaming,
        pipeline.rows.len() == 0,
        pipeline.batch_size >= 1,
        decodable(pipeline, rows),
    ensures
        ({
            let after = stream(pipeline, rows);
            &&& after.0.phase is Streaming
            &&& after.0.name == pipeline.name
            &&& after.0.batch_size == pipeline.batch_size
            &&& after.0.columns == pipeline.columns
            &&& after.0.transformers == pipeline.transformers
            &&& after.0.rows.len() < pipeline.batch_size
            &&& joined(after.1) + after.0.rows == processed(pipeline, rows)
            &&& after.1.len() * pipeline.batch_size + after.0.rows.len() == rows.len()
            &&& forall|k: int| 0 <= k < after.1.len() ==> (#[trigger] after.1[k]).len()
                == pipeline.batch_size
        }),
    decreases rows.len(),
{
    if rows.len() == 0 {
        assert(joined(Seq::<Seq<Seq<Decoded>>>::empty()) + pipeline.rows =~= processed(
            pipeline,
            rows,
        ));
    } else {
        let shorter = rows.drop_last();
        assert forall|i: int| 0 <= i < shorter.len() implies (#[trigger] row_outcome(
            shorter[i]@,
            pipeline.columns,
            pipeline.transformers,
            shorter[i]@.len(),
        )).failure is None by {
            assert(shorter[i] == rows[i]);
        }
        lemma_stream(pipeline, shorter);
        let before = stream(pipeline, shorter);
        let last = rows.len() - 1;
        let outcome = row_outcome(
            rows[last]@,
            pipeline.columns,
            pipeline.transformers,
            rows[last]@.len(),
        );
        assert(outcome.failure is None);
        let waiting = before.0.rows.push(outcome.values);
        let after = stream(pipeline, rows);
        assert(processed(pipeline, rows) =~= processed(pipeline, shorter).push(outcome.values));
        if waiting.len() == pipeline.batch_size {
            assert(after.1 == before.1.push(waiting));
            assert(after.1.drop_last() =~= before.1);
            assert(joined(after.1) + after.0.rows =~= processed(pipeline, rows));
            assert((before.1.len() + 1) * pipeline.batch_size == before.1.len()
                * pipeline.batch_size + pipeline.batch_size) by (nonlinear_arith);
        } else {
            assert(joined(after.1) + after.0.rows =~= processed(pipeline, rows));
        }
    }
}

/// A row with a cell that cannot be decoded ends the pipeline: the full
/// batches of the rows before it have been inserted, as many as the batch
/// size goes into their number; the rows behind the last full batch are
/// dropped; and nothing is inserted any more.
pub proof fn lemma_failed_row_ends_stream(
    pipeline: Pipeline,
    rows: Seq<Vec<RawValue>>,
    bad: Vec<RawValue>,
    later: Event,
)
    requires
        pipeline.phase is Streaming,
        pipeline.rows.len() == 0,
        pipeline.batch_size >= 1,
        decodable(pipeline, rows),
        row_outcome(bad@, pipeline.columns, pipeline.transformers, bad@.len()).failure is Some,
    ensures
        ({
            let before = stream(pipeline, rows);
            let after = before.0.step(Event::Row(bad));
            &&& before.1.len() == (rows.len() as int) / (pipeline.batch_size as int)
            &&& after.0.phase is Failed
            &&& after.0.rows.len() == 0
            &&& after.1 == Effect::Fail(
                row_outcome(
                    bad@,
                    pipeline.columns,
                    pipeline.transformers,
                    bad@.len(),
                ).failure->Some_0,
            )
            &&& after.0.step(later) == (after.0, Effect::Nothing)
        }),
{
    lemma_stream(pipeline, rows);
    let before = stream(pipeline, rows);
    lemma_fundamental_div_mod_converse(
        rows.len() as int,
        pipeline.batch_size as int,
        before.1.len() as int,
        before.0.rows.len() as int,
    );
}

/// Batches are cut at the batch size: a stream of rows that can all be
/// decoded leaves a pipeline with batch size `b` in batches of exactly `b`
/// rows, but for the last, which holds what is left, at least one row. The
/// batches hold the rows of the stream, decoded and transformed, in their
/// order; there are as many as `b` goes into the number of rows, rounded
/// up; and the pipeline ends in `Done`.
pub proof fn lemma_batches_are_cut_at_batch_size(pipeline: Pipeline, rows: Seq<Vec<RawValue>>)
    requires
        pipeline.phase is Streaming,
        pipeline.rows.len() == 0,
        pipeline.batch_size >= 1,
        decodable(pipeline, rows),
    ensures
        ({
            let end = finish(stream(pipeline, rows));
            let size = pipeline.batch_size as int;
            &&& end.0.phase is Done
            &&& joined(end.1) == processed(pipeline, rows)
            &&& end.1.len() == (rows.len() + size - 1) / size
            &&& forall|k: int| 0 <= k < end.1.len() - 1 ==> (#[trigger] end.1[k]).len() == size
            &&& end.1.len() > 0 ==> 1 <= end.1.last().len() <= size
            &&& end.1.len() > 0 ==> end.1.last().len() == rows.len() - (end.1.len() - 1) * size
        }),
{
    lemma_stream(pipeline, rows);
    let before = stream(pipeline, rows);
    let end = finish(before);
    let size = pipeline.batch_size as int;
    let full = before.1.len() as int;
    let rest = before.0.rows.len() as int;
    if rest > 0 {
        assert(end.1 == before.1.push(before.0.rows));
        assert(end.1.drop_last() =~= before.1);
        assert(rows.len() + size - 1 == (full + 1) * size + (rest - 1)) by (nonlinear_arith)
            requires
                full * size + rest == rows.len(),
        ;
        lemma_fundamental_div_mod_converse(rows.len() + size - 1, size, full + 1, rest - 1);
    } else {
        assert(end.1 == before.1);
        assert(joined(end.1) =~= processed(pipeline, rows));
        lemma_fundamental_div_mod_converse(rows.len() + size - 1, size, full, size - 1);
        if full > 0 {
            assert((full - 1) * size == full * size - size) by (nonlinear_arith);
        }
    }
}

} // verus!
