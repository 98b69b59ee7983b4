use vstd::prelude::*;
use crate::config::{image_bytes, RenderConfig};
use crate::error::{FatalError, RenderError};
use crate::kernel::{
    action_spec,
    after_tile,
    initial_phase,
    is_terminal,
    lemma_grid_not_empty,
    next_phase,
    next_pixels,
    Action,
    Event,
    Phase,
};
use crate::tiles::{axis_count, in_grid, lemma_axis_count_bound, lemma_tiles_list, tiles_spec};

verus! {

/// The phase that a run of events leads to from `phase`.
pub open spec fn run(config: RenderConfig, phase: Phase, events: Seq<Event>) -> Phase
    decreases events.len(),
{
    if events.len() == 0 {
        phase
    } else {
        next_phase(config, run(config, phase, events.drop_last()), events.last())
    }
}

/// Number of tiles of the image.
pub open spec fn tile_total(config: RenderConfig) -> int {
    axis_count(config.width as int, config.tile_size) * axis_count(
        config.height as int,
        config.tile_size,
    )
}

/// The phase in which `k` tiles are complete and nothing else is under way:
/// the dispatch of tile `k`, counted column by column, or the copy once no
/// tile is left.
pub open spec fn phase_after_tiles(config: RenderConfig, k: int) -> Phase {
    let rows = axis_count(config.height as int, config.tile_size);
    if k < tile_total(config) {
        Phase::Dispatch { x: (k / rows) as u32, y: (k % rows) as u32 }
    } else {
        Phase::Copy
    }
}

/// The events of a device that submits and completes `k` tiles in turn;
/// `ids` names the submission of each.
pub open spec fn tile_events(k: int, ids: spec_fn(int) -> u64) -> Seq<Event>
    decreases k,
{
    if k <= 0 {
        Seq::<Event>::empty()
    } else {
        tile_events(k - 1, ids).push(Event::Submitted(ids(k - 1))).push(
            Event::Completed(ids(k - 1)),
        )
    }
}

/// The events of a device that copies the output and answers the map request.
pub open spec fn readback_events(submission: u64, answer: Event) -> Seq<Event> {
    seq![
        Event::Submitted(submission),
        Event::MapRequested,
        Event::Completed(submission),
        answer,
    ]
}

/// No event leads out of an end, and none changes the pixels there: a render
/// that failed is not tried again.
pub proof fn lemma_end_is_final(config: RenderConfig, phase: Phase, pixels: Seq<u8>, event: Event)
    requires
        is_terminal(phase),
    ensures
        next_phase(config, phase, event) == phase,
        next_pixels(config, phase, pixels, event) == pixels,
{
}

/// Once a run has reached an end it stays there.
pub proof fn lemma_run_stays_at_end(config: RenderConfig, phase: Phase, events: Seq<Event>)
    requires
        is_terminal(phase),
    ensures
        run(config, phase, events) == phase,
    decreases events.len(),
{
    if events.len() > 0 {
        lemma_run_stays_at_end(config, phase, events.drop_last());
    }
}

/// A timeout is never taken for success: it ends the render without pixels,
/// unless the render had ended before.
pub proof fn lemma_timeout_is_failure(config: RenderConfig, phase: Phase)
    ensures
        is_terminal(next_phase(config, phase, Event::TimedOut)),
        !is_terminal(phase) ==> next_phase(config, phase, Event::TimedOut) is Aborted,
        (phase is TileInFlight || phase is CopyInFlight) ==> next_phase(
            config,
            phase,
            Event::TimedOut,
        ) == Phase::Aborted(FatalError::WaitTimedOut),
{
}

/// A wait is over only when the very submission it waits for is reported
/// complete: the report of another one leaves the render waiting.
pub proof fn lemma_wait_is_keyed(config: RenderConfig, phase: Phase, done: u64)
    ensures
        phase matches Phase::TileInFlight { x, y, submission } ==> (next_phase(
            config,
            phase,
            Event::Completed(done),
        ) == if done == submission {
            after_tile(config, x, y)
        } else {
            phase
        }),
        phase matches Phase::CopyInFlight { submission } ==> (next_phase(
            config,
            phase,
            Event::Completed(done),
        ) == if done == submission {
            Phase::AwaitMap
        } else {
            phase
        }),
{
}

/// Tiles are dispatched strictly one after the other: a dispatch becomes due
/// only when the tile before it is reported complete.
pub proof fn lemma_dispatch_follows_completion(config: RenderConfig, phase: Phase, event: Event)
    requires
        next_phase(config, phase, event) is Dispatch,
        next_phase(config, phase, event) != phase,
    ensures
        (phase matches Phase::TileInFlight { x, y, submission } && event == Event::Completed(
            submission,
        ) && next_phase(config, phase, event) == after_tile(config, x, y)),
{
}

/// The copy becomes due only when the last tile is reported complete.
pub proof fn lemma_copy_follows_last_tile(config: RenderConfig, phase: Phase, event: Event)
    requires
        next_phase(config, phase, event) is Copy,
        !(phase is Copy),
    ensures
        (phase matches Phase::TileInFlight { x, y, submission } && event == Event::Completed(
            submission,
        ) && x + 1 >= axis_count(config.width as int, config.tile_size) && y + 1 >= axis_count(
            config.height as int,
            config.tile_size,
        )),
{
}

/// A render that was started fails only at the readback: with the
/// readback error, while the answer to the map request is awaited.
pub proof fn lemma_failure_is_readback(config: RenderConfig, phase: Phase, event: Event)
    requires
        next_phase(config, phase, event) is Failed,
        !(phase is Failed),
    ensures
        next_phase(config, phase, event) == Phase::Failed(RenderError::Readback),
        phase is AwaitMap,
        event is MapFailed || (event matches Event::Mapped(bytes) && bytes@.len() != image_bytes(
            config.width as int,
            config.height as int,
        )),
{
}

/// Pixels come only from a mapping of the right length, and only while it is awaited.
pub proof fn lemma_pixels_come_from_mapping(
    config: RenderConfig,
    phase: Phase,
    pixels: Seq<u8>,
    event: Event,
)
    ensures
        next_pixels(config, phase, pixels, event) != pixels ==> (phase is AwaitMap && (event
            matches Event::Mapped(bytes) && bytes@.len() == image_bytes(
            config.width as int,
            config.height as int,
        ) && next_pixels(config, phase, pixels, event) == bytes@)),
        (next_phase(config, phase, event) is Unmap && !(phase is Unmap)) ==> next_pixels(
            config,
            phase,
            pixels,
            event,
        ).len() == image_bytes(config.width as int, config.height as int),
{
}

/// Submitting and completing tile `k` leads to tile `k + 1`, or to the copy
/// after the last tile.
pub proof fn lemma_tile_step(config: RenderConfig, k: int, submission: u64)
    requires
        config.wf(),
        0 <= k < tile_total(config),
    ensures
        (phase_after_tiles(config, k) matches Phase::Dispatch { x, y } && in_grid(
            config.width,
            config.height,
            config.tile_size,
            x as int,
            y as int,
        )),
        next_phase(
            config,
            next_phase(config, phase_after_tiles(config, k), Event::Submitted(submission)),
            Event::Completed(submission),
        ) == phase_after_tiles(config, k + 1),
{
    let cols = axis_count(config.width as int, config.tile_size);
    let rows = axis_count(config.height as int, config.tile_size);
    lemma_grid_not_empty(config);
    lemma_axis_count_bound(config.width as int, config.tile_size);
    lemma_axis_count_bound(config.height as int, config.tile_size);
    let x = k / rows;
    let y = k % rows;
    assert(0 <= y < rows && 0 <= x < cols && k == x * rows + y) by (nonlinear_arith)
        requires
            0 <= k < cols * rows,
            rows > 0,
            x == k / rows,
            y == k % rows,
    ;
    if y + 1 < rows {
        assert((k + 1) / rows == x && (k + 1) % rows == y + 1) by (nonlinear_arith)
            requires
                k == x * rows + y,
                0 <= y,
                y + 1 < rows,
        ;
        assert(k + 1 < cols * rows) by (nonlinear_arith)
            requires
                k == x * rows + y,
                y + 1 < rows,
                x + 1 <= cols,
                rows > 0,
                x >= 0,
        {
            assert((x + 1) * rows <= cols * rows);
            assert((x + 1) * rows == x * rows + rows);
        }
    } else if x + 1 < cols {
        assert((k + 1) / rows == x + 1 && (k + 1) % rows == 0) by (nonlinear_arith)
            requires
                k == x * rows + y,
                y + 1 == rows,
                rows > 0,
        ;
        assert(k + 1 < cols * rows) by (nonlinear_arith)
            requires
                k == x * rows + y,
                y + 1 == rows,
                x + 2 <= cols,
                rows > 0,
                x >= 0,
        {
            assert((x + 2) * rows <= cols * rows);
            assert((x + 2) * rows == x * rows + rows + rows);
        }
    } else {
        assert(k + 1 == cols * rows) by (nonlinear_arith)
            requires
                k == x * rows + y,
                y + 1 == rows,
                x + 1 == cols,
        ;
    }
}

/// A device that completes every tile it is given sees the tiles in their
/// order, each exactly once: after `k` tiles the render stands at tile `k`,
/// and after the last one at the copy.
pub proof fn lemma_tiles_run_in_order(config: RenderConfig, k: int, ids: spec_fn(int) -> u64)
    requires
        config.wf(),
        0 <= k <= tile_total(config),
    ensures
        run(config, initial_phase(), tile_events(k, ids)) == phase_after_tiles(config, k),
    decreases k,
{
    if k == 0 {
        lemma_grid_not_empty(config);
        let rows = axis_count(config.height as int, config.tile_size);
        let cols = axis_count(config.width as int, config.tile_size);
        assert(0 < cols * rows) by (nonlinear_arith)
            requires
                cols > 0,
                rows > 0,
        ;
        assert(0int / rows == 0 && 0int % rows == 0) by (nonlinear_arith)
            requires
                rows > 0,
        ;
    } else {
        lemma_tiles_run_in_order(config, k - 1, ids);
        lemma_tile_step(config, k - 1, ids(k - 1));
        let before = tile_events(k - 1, ids);
        let mid = before.push(Event::Submitted(ids(k - 1)));
        let all = mid.push(Event::Completed(ids(k - 1)));
        assert(all.drop_last() =~= mid);
        assert(mid.drop_last() =~= before);
        assert(all.last() == Event::Completed(ids(k - 1)));
        assert(mid.last() == Event::Submitted(ids(k - 1)));
        assert(tile_events(k, ids) == all);
        assert(run(config, initial_phase(), mid) == next_phase(
            config,
            run(config, initial_phase(), before),
            Event::Submitted(ids(k - 1)),
        ));
        assert(run(config, initial_phase(), all) == next_phase(
            config,
            run(config, initial_phase(), mid),
            Event::Completed(ids(k - 1)),
        ));
    }
}

/// Running one run after another is running their concatenation.
pub proof fn lemma_run_append(
    config: RenderConfig,
    phase: Phase,
    first: Seq<Event>,
    second: Seq<Event>,
)
    ensures
        run(config, phase, first + second) == run(config, run(config, phase, first), second),
    decreases second.len(),
{
    if second.len() == 0 {
        assert(first + second =~= first);
    } else {
        lemma_run_append(config, phase, first, second.drop_last());
        assert((first + second).drop_last() =~= first + second.drop_last());
        assert((first + second).last() == second.last());
    }
}

/// What the readback leads to once no tile is left: to the release of the
/// mapping if the mapped range has the image's length, to the readback
/// error if the mapping failed or has another length.
pub proof fn lemma_readback_outcome(config: RenderConfig, submission: u64, answer: Event)
    requires
        answer is Mapped || answer is MapFailed,
    ensures
        run(config, Phase::Copy, readback_events(submission, answer)) == (if (answer matches Event::Mapped(
            bytes,
        ) && bytes@.len() == image_bytes(config.width as int, config.height as int)) {
            Phase::Unmap
        } else {
            Phase::Failed(RenderError::Readback)
        }),
{
    let e = readback_events(submission, answer);
    let e3 = e.drop_last();
    let e2 = e3.drop_last();
    let e1 = e2.drop_last();
    assert(e1.drop_last().len() == 0);
    assert(run(config, Phase::Copy, e1.drop_last()) == Phase::Copy);
    assert(e1.last() == Event::Submitted(submission));
    assert(run(config, Phase::Copy, e1) == Phase::RequestMap { submission });
    assert(e2.last() == Event::MapRequested);
    assert(run(config, Phase::Copy, e2) == Phase::CopyInFlight { submission });
    assert(e3.last() == Event::Completed(submission));
    assert(run(config, Phase::Copy, e3) == Phase::AwaitMap);
    assert(e.last() == answer);
}

/// A whole render against a device that does all it is asked: every tile in
/// order, the copy, the mapping, its release. It ends with pixels.
pub proof fn lemma_render_succeeds(
    config: RenderConfig,
    ids: spec_fn(int) -> u64,
    submission: u64,
    bytes: Vec<u8>,
)
    requires
        config.wf(),
        bytes@.len() == image_bytes(config.width as int, config.height as int),
    ensures
        run(
            config,
            initial_phase(),
            tile_events(tile_total(config), ids) + readback_events(
                submission,
                Event::Mapped(bytes),
            ).push(Event::Unmapped),
        ) == Phase::Done,
{
    let n = tile_total(config);
    lemma_tile_total_positive(config);
    lemma_tiles_run_in_order(config, n, ids);
    let tail = readback_events(submission, Event::Mapped(bytes));
    lemma_readback_outcome(config, submission, Event::Mapped(bytes));
    lemma_run_append(config, initial_phase(), tile_events(n, ids), tail.push(Event::Unmapped));
    assert(tail.push(Event::Unmapped).drop_last() =~= tail);
}

/// A whole render whose mapping fails ends with the readback error.
pub proof fn lemma_render_fails_on_map_failure(
    config: RenderConfig,
    ids: spec_fn(int) -> u64,
    submission: u64,
    later: Seq<Event>,
)
    requires
        config.wf(),
    ensures
        run(
            config,
            initial_phase(),
            tile_events(tile_total(config), ids) + readback_events(submission, Event::MapFailed)
                + later,
        ) == Phase::Failed(RenderError::Readback),
{
    let n = tile_total(config);
    lemma_tile_total_positive(config);
    lemma_tiles_run_in_order(config, n, ids);
    let tail = readback_events(submission, Event::MapFailed);
    lemma_readback_outcome(config, submission, Event::MapFailed);
    lemma_run_append(config, initial_phase(), tile_events(n, ids), tail);
    lemma_run_append(config, initial_phase(), tile_events(n, ids) + tail, later);
    lemma_run_stays_at_end(config, Phase::Failed(RenderError::Readback), later);
}

/// A valid image has at least one tile.
pub proof fn lemma_tile_total_positive(config: RenderConfig)
    requires
        config.wf(),
    ensures
        tile_total(config) >= 1,
{
    lemma_grid_not_empty(config);
    let rows = axis_count(config.height as int, config.tile_size);
    let cols = axis_count(config.width as int, config.tile_size);
    assert(cols * rows >= 1) by (nonlinear_arith)
        requires
            cols >= 1,
            rows >= 1,
    ;
}

/// The tile that is dispatched after `k` tiles is tile `k` of the list of
/// tiles: a render that runs to its copy has dispatched the whole list, each
/// tile once.
pub proof fn lemma_dispatch_is_kth_tile(config: RenderConfig, k: int)
    requires
        config.wf(),
        0 <= k < tile_total(config),
    ensures
        tiles_spec(config.width, config.height, config.tile_size).len() == tile_total(config),
        action_spec(config, phase_after_tiles(config, k)) == Action::DispatchTile(
            tiles_spec(config.width, config.height, config.tile_size)[k],
        ),
{
    lemma_tile_total_positive(config);
    lemma_tiles_list(config.width, config.height, config.tile_size, k);
    lemma_axis_count_bound(config.width as int, config.tile_size);
    lemma_axis_count_bound(config.height as int, config.tile_size);
}

} // verus!
