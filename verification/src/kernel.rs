use vstd::prelude::*;
use crate::config::{image_bytes, RenderConfig, TileSize};
use crate::error::{ConfigError, FatalError, RenderError};
use crate::tiles::{axis_count, count_tiles, in_grid, tile_at, tile_spec, Tile};

verus! {

/// Where a render stands. Each phase waits for the one event that answers
/// the action of that phase.
#[derive(Clone, Copy, Debug, PartialEq, Eq, Structural)]
pub enum Phase {
    /// The tile at grid position `(x, y)` is the next to be dispatched.
    Dispatch { x: u32, y: u32 },
    /// The tile at `(x, y)` was submitted under `submission` and is not yet
    /// known to be complete.
    TileInFlight { x: u32, y: u32, submission: u64 },
    /// Every tile is complete; the copy of the output texture is due.
    Copy,
    /// The copy was submitted under `submission`; the mapping is to be requested.
    RequestMap { submission: u64 },
    /// The mapping was requested; the copy is not yet known to be complete.
    CopyInFlight { submission: u64 },
    /// The copy is complete; the answer to the map request is awaited.
    AwaitMap,
    /// The pixels were taken over; the mapping is to be released.
    Unmap,
    /// The render ended with pixels.
    Done,
    /// The render ended with the given error.
    Failed(RenderError),
    /// The render met a failure that the host must not recover from.
    Aborted(FatalError),
}

/// What the device side reports back.
#[derive(Debug, PartialEq, Eq)]
pub enum Event {
    /// The commands were submitted; the device named the submission.
    Submitted(u64),
    /// The device reports the named submission complete.
    Completed(u64),
    /// The wait ran into the device's timeout.
    TimedOut,
    /// The request for the mapping was issued.
    MapRequested,
    /// The mapping succeeded; these are the bytes of the mapped range.
    Mapped(Vec<u8>),
    /// The mapping failed, or its answer never came.
    MapFailed,
    /// The mapping was released.
    Unmapped,
}

/// How the output texture is copied into the result buffer.
#[derive(Clone, Copy, Debug, PartialEq, Eq, Structural)]
pub struct CopyLayout {
    pub width: u32,
    pub height: u32,
    pub bytes_per_row: u32,
    pub rows_per_image: u32,
}

/// What the device side is asked to do next.
#[derive(Clone, Copy, Debug, PartialEq, Eq, Structural)]
pub enum Action {
    /// Overwrite the execution context with the tile's origin, encode one
    /// dispatch of `width` by `height` by one workgroups bound to the three
    /// bind sets in their order, and submit. Answer: `Submitted`.
    DispatchTile(Tile),
    /// Block until the device reports this very submission complete.
    /// Answer: `Completed` with its number, or `TimedOut`.
    WaitFor { submission: u64 },
    /// Encode the copy of the whole output texture into the result buffer and
    /// submit. Answer: `Submitted`.
    CopyOutput(CopyLayout),
    /// Issue the one request to map the result buffer for reading.
    /// Answer: `MapRequested`.
    RequestMap,
    /// Wait for the answer to the map request and read `len` bytes.
    /// Answer: `Mapped` or `MapFailed`.
    AwaitMap { len: usize },
    /// Release the mapping. Answer: `Unmapped`.
    Unmap,
    /// Nothing is left to do: the pixels are ready.
    Succeed,
    /// Nothing is left to do: the render failed.
    Fail(RenderError),
    /// Stop the process.
    Abort(FatalError),
}

/// Whether the phase is an end: no event leads out of it.
pub open spec fn is_terminal(phase: Phase) -> bool {
    phase is Done || phase is Failed || phase is Aborted
}

/// The phase that follows the completion of the tile at `(x, y)`: the next
/// tile of the column, else the first tile of the next column, else the copy.
pub open spec fn after_tile(config: RenderConfig, x: u32, y: u32) -> Phase {
    if y + 1 < axis_count(config.height as int, config.tile_size) {
        Phase::Dispatch { x, y: (y + 1) as u32 }
    } else if x + 1 < axis_count(config.width as int, config.tile_size) {
        Phase::Dispatch { x: (x + 1) as u32, y: 0 }
    } else {
        Phase::Copy
    }
}

/// The phase in which a render starts.
pub open spec fn initial_phase() -> Phase {
    Phase::Dispatch { x: 0, y: 0 }
}

/// The phase that `event` leads to from `phase`.
pub open spec fn next_phase(config: RenderConfig, phase: Phase, event: Event) -> Phase {
    match phase {
        Phase::Dispatch { x, y } => match event {
            Event::Submitted(submission) => Phase::TileInFlight { x, y, submission },
            _ => Phase::Aborted(FatalError::ProtocolViolation),
        },
        Phase::TileInFlight { x, y, submission } => match event {
            Event::Completed(done) => if done == submission {
                after_tile(config, x, y)
            } else {
                phase
            },
            Event::TimedOut => Phase::Aborted(FatalError::WaitTimedOut),
            _ => Phase::Aborted(FatalError::ProtocolViolation),
        },
        Phase::Copy => match event {
            Event::Submitted(submission) => Phase::RequestMap { submission },
            _ => Phase::Aborted(FatalError::ProtocolViolation),
        },
        Phase::RequestMap { submission } => match event {
            Event::MapRequested => Phase::CopyInFlight { submission },
            _ => Phase::Aborted(FatalError::ProtocolViolation),
        },
        Phase::CopyInFlight { submission } => match event {
            Event::Completed(done) => if done == submission {
                Phase::AwaitMap
            } else {
                phase
            },
            Event::TimedOut => Phase::Aborted(FatalError::WaitTimedOut),
            _ => Phase::Aborted(FatalError::ProtocolViolation),
        },
        Phase::AwaitMap => match event {
            Event::Mapped(bytes) => if bytes@.len() == image_bytes(
                config.width as int,
                config.height as int,
            ) {
                Phase::Unmap
            } else {
                Phase::Failed(RenderError::Readback)
            },
            Event::MapFailed => Phase::Failed(RenderError::Readback),
            _ => Phase::Aborted(FatalError::ProtocolViolation),
        },
        Phase::Unmap => match event {
            Event::Unmapped => Phase::Done,
            _ => Phase::Aborted(FatalError::ProtocolViolation),
        },
        Phase::Done => phase,
        Phase::Failed(_) => phase,
        Phase::Aborted(_) => phase,
    }
}

/// The pixels that the render holds after `event` met it in `phase`.
pub open spec fn next_pixels(
    config: RenderConfig,
    phase: Phase,
    pixels: Seq<u8>,
    event: Event,
) -> Seq<u8> {
    match event {
        Event::Mapped(bytes) => if phase is AwaitMap && next_phase(config, phase, event) is Unmap {
            bytes@
        } else {
            pixels
        },
        _ => pixels,
    }
}

/// The action that belongs to `phase`.
pub open spec fn action_spec(config: RenderConfig, phase: Phase) -> Action {
    match phase {
        Phase::Dispatch { x, y } => Action::DispatchTile(
            tile_spec(config.width, config.height, config.tile_size, x as int, y as int),
        ),
        Phase::TileInFlight { submission, .. } => Action::WaitFor { submission },
        Phase::Copy => Action::CopyOutput(
            CopyLayout {
                width: config.width,
                height: config.height,
                bytes_per_row: (config.width * 4) as u32,
                rows_per_image: config.height,
            },
        ),
        Phase::RequestMap { .. } => Action::RequestMap,
        Phase::CopyInFlight { submission } => Action::WaitFor { submission },
        Phase::AwaitMap => Action::AwaitMap {
            len: image_bytes(config.width as int, config.height as int) as usize,
        },
        Phase::Unmap => Action::Unmap,
        Phase::Done => Action::Succeed,
        Phase::Failed(e) => Action::Fail(e),
        Phase::Aborted(e) => Action::Abort(e),
    }
}

/// Whether `phase` can occur in a render of `config`, and `pixels` with it.
pub open spec fn phase_fits(config: RenderConfig, phase: Phase, pixels: Seq<u8>) -> bool {
    &&& phase matches Phase::Dispatch { x, y } ==> in_grid(
        config.width,
        config.height,
        config.tile_size,
        x as int,
        y as int,
    )
    &&& phase matches Phase::TileInFlight { x, y, .. } ==> in_grid(
        config.width,
        config.height,
        config.tile_size,
        x as int,
        y as int,
    )
    &&& (phase is Unmap || phase is Done) ==> pixels.len() == image_bytes(
        config.width as int,
        config.height as int,
    )
    &&& phase matches Phase::Failed(e) ==> e == RenderError::Readback
}

/// The scheduler of one render: it walks the tiles of the image one after the
/// other and then reads the pixels back. It decides; the host performs.
pub struct Kernel {
    config: RenderConfig,
    phase: Phase,
    pixels: Vec<u8>,
}

impl Kernel {
    #[verifier::type_invariant]
    spec fn inv(&self) -> bool {
        &&& self.config.wf()
        &&& phase_fits(self.config, self.phase, self.pixels@)
    }

    /// The settings of the render.
    pub closed spec fn config(&self) -> RenderConfig {
        self.config
    }

    /// The phase the render is in.
    pub closed spec fn phase(&self) -> Phase {
        self.phase
    }

    /// The pixels taken over from the mapped result buffer; empty before.
    pub closed spec fn pixels(&self) -> Seq<u8> {
        self.pixels@
    }

    /// Sets up the scheduler for one render, or names the fault in the settings.
    pub fn new(config: RenderConfig) -> (res: Result<Kernel, ConfigError>)
        ensures
            res.is_ok() <==> config.wf(),
            match res {
                Ok(kernel) => {
                    &&& config.wf()
                    &&& kernel.config() == config
                    &&& kernel.phase() == initial_phase()
                    &&& kernel.pixels() == Seq::<u8>::empty()
                },
                Err(e) => config.fault() == Some(e),
            },
    {
        match config.validate() {
            Ok(()) => Ok(Kernel::started(config)),
            Err(e) => Err(e),
        }
    }

    /// The scheduler at the start of a render with valid settings.
    pub(crate) fn started(config: RenderConfig) -> (kernel: Kernel)
        requires
            config.wf(),
        ensures
            kernel.config() == config,
            kernel.phase() == initial_phase(),
            kernel.pixels() == Seq::<u8>::empty(),
    {
        proof {
            lemma_grid_not_empty(config);
        }
        Kernel { config, phase: Phase::Dispatch { x: 0, y: 0 }, pixels: Vec::new() }
    }

    /// The settings of the render.
    pub fn settings(&self) -> (config: RenderConfig)
        ensures
            config == self.config(),
            config.wf(),
    {
        proof {
            use_type_invariant(self);
        }
        self.config
    }

    /// The phase the render is in.
    pub fn current_phase(&self) -> (phase: Phase)
        ensures
            phase == self.phase(),
    {
        self.phase
    }

    /// Whether the render has ended.
    pub fn is_finished(&self) -> (done: bool)
        ensures
            done == is_terminal(self.phase()),
    {
        match self.phase {
            Phase::Done => true,
            Phase::Failed(_) => true,
            Phase::Aborted(_) => true,
            _ => false,
        }
    }

    /// What the host is to do next.
    pub fn pending(&self) -> (action: Action)
        ensures
            action == action_spec(self.config(), self.phase()),
    {
        proof {
            use_type_invariant(self);
        }
        match self.phase {
            Phase::Dispatch { x, y } => Action::DispatchTile(
                tile_at(self.config.width, self.config.height, self.config.tile_size, x, y),
            ),
            Phase::TileInFlight { submission, .. } => Action::WaitFor { submission },
            Phase::Copy => Action::CopyOutput(
                CopyLayout {
                    width: self.config.width,
                    height: self.config.height,
                    bytes_per_row: self.config.width * 4,
                    rows_per_image: self.config.height,
                },
            ),
            Phase::RequestMap { .. } => Action::RequestMap,
            Phase::CopyInFlight { submission } => Action::WaitFor { submission },
            Phase::AwaitMap => Action::AwaitMap { len: self.pixel_bytes() },
            Phase::Unmap => Action::Unmap,
            Phase::Done => Action::Succeed,
            Phase::Failed(e) => Action::Fail(e),
            Phase::Aborted(e) => Action::Abort(e),
        }
    }

    /// Byte length of the finished pixel buffer.
    pub fn pixel_bytes(&self) -> (len: usize)
        ensures
            len == image_bytes(self.config().width as int, self.config().height as int),
    {
        proof {
            use_type_invariant(self);
        }
        let w: usize = self.config.width as usize;
        let h: usize = self.config.height as usize;
        assert(w * h <= w * h * 4) by (nonlinear_arith)
            requires
                0 <= w,
                0 <= h,
        ;
        w * h * 4
    }

    /// Takes in what the device side reports and moves on.
    pub fn advance(&mut self, event: Event)
        ensures
            final(self).config() == old(self).config(),
            final(self).phase() == next_phase(old(self).config(), old(self).phase(), event),
            final(self).pixels() == next_pixels(
                old(self).config(),
                old(self).phase(),
                old(self).pixels(),
                event,
            ),
    {
        proof {
            use_type_invariant(&*self);
        }
        let config = self.config;
        let len = self.pixel_bytes();
        let phase = self.phase;
        match phase {
            Phase::Dispatch { x, y } => match event {
                Event::Submitted(submission) => {
                    self.phase = Phase::TileInFlight { x, y, submission };
                },
                _ => {
                    self.phase = Phase::Aborted(FatalError::ProtocolViolation);
                },
            },
            Phase::TileInFlight { x, y, submission } => match event {
                Event::Completed(done) => {
                    if done == submission {
                        self.phase = following_tile(&config, x, y);
                    }
                },
                Event::TimedOut => {
                    self.phase = Phase::Aborted(FatalError::WaitTimedOut);
                },
                _ => {
                    self.phase = Phase::Aborted(FatalError::ProtocolViolation);
                },
            },
            Phase::Copy => match event {
                Event::Submitted(submission) => {
                    self.phase = Phase::RequestMap { submission };
                },
                _ => {
                    self.phase = Phase::Aborted(FatalError::ProtocolViolation);
                },
            },
            Phase::RequestMap { submission } => match event {
                Event::MapRequested => {
                    self.phase = Phase::CopyInFlight { submission };
                },
                _ => {
                    self.phase = Phase::Aborted(FatalError::ProtocolViolation);
                },
            },
            Phase::CopyInFlight { submission } => match event {
                Event::Completed(done) => {
                    if done == submission {
                        self.phase = Phase::AwaitMap;
                    }
                },
                Event::TimedOut => {
                    self.phase = Phase::Aborted(FatalError::WaitTimedOut);
                },
                _ => {
                    self.phase = Phase::Aborted(FatalError::ProtocolViolation);
                },
            },
            Phase::AwaitMap => match event {
                Event::Mapped(bytes) => {
                    if bytes.len() == len {
                        self.pixels = bytes;
                        self.phase = Phase::Unmap;
                    } else {
                        self.phase = Phase::Failed(RenderError::Readback);
                    }
                },
                Event::MapFailed => {
                    self.phase = Phase::Failed(RenderError::Readback);
                },
                _ => {
                    self.phase = Phase::Aborted(FatalError::ProtocolViolation);
                },
            },
            Phase::Unmap => match event {
                Event::Unmapped => {
                    self.phase = Phase::Done;
                },
                _ => {
                    self.phase = Phase::Aborted(FatalError::ProtocolViolation);
                },
            },
            Phase::Done => {},
            Phase::Failed(_) => {},
            Phase::Aborted(_) => {},
        }
    }

    /// Ends the render: the pixels if it is done, the error if it failed,
    /// and nothing while it is under way or after an abort.
    pub fn into_result(self) -> (res: Option<Result<Vec<u8>, RenderError>>)
        ensures
            match res {
                Some(Ok(pixels)) => {
                    &&& self.phase() is Done
                    &&& pixels@ == self.pixels()
                    &&& pixels@.len() == image_bytes(
                        self.config().width as int,
                        self.config().height as int,
                    )
                },
                Some(Err(e)) => self.phase() == Phase::Failed(e) && e == RenderError::Readback,
                None => !(self.phase() is Done) && !(self.phase() is Failed),
            },
    {
        proof {
            use_type_invariant(&self);
        }
        match self.phase {
            Phase::Done => Some(Ok(self.pixels)),
            Phase::Failed(e) => Some(Err(e)),
            _ => None,
        }
    }
}

/// A valid image has at least one tile along each axis.
pub proof fn lemma_grid_not_empty(config: RenderConfig)
    requires
        config.wf(),
    ensures
        in_grid(config.width, config.height, config.tile_size, 0, 0),
{
    match config.tile_size {
        TileSize::Full => {},
        TileSize::Tile(size) => {
            let s = size as int;
            let w = config.width as int;
            let h = config.height as int;
            assert((w + s - 1) / s >= 1) by (nonlinear_arith)
                requires
                    w >= 1,
                    s >= 1,
            ;
            assert((h + s - 1) / s >= 1) by (nonlinear_arith)
                requires
                    h >= 1,
                    s >= 1,
            ;
        },
    }
}

/// The phase that follows the completion of the tile at `(x, y)`.
fn following_tile(config: &RenderConfig, x: u32, y: u32) -> (phase: Phase)
    requires
        config.wf(),
        in_grid(config.width, config.height, config.tile_size, x as int, y as int),
    ensures
        phase == after_tile(*config, x, y),
        phase_fits(*config, phase, Seq::<u8>::empty()),
{
    let count = count_tiles(config.width, config.height, config.tile_size);
    if y + 1 < count.y {
        Phase::Dispatch { x, y: y + 1 }
    } else if x + 1 < count.x {
        Phase::Dispatch { x: x + 1, y: 0 }
    } else {
        Phase::Copy
    }
}

} // verus!
