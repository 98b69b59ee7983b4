use std::time::{Duration, Instant};
use vstd::prelude::*;

verus! {

/// A point in time of the monotonic clock. The library keeps such points
/// and never looks into them.
#[verifier::external_type_specification]
#[verifier::external_body]
pub struct ExInstant(Instant);

/// `Instant::now` reads the clock. Nothing is claimed of what it returns.
pub assume_specification[ Instant::now ]() -> (now: Instant)
;

/// `Instant::elapsed` tells how much time has passed since the instant.
/// Nothing is claimed of what it returns.
pub assume_specification[ Instant::elapsed ](start: &Instant) -> (elapsed: Duration)
;

/// `Duration::as_nanos` gives the whole duration in nanoseconds. Nothing is
/// claimed of what it returns.
pub assume_specification[ Duration::as_nanos ](duration: &Duration) -> (nanos: u128)
;

/// The steps of a render that are timed.
#[derive(Clone, Copy, Debug, PartialEq, Eq, Structural)]
pub enum Stage {
    DeviceAcquisition,
    SceneUpload,
    KernelInitialization,
    Rendering,
    OutputWrite,
    Total,
}

/// The times taken so far, in nanoseconds.
pub struct MetricsView {
    pub device_acquisition: u128,
    pub scene_upload: u128,
    pub kernel_initialization: u128,
    pub rendering: u128,
    pub output_write: u128,
    pub total: u128,
}

impl MetricsView {
    /// The times before anything was timed: all zero.
    pub open spec fn zero() -> MetricsView {
        MetricsView {
            device_acquisition: 0,
            scene_upload: 0,
            kernel_initialization: 0,
            rendering: 0,
            output_write: 0,
            total: 0,
        }
    }

    /// The time that is taken off the clock's reading when a stage is
    /// recorded: the time recorded for the stage before it, and nothing for
    /// the first stage and for the total.
    pub open spec fn deduction(&self, stage: Stage) -> u128 {
        match stage {
            Stage::DeviceAcquisition => 0,
            Stage::SceneUpload => self.device_acquisition,
            Stage::KernelInitialization => self.scene_upload,
            Stage::Rendering => self.kernel_initialization,
            Stage::OutputWrite => self.rendering,
            Stage::Total => 0,
        }
    }

    /// The times with that of one stage replaced.
    pub open spec fn with(&self, stage: Stage, nanos: u128) -> MetricsView {
        match stage {
            Stage::DeviceAcquisition => MetricsView { device_acquisition: nanos, ..*self },
            Stage::SceneUpload => MetricsView { scene_upload: nanos, ..*self },
            Stage::KernelInitialization => MetricsView { kernel_initialization: nanos, ..*self },
            Stage::Rendering => MetricsView { rendering: nanos, ..*self },
            Stage::OutputWrite => MetricsView { output_write: nanos, ..*self },
            Stage::Total => MetricsView { total: nanos, ..*self },
        }
    }

    /// The time recorded for a stage.
    pub open spec fn of(&self, stage: Stage) -> u128 {
        match stage {
            Stage::DeviceAcquisition => self.device_acquisition,
            Stage::SceneUpload => self.scene_upload,
            Stage::KernelInitialization => self.kernel_initialization,
            Stage::Rendering => self.rendering,
            Stage::OutputWrite => self.output_write,
            Stage::Total => self.total,
        }
    }

    /// The times after a stage was recorded at the clock's reading
    /// `elapsed`: the stage gets the reading less its deduction. A reading
    /// below the deduction changes nothing.
    pub open spec fn recorded(&self, stage: Stage, elapsed: u128) -> MetricsView {
        if elapsed >= self.deduction(stage) {
            self.with(stage, (elapsed - self.deduction(stage)) as u128)
        } else {
            *self
        }
    }
}

/// The stopwatch of a render.
pub struct Metrics {
    start: Instant,
    device_acquisition: u128,
    scene_upload: u128,
    kernel_initialization: u128,
    rendering: u128,
    output_write: u128,
    total: u128,
}

impl View for Metrics {
    type V = MetricsView;

    closed spec fn view(&self) -> MetricsView {
        MetricsView {
            device_acquisition: self.device_acquisition,
            scene_upload: self.scene_upload,
            kernel_initialization: self.kernel_initialization,
            rendering: self.rendering,
            output_write: self.output_write,
            total: self.total,
        }
    }
}

impl Metrics {
    /// The instant at which the stopwatch was started last.
    pub closed spec fn started_at(&self) -> Instant {
        self.start
    }

    /// A stopwatch that starts now, with no time taken yet.
    pub fn new() -> (metrics: Metrics)
        ensures
            metrics@ == MetricsView::zero(),
    {
        Metrics {
            start: Instant::now(),
            device_acquisition: 0,
            scene_upload: 0,
            kernel_initialization: 0,
            rendering: 0,
            output_write: 0,
            total: 0,
        }
    }

    /// Starts the stopwatch anew. The times taken stay. The new start is
    /// the clock's reading, of which nothing can be promised.
    pub fn start(&mut self)
        ensures
            final(self)@ == old(self)@,
    {
        self.start = Instant::now();
    }

    /// The nanoseconds since the stopwatch was started. This is the clock's
    /// reading: nothing can be promised of it, and `record` is verified for
    /// every value of it.
    pub fn elapsed(&self) -> (nanos: u128) {
        let elapsed = self.start.elapsed();
        elapsed.as_nanos()
    }

    /// The time taken for a stage, in nanoseconds.
    pub fn time_of(&self, stage: Stage) -> (nanos: u128)
        ensures
            nanos == self@.of(stage),
    {
        match stage {
            Stage::DeviceAcquisition => self.device_acquisition,
            Stage::SceneUpload => self.scene_upload,
            Stage::KernelInitialization => self.kernel_initialization,
            Stage::Rendering => self.rendering,
            Stage::OutputWrite => self.output_write,
            Stage::Total => self.total,
        }
    }

    /// Records a stage at the clock's reading `elapsed`.
    pub fn record(&mut self, stage: Stage, elapsed: u128)
        ensures
            final(self)@ == old(self)@.recorded(stage, elapsed),
            final(self).started_at() == old(self).started_at(),
    {
        let deduction = match stage {
            Stage::DeviceAcquisition => 0,
            Stage::SceneUpload => self.device_acquisition,
            Stage::KernelInitialization => self.scene_upload,
            Stage::Rendering => self.kernel_initialization,
            Stage::OutputWrite => self.rendering,
            Stage::Total => 0,
        };
        if elapsed >= deduction {
            let nanos = elapsed - deduction;
            match stage {
                Stage::DeviceAcquisition => {
                    self.device_acquisition = nanos;
                },
                Stage::SceneUpload => {
                    self.scene_upload = nanos;
                },
                Stage::KernelInitialization => {
                    self.kernel_initialization = nanos;
                },
                Stage::Rendering => {
                    self.rendering = nanos;
                },
                Stage::OutputWrite => {
                    self.output_write = nanos;
                },
                Stage::Total => {
                    self.total = nanos;
                },
            }
        }
    }

    /// Takes the time up to the acquisition of the device.
    pub fn capture_device_acquisition(&mut self)
        ensures
            exists|elapsed: u128|
                final(self)@ == old(self)@.recorded(Stage::DeviceAcquisition, elapsed),
            final(self).started_at() == old(self).started_at(),
    {
        let elapsed = self.elapsed();
        self.record(Stage::DeviceAcquisition, elapsed);
    }

    /// Takes the time of the upload of the scene.
    pub fn capture_scene_upload(&mut self)
        ensures
            exists|elapsed: u128| final(self)@ == old(self)@.recorded(Stage::SceneUpload, elapsed),
            final(self).started_at() == old(self).started_at(),
    {
        let elapsed = self.elapsed();
        self.record(Stage::SceneUpload, elapsed);
    }

    /// Takes the time of the set-up of the kernel.
    pub fn capture_kernel_initialization(&mut self)
        ensures
            exists|elapsed: u128|
                final(self)@ == old(self)@.recorded(Stage::KernelInitialization, elapsed),
            final(self).started_at() == old(self).started_at(),
    {
        let elapsed = self.elapsed();
        self.record(Stage::KernelInitialization, elapsed);
    }

    /// Takes the time of the rendering.
    pub fn capture_rendering(&mut self)
        ensures
            exists|elapsed: u128| final(self)@ == old(self)@.recorded(Stage::Rendering, elapsed),
            final(self).started_at() == old(self).started_at(),
    {
        let elapsed = self.elapsed();
        self.record(Stage::Rendering, elapsed);
    }

    /// Takes the time of the writing of the output.
    pub fn capture_output_write(&mut self)
        ensures
            exists|elapsed: u128| final(self)@ == old(self)@.recorded(Stage::OutputWrite, elapsed),
            final(self).started_at() == old(self).started_at(),
    {
        let elapsed = self.elapsed();
        self.record(Stage::OutputWrite, elapsed);
    }

    /// Takes the time of the whole render.
    pub fn capture_total(&mut self)
        ensures
            exists|elapsed: u128| final(self)@ == old(self)@.recorded(Stage::Total, elapsed),
            final(self).started_at() == old(self).started_at(),
    {
        let elapsed = self.elapsed();
        self.record(Stage::Total, elapsed);
    }
}

} // verus!
