use webray::config::{RenderConfig, TileSize};
use webray::error::{ConfigError, FatalError, RenderError};
use webray::kernel::{Action, CopyLayout, Event, Kernel, Phase};
use webray::tiles::{tiles, Tile};

fn settings(width: u32, height: u32, tile_size: TileSize) -> RenderConfig {
    RenderConfig { width, height, samples: 4, bounces: 2, tile_size }
}

/// What a stand-in for the device does when the mapping is awaited.
#[derive(Clone, Copy, PartialEq)]
enum Mapping {
    Succeeds,
    Fails,
    IsShort,
}

/// Runs a render against a stand-in for the device and notes what it was asked to do.
fn drive(kernel: &mut Kernel, mapping: Mapping, log: &mut Vec<Action>) {
    let mut next_submission = 100u64;
    let mut steps = 0;
    while !kernel.is_finished() {
        steps += 1;
        assert!(steps < 10_000);
        let action = kernel.pending();
        log.push(action);
        let event = match action {
            Action::DispatchTile(_) | Action::CopyOutput(_) => {
                next_submission += 1;
                Event::Submitted(next_submission)
            }
            Action::WaitFor { submission } => {
                assert_eq!(submission, next_submission);
                Event::Completed(submission)
            }
            Action::RequestMap => Event::MapRequested,
            Action::AwaitMap { len } => match mapping {
                Mapping::Succeeds => Event::Mapped(vec![7u8; len]),
                Mapping::Fails => Event::MapFailed,
                Mapping::IsShort => Event::Mapped(vec![7u8; len - 1]),
            },
            Action::Unmap => Event::Unmapped,
            Action::Succeed | Action::Fail(_) | Action::Abort(_) => unreachable!(),
        };
        kernel.advance(event);
    }
    log.push(kernel.pending());
}

#[test]
fn two_spheres_on_a_64_by_64_image_in_one_tile() {
    let mut kernel = Kernel::new(settings(64, 64, TileSize::Full)).unwrap();
    assert_eq!(kernel.pixel_bytes(), 16384);
    let mut log = Vec::new();
    drive(&mut kernel, Mapping::Succeeds, &mut log);
    assert_eq!(
        log,
        vec![
            Action::DispatchTile(Tile { x: 0, y: 0, width: 64, height: 64 }),
            Action::WaitFor { submission: 101 },
            Action::CopyOutput(CopyLayout {
                width: 64,
                height: 64,
                bytes_per_row: 256,
                rows_per_image: 64,
            }),
            Action::RequestMap,
            Action::WaitFor { submission: 102 },
            Action::AwaitMap { len: 16384 },
            Action::Unmap,
            Action::Succeed,
        ]
    );
    assert_eq!(kernel.current_phase(), Phase::Done);
    let pixels = kernel.into_result().unwrap().unwrap();
    assert_eq!(pixels.len(), 16384);
    assert_eq!(pixels, vec![7u8; 16384]);
}

#[test]
fn failed_mapping_gives_the_readback_error_and_no_second_try() {
    let mut kernel = Kernel::new(settings(64, 64, TileSize::Tile(32))).unwrap();
    let mut log = Vec::new();
    drive(&mut kernel, Mapping::Fails, &mut log);
    assert_eq!(kernel.current_phase(), Phase::Failed(RenderError::Readback));
    assert_eq!(log.last(), Some(&Action::Fail(RenderError::Readback)));
    let dispatches = log.iter().filter(|a| matches!(a, Action::DispatchTile(_))).count();
    let copies = log.iter().filter(|a| matches!(a, Action::CopyOutput(_))).count();
    let requests = log.iter().filter(|a| matches!(a, Action::RequestMap)).count();
    let unmaps = log.iter().filter(|a| matches!(a, Action::Unmap)).count();
    assert_eq!((dispatches, copies, requests, unmaps), (4, 1, 1, 0));
    for event in [
        Event::Submitted(1),
        Event::Completed(1),
        Event::TimedOut,
        Event::MapRequested,
        Event::Mapped(vec![0u8; 16384]),
        Event::MapFailed,
        Event::Unmapped,
    ] {
        kernel.advance(event);
        assert_eq!(kernel.current_phase(), Phase::Failed(RenderError::Readback));
        assert_eq!(kernel.pending(), Action::Fail(RenderError::Readback));
        assert!(kernel.is_finished());
    }
    assert_eq!(kernel.into_result(), Some(Err(RenderError::Readback)));
}

#[test]
fn mapping_of_the_wrong_length_is_a_readback_error() {
    let mut kernel = Kernel::new(settings(8, 8, TileSize::Full)).unwrap();
    let mut log = Vec::new();
    drive(&mut kernel, Mapping::IsShort, &mut log);
    assert_eq!(kernel.into_result(), Some(Err(RenderError::Readback)));
}

#[test]
fn tiles_are_dispatched_one_after_the_other_in_order() {
    let config = settings(1920, 1080, TileSize::Tile(256));
    let mut kernel = Kernel::new(config).unwrap();
    let mut log = Vec::new();
    drive(&mut kernel, Mapping::Succeeds, &mut log);
    let expected = tiles(1920, 1080, TileSize::Tile(256));
    assert_eq!(expected.len(), 40);
    for (k, tile) in expected.iter().enumerate() {
        assert_eq!(log[2 * k], Action::DispatchTile(*tile));
        assert_eq!(log[2 * k + 1], Action::WaitFor { submission: 101 + k as u64 });
    }
    assert_eq!(
        log[80],
        Action::CopyOutput(CopyLayout {
            width: 1920,
            height: 1080,
            bytes_per_row: 7680,
            rows_per_image: 1080,
        })
    );
    assert_eq!(log.len(), 86);
    assert_eq!(kernel.into_result().unwrap().unwrap().len(), 1920 * 1080 * 4);
}

#[test]
fn timeout_is_never_success() {
    let mut kernel = Kernel::new(settings(4, 4, TileSize::Tile(2))).unwrap();
    kernel.advance(Event::Submitted(9));
    assert_eq!(kernel.current_phase(), Phase::TileInFlight { x: 0, y: 0, submission: 9 });
    kernel.advance(Event::TimedOut);
    assert_eq!(kernel.current_phase(), Phase::Aborted(FatalError::WaitTimedOut));
    assert_eq!(kernel.pending(), Action::Abort(FatalError::WaitTimedOut));
    assert!(kernel.is_finished());
    kernel.advance(Event::Completed(9));
    assert_eq!(kernel.current_phase(), Phase::Aborted(FatalError::WaitTimedOut));
    assert_eq!(kernel.into_result(), None);

    let mut kernel = Kernel::new(settings(4, 4, TileSize::Full)).unwrap();
    kernel.advance(Event::Submitted(1));
    kernel.advance(Event::Completed(1));
    kernel.advance(Event::Submitted(2));
    kernel.advance(Event::MapRequested);
    assert_eq!(kernel.current_phase(), Phase::CopyInFlight { submission: 2 });
    kernel.advance(Event::TimedOut);
    assert_eq!(kernel.current_phase(), Phase::Aborted(FatalError::WaitTimedOut));
}

#[test]
fn wait_is_keyed_to_the_submission() {
    let mut kernel = Kernel::new(settings(4, 4, TileSize::Tile(2))).unwrap();
    kernel.advance(Event::Submitted(9));
    kernel.advance(Event::Completed(8));
    assert_eq!(kernel.current_phase(), Phase::TileInFlight { x: 0, y: 0, submission: 9 });
    assert_eq!(kernel.pending(), Action::WaitFor { submission: 9 });
    kernel.advance(Event::Completed(9));
    assert_eq!(kernel.current_phase(), Phase::Dispatch { x: 0, y: 1 });
    assert_eq!(
        kernel.pending(),
        Action::DispatchTile(Tile { x: 0, y: 2, width: 2, height: 2 })
    );
}

#[test]
fn event_out_of_turn_aborts() {
    let mut kernel = Kernel::new(settings(4, 4, TileSize::Full)).unwrap();
    kernel.advance(Event::Completed(1));
    assert_eq!(kernel.current_phase(), Phase::Aborted(FatalError::ProtocolViolation));
    let mut kernel = Kernel::new(settings(4, 4, TileSize::Full)).unwrap();
    kernel.advance(Event::Submitted(1));
    kernel.advance(Event::Mapped(vec![0u8; 64]));
    assert_eq!(kernel.current_phase(), Phase::Aborted(FatalError::ProtocolViolation));
    assert_eq!(kernel.into_result(), None);
}

#[test]
fn running_render_has_no_result() {
    let kernel = Kernel::new(settings(4, 4, TileSize::Full)).unwrap();
    assert_eq!(kernel.current_phase(), Phase::Dispatch { x: 0, y: 0 });
    assert!(!kernel.is_finished());
    assert_eq!(kernel.settings(), settings(4, 4, TileSize::Full));
    assert_eq!(kernel.into_result(), None);
}

#[test]
fn invalid_settings_start_no_render() {
    assert_eq!(
        Kernel::new(settings(0, 4, TileSize::Full)).err(),
        Some(ConfigError::EmptyImage)
    );
    assert_eq!(
        Kernel::new(settings(4, 0, TileSize::Full)).err(),
        Some(ConfigError::EmptyImage)
    );
    assert_eq!(
        Kernel::new(settings(4, 4, TileSize::Tile(0))).err(),
        Some(ConfigError::ZeroTileSize)
    );
    assert_eq!(
        Kernel::new(settings(u32::MAX, 4, TileSize::Full)).err(),
        Some(ConfigError::ImageTooLarge)
    );
    assert_eq!(
        Kernel::new(settings(0, 0, TileSize::Tile(0))).err(),
        Some(ConfigError::EmptyImage)
    );
}
