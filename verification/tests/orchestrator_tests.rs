use slime_mould::orchestrator::{
    decode, Command, Effect, FramePlan, Key, Orchestrator, Step, Surface, Tick, WindowInput,
};
use slime_mould::params::StaticParams;
use slime_mould::recording::RecordingState;
use slime_mould::registry::{CheckedSource, KernelKind, KernelRegistry, PipelineId, Verdict};
use slime_mould::world::{Bindings, Settle, SwapPolicy};

const SOURCE: &str = "let a : f32 = 42.1234;";
const OTHER_SOURCE: &str = "let a : i32 = 1092;";
const BROKEN: &str = "let a : i32 = 01;";

/// Asks the WGSL front end about `source`.
fn check(source: &str) -> CheckedSource {
    let verdict = match naga::front::wgsl::parse_str(source) {
        Ok(_) => Verdict::Accepted,
        Err(error) => Verdict::Rejected(error.emit_to_string(source)),
    };
    CheckedSource { source: source.to_string(), verdict }
}

fn kernels() -> KernelRegistry {
    KernelRegistry::new(check(SOURCE), check(SOURCE), check(SOURCE)).unwrap()
}

fn session(policy: SwapPolicy, stride: u64, recording: RecordingState) -> Orchestrator {
    let params = StaticParams::new(64, 32, 640).unwrap();
    Orchestrator::new(params, policy, stride, kernels(), recording).unwrap()
}

fn presented(tick: Tick) -> FramePlan {
    match tick {
        Tick::Presented(plan) => plan,
        Tick::Skipped => panic!("the frame was skipped"),
    }
}

fn id(kind: KernelKind, generation: u64) -> PipelineId {
    PipelineId { kind, generation }
}

#[test]
fn a_session_with_a_zero_stride_is_turned_down() {
    let params = StaticParams::new(64, 32, 640).unwrap();
    assert!(Orchestrator::new(
        params,
        SwapPolicy::CopyBack,
        0,
        kernels(),
        RecordingState::Off
    )
    .is_none());
}

#[test]
fn a_new_session() {
    let s = session(SwapPolicy::CopyBack, 6, RecordingState::Off);
    assert_eq!(s.recording(), RecordingState::Off);
    assert!(!s.center_bias());
    assert_eq!(s.stride(), 6);
    assert_eq!(s.world().current_index(), 0);
    assert_eq!(s.registry().current_pipeline(KernelKind::Move), id(KernelKind::Move, 0));
    assert!(s.can_tick());
}

#[test]
fn the_steps_of_a_frame_with_copy_back() {
    let mut s = session(SwapPolicy::CopyBack, 6, RecordingState::Off);
    let plan = presented(s.tick(Surface::Acquired));
    assert_eq!(
        plan.steps,
        vec![
            Step::WriteMoveParams { move_to_center: 0 },
            Step::WriteUpdateParams,
            Step::MovePass {
                pipeline: id(KernelKind::Move, 0),
                field: Bindings { read_only: 1, read_write: 0 },
                groups: 10,
            },
            Step::UpdatePass {
                pipeline: id(KernelKind::Update, 0),
                field: Bindings { read_only: 0, read_write: 1 },
                groups_x: 8,
                groups_y: 4,
            },
            Step::ConvertPass {
                pipeline: id(KernelKind::Convert, 0),
                source: 0,
                groups_x: 8,
                groups_y: 4,
            },
            Step::Settle(Settle::Copy { from: 1, to: 0, bytes: 32768 }),
            Step::Render,
            Step::SubmitAndPresent,
        ]
    );
    assert_eq!(plan.capture, None);
}

#[test]
fn the_steps_of_two_frames_with_exchange() {
    let mut s = session(SwapPolicy::ExchangeRoles, 6, RecordingState::Off);
    let first = presented(s.tick(Surface::Acquired));
    assert_eq!(
        first.steps[2],
        Step::MovePass {
            pipeline: id(KernelKind::Move, 0),
            field: Bindings { read_only: 1, read_write: 0 },
            groups: 10,
        }
    );
    assert_eq!(first.steps[5], Step::Settle(Settle::Exchanged));
    assert_eq!(s.world().current_index(), 1);

    let second = presented(s.tick(Surface::Acquired));
    assert_eq!(
        second.steps[2],
        Step::MovePass {
            pipeline: id(KernelKind::Move, 0),
            field: Bindings { read_only: 0, read_write: 1 },
            groups: 10,
        }
    );
    assert_eq!(
        second.steps[3],
        Step::UpdatePass {
            pipeline: id(KernelKind::Update, 0),
            field: Bindings { read_only: 1, read_write: 0 },
            groups_x: 8,
            groups_y: 4,
        }
    );
    assert_eq!(
        second.steps[4],
        Step::ConvertPass {
            pipeline: id(KernelKind::Convert, 0),
            source: 1,
            groups_x: 8,
            groups_y: 4,
        }
    );
    assert_eq!(s.world().current_index(), 0);
}

#[test]
fn n_frames_settle_n_times() {
    for n in 0..20usize {
        let mut s = session(SwapPolicy::ExchangeRoles, 6, RecordingState::Off);
        let mut settles = 0usize;
        for _ in 0..n {
            let plan = presented(s.tick(Surface::Acquired));
            settles += plan
                .steps
                .iter()
                .filter(|step| matches!(step, Step::Settle(_)))
                .count();
        }
        assert_eq!(settles, n);
        assert_eq!(s.world().current_index(), n % 2);
        assert_eq!(s.world().params().num_agents(), 640);
    }
}

#[test]
fn a_frame_without_a_surface_is_skipped() {
    let mut s = session(SwapPolicy::ExchangeRoles, 1, RecordingState::On(7, 3));
    assert_eq!(s.tick(Surface::Unavailable), Tick::Skipped);
    assert_eq!(s.world().current_index(), 0);
    assert_eq!(s.recording(), RecordingState::On(7, 3));
    let plan = presented(s.tick(Surface::Acquired));
    assert_eq!(plan.capture, Some(String::from("videos/video-7/image-3.png")));
    assert_eq!(s.recording(), RecordingState::On(7, 4));
}

#[test]
fn every_sixth_frame_is_captured_while_recording() {
    let mut s = session(SwapPolicy::CopyBack, 6, RecordingState::On(1000, 0));
    let mut captures = Vec::new();
    for frame in 1..=18u32 {
        let plan = presented(s.tick(Surface::Acquired));
        if let Some(path) = plan.capture {
            captures.push((frame, path));
        }
    }
    assert_eq!(
        captures,
        vec![
            (6, String::from("videos/video-1000/image-0.png")),
            (12, String::from("videos/video-1000/image-1.png")),
            (18, String::from("videos/video-1000/image-2.png")),
        ]
    );
    assert_eq!(s.recording(), RecordingState::On(1000, 3));
}

#[test]
fn nothing_is_captured_while_off() {
    let mut s = session(SwapPolicy::CopyBack, 2, RecordingState::Off);
    for _ in 0..10 {
        let plan = presented(s.tick(Surface::Acquired));
        assert_eq!(plan.capture, None);
    }
    assert_eq!(s.recording(), RecordingState::Off);
}

#[test]
fn the_frame_count_goes_on_across_sessions() {
    let mut s = session(SwapPolicy::CopyBack, 3, RecordingState::Off);
    presented(s.tick(Surface::Acquired));
    presented(s.tick(Surface::Acquired));
    assert_eq!(
        s.on_command(Command::ToggleRecording, 50),
        Effect::RecordingStarted(String::from("videos/video-50"))
    );
    let third = presented(s.tick(Surface::Acquired));
    assert_eq!(third.capture, Some(String::from("videos/video-50/image-0.png")));
    let fourth = presented(s.tick(Surface::Acquired));
    assert_eq!(fourth.capture, None);
}

#[test]
fn a_session_at_its_last_index_cannot_capture() {
    let mut s = session(SwapPolicy::CopyBack, 2, RecordingState::On(1, usize::MAX));
    assert!(s.can_tick());
    presented(s.tick(Surface::Acquired));
    assert!(!s.can_tick());
    assert_eq!(s.on_command(Command::ToggleRecording, 9), Effect::RecordingStopped);
    assert!(s.can_tick());
}

#[test]
fn try_tick_does_not_begin_a_frame_that_cannot_be_captured() {
    let mut s = session(SwapPolicy::ExchangeRoles, 2, RecordingState::On(1, usize::MAX));
    let first = s.try_tick(Surface::Acquired).unwrap();
    assert_eq!(presented(first).capture, None);
    assert_eq!(s.world().current_index(), 1);

    assert_eq!(s.try_tick(Surface::Acquired), None);
    assert_eq!(s.world().current_index(), 1);
    assert_eq!(s.recording(), RecordingState::On(1, usize::MAX));
    assert_eq!(s.try_tick(Surface::Unavailable), Some(Tick::Skipped));

    assert_eq!(s.on_command(Command::ToggleRecording, 9), Effect::RecordingStopped);
    let second = s.try_tick(Surface::Acquired).unwrap();
    assert_eq!(presented(second).capture, None);
    assert_eq!(s.world().current_index(), 0);
}

#[test]
fn try_tick_presents_like_tick() {
    let mut a = session(SwapPolicy::CopyBack, 3, RecordingState::On(5, 0));
    let mut b = session(SwapPolicy::CopyBack, 3, RecordingState::On(5, 0));
    for _ in 0..7 {
        assert_eq!(a.try_tick(Surface::Acquired), Some(b.tick(Surface::Acquired)));
    }
    assert_eq!(a.recording(), RecordingState::On(5, 2));
    assert_eq!(b.recording(), RecordingState::On(5, 2));
}

#[test]
fn inputs_decode_to_commands() {
    assert_eq!(decode(WindowInput::CloseRequested), Some(Command::Close));
    assert_eq!(
        decode(WindowInput::Keyboard { key: Key::Escape, pressed: true }),
        Some(Command::Close)
    );
    assert_eq!(
        decode(WindowInput::Keyboard { key: Key::S, pressed: true }),
        Some(Command::SaveImage)
    );
    assert_eq!(
        decode(WindowInput::Keyboard { key: Key::R, pressed: true }),
        Some(Command::ToggleRecording)
    );
    assert_eq!(
        decode(WindowInput::Keyboard { key: Key::Space, pressed: true }),
        Some(Command::Reset)
    );
    assert_eq!(
        decode(WindowInput::Keyboard { key: Key::C, pressed: true }),
        Some(Command::ToggleCenterBias)
    );
    assert_eq!(decode(WindowInput::Keyboard { key: Key::Other, pressed: true }), None);
    assert_eq!(decode(WindowInput::Other), None);
    for key in [Key::Escape, Key::S, Key::R, Key::Space, Key::C, Key::Other] {
        assert_eq!(decode(WindowInput::Keyboard { key, pressed: false }), None);
    }
}

#[test]
fn close_asks_to_exit() {
    let mut s = session(SwapPolicy::CopyBack, 6, RecordingState::On(4, 2));
    assert_eq!(s.on_command(Command::Close, 10), Effect::Exit);
    assert_eq!(s.recording(), RecordingState::On(4, 2));
}

#[test]
fn save_captures_once_whatever_the_session() {
    let mut s = session(SwapPolicy::CopyBack, 6, RecordingState::Off);
    assert_eq!(
        s.on_command(Command::SaveImage, 1700000000123),
        Effect::Capture(String::from("images/image-1700000000123.png"))
    );
    assert_eq!(s.recording(), RecordingState::Off);

    let mut s = session(SwapPolicy::CopyBack, 6, RecordingState::On(4, 2));
    assert_eq!(
        s.on_command(Command::SaveImage, 8),
        Effect::Capture(String::from("images/image-8.png"))
    );
    assert_eq!(s.recording(), RecordingState::On(4, 2));
}

#[test]
fn record_toggles_the_session() {
    let mut s = session(SwapPolicy::CopyBack, 6, RecordingState::Off);
    assert_eq!(
        s.on_command(Command::ToggleRecording, 100),
        Effect::RecordingStarted(String::from("videos/video-100"))
    );
    assert_eq!(s.recording(), RecordingState::On(100, 0));
    assert_eq!(s.on_command(Command::ToggleRecording, 200), Effect::RecordingStopped);
    assert_eq!(s.recording(), RecordingState::Off);
    assert_eq!(
        s.on_command(Command::ToggleRecording, 300),
        Effect::RecordingStarted(String::from("videos/video-300"))
    );
    assert_eq!(s.recording(), RecordingState::On(300, 0));
}

#[test]
fn reset_plans_zeros_and_a_swarm_each_time() {
    let mut s = session(SwapPolicy::ExchangeRoles, 6, RecordingState::On(4, 2));
    presented(s.tick(Surface::Acquired));
    for _ in 0..2 {
        match s.on_command(Command::Reset, 0) {
            Effect::Reset(plan) => {
                assert_eq!(plan.field_bytes, vec![0u8; 32768]);
                assert_eq!(plan.species.len(), 640);
                assert!(plan.species.iter().all(|t| *t < 2));
            }
            other => panic!("unexpected effect {:?}", other),
        }
        assert_eq!(s.recording(), RecordingState::On(4, 2));
        assert_eq!(s.world().current_index(), 1);
    }
}

#[test]
fn the_bias_flag_reaches_the_move_parameters() {
    let mut s = session(SwapPolicy::CopyBack, 6, RecordingState::Off);
    assert_eq!(s.on_command(Command::ToggleCenterBias, 0), Effect::CenterBias(true));
    assert!(s.center_bias());
    let plan = presented(s.tick(Surface::Acquired));
    assert_eq!(plan.steps[0], Step::WriteMoveParams { move_to_center: 1 });
    assert_eq!(s.on_command(Command::ToggleCenterBias, 0), Effect::CenterBias(false));
    let plan = presented(s.tick(Surface::Acquired));
    assert_eq!(plan.steps[0], Step::WriteMoveParams { move_to_center: 0 });
}

#[test]
fn a_broken_kernel_keeps_the_old_pipeline_and_a_mended_one_replaces_it() {
    let mut s = session(SwapPolicy::CopyBack, 6, RecordingState::Off);
    let before = presented(s.tick(Surface::Acquired));

    let error = s.reload(KernelKind::Update, check(BROKEN)).err().unwrap();
    assert_eq!(error.kind, KernelKind::Update);
    assert_eq!(error.source, BROKEN);
    assert!(!error.report.is_empty());
    let during = presented(s.tick(Surface::Acquired));
    assert_eq!(during.steps, before.steps);
    assert_eq!(
        s.registry().current_pipeline(KernelKind::Update),
        id(KernelKind::Update, 0)
    );

    let new = s.reload(KernelKind::Update, check(OTHER_SOURCE)).unwrap();
    assert_eq!(new, id(KernelKind::Update, 1));
    let after = presented(s.tick(Surface::Acquired));
    assert_eq!(
        after.steps[3],
        Step::UpdatePass {
            pipeline: new,
            field: Bindings { read_only: 0, read_write: 1 },
            groups_x: 8,
            groups_y: 4,
        }
    );
    assert_eq!(after.steps[2], before.steps[2]);
    assert_eq!(after.steps[4], before.steps[4]);
    assert_eq!(s.registry().current_source(KernelKind::Update), OTHER_SOURCE);
}
