//! The frame orchestrator: one record of the session's state, and the
//! functions that say what a redraw, a command or a reloaded kernel does to
//! it and asks of the caller.

use vstd::prelude::*;
use crate::clock::lemma_clock_wf;
use crate::clock::lemma_selected_step;
use crate::clock::ClockView;
use crate::clock::FrameClock;
use crate::params::StaticParams;
use crate::params::AGENT_GROUP_SIZE;
use crate::params::FIELD_TILE;
use crate::recording::snapshot_file_path;
use crate::recording::snapshot_path;
use crate::recording::session_dir;
use crate::recording::RecordingModel;
use crate::recording::RecordingState;
use crate::registry::CheckedSource;
use crate::registry::CompileError;
use crate::registry::KernelKind;
use crate::registry::KernelRegistry;
use crate::registry::PipelineId;
use crate::registry::RegistryView;
use crate::world::lemma_swapped_times;
use crate::world::lemma_swapped_wf;
use crate::world::reset_plan_for;
use crate::world::Bindings;
use crate::world::ResetPlan;
use crate::world::Settle;
use crate::world::SwapPolicy;
use crate::world::WorldStore;
use crate::world::WorldView;

verus! {

/// Whether the surface handed out an image to draw the frame on.
#[derive(Clone, Copy, Debug, PartialEq, Eq, Structural)]
pub enum Surface {
    Acquired,
    Unavailable,
}

/// The keys that mean something to the session.
#[derive(Clone, Copy, Debug, PartialEq, Eq, Structural)]
pub enum Key {
    Escape,
    S,
    R,
    Space,
    C,
    Other,
}

/// What the window reports, as far as the session reads it.
#[derive(Clone, Copy, Debug, PartialEq, Eq, Structural)]
pub enum WindowInput {
    CloseRequested,
    Keyboard { key: Key, pressed: bool },
    Other,
}

/// The discrete commands of a session.
#[derive(Clone, Copy, Debug, PartialEq, Eq, Structural)]
pub enum Command {
    /// End the loop.
    Close,
    /// Capture the current image once.
    SaveImage,
    /// Start a recording session, or end the one that runs.
    ToggleRecording,
    /// Put agents and field back to an initial distribution.
    Reset,
    /// Switch the pull towards the centre on or off.
    ToggleCenterBias,
}

/// The command that an input stands for: a close request or Escape closes,
/// and S, R, Space and C, when pressed, save, record, reset and switch the
/// bias. A key that is released, and anything else, is no command.
pub open spec fn command_of(input: WindowInput) -> Option<Command> {
    match input {
        WindowInput::CloseRequested => Some(Command::Close),
        WindowInput::Keyboard { key: Key::Escape, pressed: true } => Some(Command::Close),
        WindowInput::Keyboard { key: Key::S, pressed: true } => Some(Command::SaveImage),
        WindowInput::Keyboard { key: Key::R, pressed: true } => Some(Command::ToggleRecording),
        WindowInput::Keyboard { key: Key::Space, pressed: true } => Some(Command::Reset),
        WindowInput::Keyboard { key: Key::C, pressed: true } => Some(Command::ToggleCenterBias),
        _ => None,
    }
}

/// Decodes an input of the window into a command.
pub fn decode(input: WindowInput) -> (command: Option<Command>)
    ensures
        command == command_of(input),
{
    match input {
        WindowInput::CloseRequested => Some(Command::Close),
        WindowInput::Keyboard { key, pressed } => {
            if !pressed {
                None
            } else {
                match key {
                    Key::Escape => Some(Command::Close),
                    Key::S => Some(Command::SaveImage),
                    Key::R => Some(Command::ToggleRecording),
                    Key::Space => Some(Command::Reset),
                    Key::C => Some(Command::ToggleCenterBias),
                    Key::Other => None,
                }
            }
        },
        WindowInput::Other => None,
    }
}

/// One step of a frame. The caller carries the steps out in the order in
/// which a plan lists them, all compute and render work in one submission.
#[derive(Clone, Copy, Debug, PartialEq, Eq, Structural)]
pub enum Step {
    /// Write the move pass's per-frame parameters: the elapsed time, a random
    /// number, and this flag.
    WriteMoveParams { move_to_center: u32 },
    /// Write the update pass's per-frame parameters: the elapsed time.
    WriteUpdateParams,
    /// Dispatch the move pass over `groups` work groups.
    MovePass { pipeline: PipelineId, field: Bindings, groups: u32 },
    /// Dispatch the update pass over `groups_x` by `groups_y` work groups.
    UpdatePass { pipeline: PipelineId, field: Bindings, groups_x: u32, groups_y: u32 },
    /// Dispatch the conversion pass, which reads field buffer `source`, over
    /// `groups_x` by `groups_y` work groups.
    ConvertPass { pipeline: PipelineId, source: usize, groups_x: u32, groups_y: u32 },
    /// Settle the frame.
    Settle(Settle),
    /// Draw the displayable texture to the surface image.
    Render,
    /// Submit everything above as one unit and present the image.
    SubmitAndPresent,
}

/// What a presented frame asks of the caller.
#[derive(Debug, PartialEq, Eq)]
pub struct FramePlan {
    /// The steps, in order.
    pub steps: Vec<Step>,
    /// After the steps: the file to capture the frame to, if it was selected
    /// while a recording runs.
    pub capture: Option<String>,
}

/// Mathematical content of a [`FramePlan`].
pub struct FramePlanView {
    pub steps: Seq<Step>,
    pub capture: Option<Seq<char>>,
}

impl View for FramePlan {
    type V = FramePlanView;

    open spec fn view(&self) -> FramePlanView {
        FramePlanView {
            steps: self.steps@,
            capture: match self.capture {
                Some(path) => Some(path@),
                None => None,
            },
        }
    }
}

/// Outcome of a redraw.
#[derive(Debug, PartialEq, Eq)]
pub enum Tick {
    /// No surface image could be had: nothing was done and nothing changed.
    /// The next redraw tries again.
    Skipped,
    /// The frame goes ahead as planned.
    Presented(FramePlan),
}

/// What a command asks of the caller.
#[derive(Debug, PartialEq, Eq)]
pub enum Effect {
    /// Leave the loop.
    Exit,
    /// Capture the current image to this file.
    Capture(String),
    /// A session started: make this directory for its frames.
    RecordingStarted(String),
    /// The session ended.
    RecordingStopped,
    /// Write this plan to the device.
    Reset(ResetPlan),
    /// The bias is now as given.
    CenterBias(bool),
}

/// What can happen to a session between two moments of its life.
pub enum SessionInput {
    /// A redraw for which a surface image was had.
    Frame,
    /// A redraw for which none was had.
    SkippedFrame,
    /// A command, given at `now`.
    Command { command: Command, now: nat },
    /// A changed source for `kind`, which the front end accepted or turned
    /// down.
    Reload { kind: KernelKind, source: Seq<char>, accepted: bool },
}

/// Mathematical content of an [`Orchestrator`].
pub struct SessionView {
    pub world: WorldView,
    pub clock: ClockView,
    pub registry: RegistryView,
    pub recording: RecordingModel,
    pub center_bias: bool,
}

impl SessionView {
    /// The field store and the frame clock are well formed.
    pub open spec fn wf(self) -> bool {
        &&& self.world.wf()
        &&& self.clock.wf()
    }

    /// The steps of the next frame: parameters before the passes that read
    /// them; the move pass on the inverted pair, the update pass on the
    /// forward pair, the conversion pass on the settled buffer; then the
    /// settling, the render pass, and submission.
    pub open spec fn frame_steps(self) -> Seq<Step> {
        let params = self.world.params;
        let groups_x = (params.width / (FIELD_TILE as nat)) as u32;
        let groups_y = (params.height / (FIELD_TILE as nat)) as u32;
        seq![
            Step::WriteMoveParams {
                move_to_center: if self.center_bias {
                    1u32
                } else {
                    0u32
                },
            },
            Step::WriteUpdateParams,
            Step::MovePass {
                pipeline: self.registry.pipeline(KernelKind::Move),
                field: self.world.inverted(),
                groups: (params.num_agents / (AGENT_GROUP_SIZE as nat)) as u32,
            },
            Step::UpdatePass {
                pipeline: self.registry.pipeline(KernelKind::Update),
                field: self.world.forward(),
                groups_x,
                groups_y,
            },
            Step::ConvertPass {
                pipeline: self.registry.pipeline(KernelKind::Convert),
                source: self.world.current as usize,
                groups_x,
                groups_y,
            },
            Step::Settle(self.world.settle_action()),
            Step::Render,
            Step::SubmitAndPresent,
        ]
    }

    /// The file that the next frame is captured to: that of the running
    /// session's next index, if the frame is selected for capture.
    pub open spec fn capture_target(self) -> Option<Seq<char>> {
        if self.clock.capture_due() {
            self.recording.capture_target()
        } else {
            None
        }
    }

    /// The plan of the next frame.
    pub open spec fn frame_plan(self) -> FramePlanView {
        FramePlanView { steps: self.frame_steps(), capture: self.capture_target() }
    }

    /// The session after the next frame was presented: the field has settled
    /// once more, the frame is counted, and the recording has moved on if the
    /// frame was selected for capture.
    pub open spec fn ticked(self) -> SessionView {
        SessionView {
            world: self.world.swapped(),
            clock: self.clock.advanced(),
            recording: if self.clock.capture_due() {
                self.recording.captured()
            } else {
                self.recording
            },
            ..self
        }
    }

    /// The session after `n` frames were presented.
    pub open spec fn ticked_times(self, n: nat) -> SessionView
        decreases n,
    {
        if n == 0 {
            self
        } else {
            self.ticked_times((n - 1) as nat).ticked()
        }
    }

    /// Whether the next frame can be presented: if it is captured, the index
    /// after its own can still be written down.
    pub open spec fn can_tick(self) -> bool {
        self.clock.capture_due() ==> (self.recording matches RecordingModel::On { next_index, .. }
            ==> next_index < usize::MAX)
    }

    /// The session after a command given at `now`.
    pub open spec fn commanded(self, command: Command, now: nat) -> SessionView {
        match command {
            Command::ToggleRecording => SessionView {
                recording: self.recording.toggled(now),
                ..self
            },
            Command::ToggleCenterBias => SessionView { center_bias: !self.center_bias, ..self },
            _ => self,
        }
    }

    /// The session after a load of `source` for `kind` that the front end
    /// accepted or turned down.
    pub open spec fn reloaded(self, kind: KernelKind, source: Seq<char>, accepted: bool) -> SessionView {
        SessionView { registry: self.registry.loaded(kind, source, accepted), ..self }
    }

    /// One input applied.
    pub open spec fn step(self, input: SessionInput) -> SessionView {
        match input {
            SessionInput::Frame => self.ticked(),
            SessionInput::SkippedFrame => self,
            SessionInput::Command { command, now } => self.commanded(command, now),
            SessionInput::Reload { kind, source, accepted } => self.reloaded(kind, source, accepted),
        }
    }

    /// A sequence of inputs applied in order.
    pub open spec fn run(self, inputs: Seq<SessionInput>) -> SessionView
        decreases inputs.len(),
    {
        if inputs.len() == 0 {
            self
        } else {
            self.run(inputs.drop_last()).step(inputs.last())
        }
    }
}

/// The number of presented frames among `inputs`.
pub open spec fn frames_in(inputs: Seq<SessionInput>) -> nat
    decreases inputs.len(),
{
    if inputs.len() == 0 {
        0
    } else {
        frames_in(inputs.drop_last()) + if inputs.last() is Frame {
            1nat
        } else {
            0nat
        }
    }
}

/// Whether one of `inputs` is the record command.
pub open spec fn toggles_recording(inputs: Seq<SessionInput>) -> bool {
    exists|k: int|
        0 <= k < inputs.len() && #[trigger] inputs[k] matches SessionInput::Command {
            command: Command::ToggleRecording,
            ..
        }
}

/// After `n` presented frames the field has settled exactly `n` more times
/// and `n` more frames are counted; dimensions, agent count, swap policy,
/// kernels and bias are what they were.
pub proof fn lemma_ticks_settle(s: SessionView, n: nat)
    requires
        s.wf(),
    ensures
        s.ticked_times(n).wf(),
        s.ticked_times(n).world == s.world.swapped_times(n),
        s.ticked_times(n).world.settled == s.world.settled + n,
        s.ticked_times(n).clock.frames == s.clock.frames + n,
        s.ticked_times(n).clock.stride == s.clock.stride,
        s.ticked_times(n).world.params == s.world.params,
        s.ticked_times(n).world.policy == s.world.policy,
        s.ticked_times(n).registry == s.registry,
        s.ticked_times(n).center_bias == s.center_bias,
    decreases n,
{
    if n > 0 {
        lemma_ticks_settle(s, (n - 1) as nat);
        lemma_swapped_wf(s.ticked_times((n - 1) as nat).world);
    }
}

/// While a recording runs, presented frames move its index on by exactly the
/// number of frames selected for capture among them, and leave its start
/// alone; while none runs, they start none.
pub proof fn lemma_ticks_capture(s: SessionView, n: nat)
    requires
        s.wf(),
    ensures
        s.recording is Off ==> s.ticked_times(n).recording is Off,
        s.recording matches RecordingModel::On { started, next_index } ==> s.ticked_times(
            n,
        ).recording == (RecordingModel::On {
            started,
            next_index: (next_index + s.ticked_times(n).clock.selected() - s.clock.selected()) as nat,
        }),
        s.ticked_times(n).clock.selected() >= s.clock.selected(),
    decreases n,
{
    if n > 0 {
        let m = (n - 1) as nat;
        lemma_ticks_capture(s, m);
        lemma_ticks_settle(s, m);
        lemma_selected_step(s.ticked_times(m).clock);
    }
}

/// No command touches the field's roles, the dimensions, the agent count,
/// the frame count or the kernels, and only the record command touches the
/// recording.
pub proof fn lemma_commands_keep_world(s: SessionView, command: Command, now: nat)
    ensures
        s.commanded(command, now).world == s.world,
        s.commanded(command, now).clock == s.clock,
        s.commanded(command, now).registry == s.registry,
        command != Command::ToggleRecording ==> s.commanded(command, now).recording == s.recording,
{
}

/// Whatever happens to a session, in whatever order: the field has settled
/// once for every presented frame and for nothing else, every presented
/// frame is counted, and dimensions, agent count, swap policy and capture
/// stride stay what they were. Skipped frames, commands (a reset among them)
/// and reloads settle nothing.
pub proof fn lemma_run_settles(s: SessionView, inputs: Seq<SessionInput>)
    requires
        s.wf(),
    ensures
        s.run(inputs).wf(),
        s.run(inputs).world == s.world.swapped_times(frames_in(inputs)),
        s.run(inputs).world.settled == s.world.settled + frames_in(inputs),
        s.run(inputs).clock.frames == s.clock.frames + frames_in(inputs),
        s.run(inputs).clock.stride == s.clock.stride,
        s.run(inputs).world.params == s.world.params,
        s.run(inputs).world.policy == s.world.policy,
    decreases inputs.len(),
{
    if inputs.len() > 0 {
        let before = s.run(inputs.drop_last());
        lemma_run_settles(s, inputs.drop_last());
        lemma_swapped_wf(before.world);
        lemma_swapped_times(s.world, frames_in(inputs.drop_last()));
    }
}

/// As long as the record command is not given, a running recording keeps its
/// start and its index never goes down, whatever else happens; and a
/// recording that is off stays off.
pub proof fn lemma_run_recording(s: SessionView, inputs: Seq<SessionInput>)
    requires
        s.wf(),
        !toggles_recording(inputs),
    ensures
        s.recording is Off ==> s.run(inputs).recording is Off,
        s.recording matches RecordingModel::On { started, next_index } ==> s.run(
            inputs,
        ).recording is On && s.run(inputs).recording->started == started && s.run(
            inputs,
        ).recording->next_index >= next_index,
    decreases inputs.len(),
{
    if inputs.len() > 0 {
        let shorter = inputs.drop_last();
        assert(!toggles_recording(shorter)) by {
            assert forall|k: int| 0 <= k < shorter.len() implies shorter[k] == inputs[k] by {}
        }
        lemma_run_recording(s, shorter);
    }
}

/// The order of a frame: both parameter writes come before the passes, the
/// passes run move, update, convert, and the settling, the render pass and
/// the submission follow in that order.
pub proof fn lemma_frame_order(s: SessionView)
    ensures
        s.frame_steps().len() == 8,
        s.frame_steps()[0] is WriteMoveParams,
        s.frame_steps()[1] is WriteUpdateParams,
        s.frame_steps()[2] is MovePass,
        s.frame_steps()[3] is UpdatePass,
        s.frame_steps()[4] is ConvertPass,
        s.frame_steps()[5] is Settle,
        s.frame_steps()[6] is Render,
        s.frame_steps()[7] is SubmitAndPresent,
{
}

/// Within a frame each direction binds two different buffers, the update
/// pass writes the scratch buffer, and the conversion pass reads the settled
/// one: what is displayed is never a buffer that the update pass is writing.
/// Where settling copies, it copies what the update pass wrote over what the
/// conversion pass read.
pub proof fn lemma_frame_reads_settled(s: SessionView)
    requires
        s.wf(),
    ensures
        s.frame_steps()[2] matches Step::MovePass { field, .. } && field.read_only
            == s.world.next() && field.read_write == s.world.current,
        s.frame_steps()[3] matches Step::UpdatePass { field, .. } && field.read_only
            == s.world.current && field.read_write == s.world.next(),
        s.frame_steps()[4] matches Step::ConvertPass { source, .. } && source == s.world.current,
        s.world.current != s.world.next(),
        s.frame_steps()[5] matches Step::Settle(Settle::Copy { from, to, .. }) ==> from
            == s.world.next() && to == s.world.current,
{
}

/// The single record of a session: field roles, frame count, kernels,
/// recording and mode flag.
pub struct Orchestrator {
    world: WorldStore,
    clock: FrameClock,
    registry: KernelRegistry,
    recording: RecordingState,
    center_bias: bool,
}

impl View for Orchestrator {
    type V = SessionView;

    closed spec fn view(&self) -> SessionView {
        SessionView {
            world: self.world@,
            clock: self.clock@,
            registry: self.registry@,
            recording: self.recording@,
            center_bias: self.center_bias,
        }
    }
}

impl Orchestrator {
    /// A session at its first frame: buffer 0 settled, no frame counted, the
    /// bias off. A capture stride of 0 is turned down.
    pub fn new(
        params: StaticParams,
        policy: SwapPolicy,
        stride: u64,
        registry: KernelRegistry,
        recording: RecordingState,
    ) -> (r: Option<Orchestrator>)
        ensures
            match r {
                Some(session) => {
                    &&& stride > 0
                    &&& session@ == (SessionView {
                        world: WorldView { params: params@, policy, current: 0, settled: 0 },
                        clock: ClockView { stride: stride as nat, frames: 0 },
                        registry: registry@,
                        recording: recording@,
                        center_bias: false,
                    })
                    &&& session@.wf()
                },
                None => stride == 0,
            },
    {
        match FrameClock::new(stride) {
            Some(clock) => Some(
                Orchestrator {
                    world: WorldStore::new(params, policy),
                    clock,
                    registry,
                    recording,
                    center_bias: false,
                },
            ),
            None => None,
        }
    }

    /// The field store.
    pub fn world(&self) -> (w: &WorldStore)
        ensures
            w@ == self@.world,
    {
        &self.world
    }

    /// The kernel registry.
    pub fn registry(&self) -> (r: &KernelRegistry)
        ensures
            r@ == self@.registry,
    {
        &self.registry
    }

    /// The recording session.
    pub fn recording(&self) -> (r: RecordingState)
        ensures
            r@ == self@.recording,
    {
        self.recording
    }

    /// Whether agents are pulled towards the centre.
    pub fn center_bias(&self) -> (b: bool)
        ensures
            b == self@.center_bias,
    {
        self.center_bias
    }

    /// The capture stride.
    pub fn stride(&self) -> (n: u64)
        ensures
            n == self@.clock.stride,
    {
        self.clock.stride()
    }

    /// Whether the next frame can be presented.
    pub fn can_tick(&self) -> (b: bool)
        ensures
            b == self@.can_tick(),
    {
        if self.clock.capture_due() {
            match self.recording {
                RecordingState::Off => true,
                RecordingState::On(_, index) => index < usize::MAX,
            }
        } else {
            true
        }
    }

    /// One redraw. Without a surface image the frame is skipped and nothing
    /// changes. With one, the frame is planned from the state as it stands:
    /// the plan names the pipelines that are live now, so a kernel that is
    /// reloaded later is first seen by the frame after. The field then
    /// settles, the frame is counted, and a frame selected for capture moves
    /// a running recording on.
    pub fn tick(&mut self, surface: Surface) -> (out: Tick)
        requires
            surface is Acquired ==> old(self)@.can_tick(),
        ensures
            final(self)@.wf(),
            match surface {
                Surface::Unavailable => out is Skipped && final(self)@ == old(self)@,
                Surface::Acquired => {
                    &&& out matches Tick::Presented(plan) && plan@ == old(self)@.frame_plan()
                    &&& final(self)@ == old(self)@.ticked()
                },
            },
    {
        proof {
            use_type_invariant(&self.world);
            use_type_invariant(&self.clock);
            lemma_clock_wf(self.clock);
        }
        match surface {
            Surface::Unavailable => Tick::Skipped,
            Surface::Acquired => {
                let params = self.world.params();
                let groups_x = params.tiles_x();
                let groups_y = params.tiles_y();
                let mut steps: Vec<Step> = Vec::new();
                steps.push(
                    Step::WriteMoveParams {
                        move_to_center: if self.center_bias {
                            1
                        } else {
                            0
                        },
                    },
                );
                steps.push(Step::WriteUpdateParams);
                steps.push(
                    Step::MovePass {
                        pipeline: self.registry.current_pipeline(KernelKind::Move),
                        field: self.world.inverted(),
                        groups: params.agent_groups(),
                    },
                );
                steps.push(
                    Step::UpdatePass {
                        pipeline: self.registry.current_pipeline(KernelKind::Update),
                        field: self.world.forward(),
                        groups_x,
                        groups_y,
                    },
                );
                steps.push(
                    Step::ConvertPass {
                        pipeline: self.registry.current_pipeline(KernelKind::Convert),
                        source: self.world.current_index(),
                        groups_x,
                        groups_y,
                    },
                );
                let action = self.world.swap();
                steps.push(Step::Settle(action));
                steps.push(Step::Render);
                steps.push(Step::SubmitAndPresent);
                assert(steps@ =~= old(self)@.frame_steps());
                let due = self.clock.advance();
                let capture = if due {
                    let (recording, target) = self.recording.capture();
                    self.recording = recording;
                    target
                } else {
                    None
                };
                Tick::Presented(FramePlan { steps, capture })
            },
        }
    }

    /// One redraw, if the frame can be presented: as [`Orchestrator::tick`],
    /// but a frame that would be captured under an index without a successor
    /// is not begun, and `None` says so. Nothing changes then.
    pub fn try_tick(&mut self, surface: Surface) -> (out: Option<Tick>)
        ensures
            final(self)@.wf(),
            out is None <==> surface is Acquired && !old(self)@.can_tick(),
            match out {
                None => final(self)@ == old(self)@,
                Some(Tick::Skipped) => surface is Unavailable && final(self)@ == old(self)@,
                Some(Tick::Presented(plan)) => {
                    &&& surface is Acquired
                    &&& plan@ == old(self)@.frame_plan()
                    &&& final(self)@ == old(self)@.ticked()
                },
            },
    {
        match surface {
            Surface::Unavailable => Some(self.tick(surface)),
            Surface::Acquired => {
                if self.can_tick() {
                    Some(self.tick(surface))
                } else {
                    proof {
                        use_type_invariant(&self.world);
                        use_type_invariant(&self.clock);
                        lemma_clock_wf(self.clock);
                    }
                    None
                }
            },
        }
    }

    /// One command, given at `now` (milliseconds since the epoch).
    pub fn on_command(&mut self, command: Command, now: u128) -> (effect: Effect)
        ensures
            final(self)@ == old(self)@.commanded(command, now as nat),
            match command {
                Command::Close => effect is Exit,
                Command::SaveImage => effect matches Effect::Capture(path) && path@
                    == snapshot_path(now as nat),
                Command::ToggleRecording => match old(self)@.recording {
                    RecordingModel::Off => effect matches Effect::RecordingStarted(dir) && dir@
                        == session_dir(now as nat),
                    RecordingModel::On { .. } => effect is RecordingStopped,
                },
                Command::Reset => effect matches Effect::Reset(plan) && reset_plan_for(
                    old(self)@.world.params,
                    plan,
                ),
                Command::ToggleCenterBias => effect matches Effect::CenterBias(bias) && bias
                    == !old(self)@.center_bias,
            },
    {
        match command {
            Command::Close => Effect::Exit,
            Command::SaveImage => Effect::Capture(snapshot_file_path(now)),
            Command::ToggleRecording => {
                let (recording, dir) = self.recording.toggle(now);
                self.recording = recording;
                match dir {
                    Some(dir) => Effect::RecordingStarted(dir),
                    None => Effect::RecordingStopped,
                }
            },
            Command::Reset => Effect::Reset(self.world.reset()),
            Command::ToggleCenterBias => {
                self.center_bias = !self.center_bias;
                Effect::CenterBias(self.center_bias)
            },
        }
    }

    /// A changed kernel source, with the front end's verdict on it. An
    /// accepted source becomes live under a new identity, which the next
    /// frame's plan is the first to name. A source that was turned down
    /// leaves the session as it was, so that frames go on with the pipeline
    /// that was live; the error carries the source and the report.
    pub fn reload(&mut self, kind: KernelKind, checked: CheckedSource) -> (r: Result<
        PipelineId,
        CompileError,
    >)
        ensures
            final(self)@ == old(self)@.reloaded(kind, checked@.source, checked@.accepted()),
            match r {
                Ok(id) => {
                    &&& checked@.accepted()
                    &&& id == final(self)@.registry.pipeline(kind)
                    &&& id != old(self)@.registry.pipeline(kind)
                },
                Err(e) => checked@.rejection(kind) == Some(e@),
            },
    {
        self.registry.load(kind, checked)
    }
}

} // verus!
