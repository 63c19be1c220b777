//! The recording session: off, or on since a given moment with the index of
//! the next frame to write; and the names under which captures are stored.

use vstd::prelude::*;
use vstd::string::StringExecFns;
use crate::text::decimal;
use crate::text::is_digit;
use crate::text::lemma_decimal_digits;
use crate::text::lemma_decimal_injective;
use crate::text::render_decimal;

verus! {

/// Directory of the session that started at `started` (milliseconds since the
/// epoch): `videos/video-<started>`.
pub open spec fn session_dir(started: nat) -> Seq<char> {
    "videos/video-"@ + decimal(started)
}

/// File of frame `index` of that session:
/// `videos/video-<started>/image-<index>.png`.
pub open spec fn frame_path(started: nat, index: nat) -> Seq<char> {
    session_dir(started) + "/image-"@ + decimal(index) + ".png"@
}

/// File of a one-shot capture taken at `now`: `images/image-<now>.png`.
pub open spec fn snapshot_path(now: nat) -> Seq<char> {
    "images/image-"@ + decimal(now) + ".png"@
}

/// Two numerals that are followed by the same text, the first character of
/// which is no digit, and that give the same text with it, are the same.
proof fn lemma_numeral_ends(a: nat, b: nat, rest_a: Seq<char>, rest_b: Seq<char>)
    requires
        decimal(a) + rest_a == decimal(b) + rest_b,
        rest_a.len() > 0 && !is_digit(rest_a[0]),
        rest_b.len() > 0 && !is_digit(rest_b[0]),
    ensures
        a == b,
        rest_a == rest_b,
{
    let da = decimal(a);
    let db = decimal(b);
    let whole_a = da + rest_a;
    let whole_b = db + rest_b;
    lemma_decimal_digits(a);
    lemma_decimal_digits(b);
    // The numerals are equally long: where the shorter ends, its text goes
    // on with a character that is no digit, and the other with a digit.
    if da.len() < db.len() {
        assert(whole_a[da.len() as int] == rest_a[0]);
        assert(whole_b[da.len() as int] == db[da.len() as int]);
    }
    if db.len() < da.len() {
        assert(whole_b[db.len() as int] == rest_b[0]);
        assert(whole_a[db.len() as int] == da[db.len() as int]);
    }
    assert forall|k: int| 0 <= k < da.len() implies da[k] == db[k] by {
        assert(whole_a[k] == da[k]);
        assert(whole_b[k] == db[k]);
    }
    assert(da =~= db);
    lemma_decimal_injective(a, b);
    assert(whole_a.len() == whole_b.len());
    assert forall|k: int| 0 <= k < rest_a.len() implies rest_a[k] == rest_b[k] by {
        assert(whole_a[da.len() + k] == rest_a[k]);
        assert(whole_b[da.len() + k] == rest_b[k]);
    }
    assert(rest_a =~= rest_b);
}

/// A text taken off the front of two equal texts leaves equal texts.
proof fn lemma_same_head(head: Seq<char>, a: Seq<char>, b: Seq<char>)
    requires
        head + a == head + b,
    ensures
        a == b,
{
    let whole_a = head + a;
    let whole_b = head + b;
    assert(whole_a.len() == head.len() + a.len());
    assert(whole_b.len() == head.len() + b.len());
    assert forall|k: int| 0 <= k < a.len() implies a[k] == b[k] by {
        assert(whole_a[head.len() + k] == a[k]);
        assert(whole_b[head.len() + k] == b[k]);
    }
    assert(a =~= b);
}

/// Two frames with the same file are the same frame of the same session: no
/// capture of a recording overwrites another, in its own session or in any
/// other.
pub proof fn lemma_frame_path_injective(started_a: nat, i: nat, started_b: nat, j: nat)
    requires
        frame_path(started_a, i) == frame_path(started_b, j),
    ensures
        started_a == started_b,
        i == j,
{
    reveal_strlit("/image-");
    reveal_strlit(".png");
    let head = "videos/video-"@;
    let rest_a = "/image-"@ + decimal(i) + ".png"@;
    let rest_b = "/image-"@ + decimal(j) + ".png"@;
    assert(frame_path(started_a, i) =~= head + (decimal(started_a) + rest_a));
    assert(frame_path(started_b, j) =~= head + (decimal(started_b) + rest_b));
    lemma_same_head(head, decimal(started_a) + rest_a, decimal(started_b) + rest_b);
    lemma_numeral_ends(started_a, started_b, rest_a, rest_b);
    assert(rest_a =~= "/image-"@ + (decimal(i) + ".png"@));
    assert(rest_b =~= "/image-"@ + (decimal(j) + ".png"@));
    lemma_same_head("/image-"@, decimal(i) + ".png"@, decimal(j) + ".png"@);
    lemma_numeral_ends(i, j, ".png"@, ".png"@);
}

/// Two one-shot captures with the same file were taken at the same moment.
pub proof fn lemma_snapshot_path_injective(a: nat, b: nat)
    requires
        snapshot_path(a) == snapshot_path(b),
    ensures
        a == b,
{
    reveal_strlit(".png");
    assert(snapshot_path(a) =~= "images/image-"@ + (decimal(a) + ".png"@));
    assert(snapshot_path(b) =~= "images/image-"@ + (decimal(b) + ".png"@));
    lemma_same_head("images/image-"@, decimal(a) + ".png"@, decimal(b) + ".png"@);
    lemma_numeral_ends(a, b, ".png"@, ".png"@);
}

/// A one-shot capture never takes the file of a recorded frame.
pub proof fn lemma_snapshot_is_no_frame(now: nat, started: nat, index: nat)
    ensures
        snapshot_path(now) != frame_path(started, index),
{
    reveal_strlit("images/image-");
    reveal_strlit("videos/video-");
    assert(snapshot_path(now)[0] == 'i');
    assert(frame_path(started, index)[0] == 'v');
}

/// Mathematical content of a [`RecordingState`].
pub enum RecordingModel {
    Off,
    On { started: nat, next_index: nat },
}

/// What can happen to a recording session.
pub enum RecordingInput {
    /// The record command, given at moment `now`.
    Toggle { now: nat },
    /// A presented frame was selected for capture.
    Capture,
}

impl RecordingModel {
    /// The record command: starts a session at index 0 when off, ends the
    /// session when on.
    pub open spec fn toggled(self, now: nat) -> RecordingModel {
        match self {
            RecordingModel::Off => RecordingModel::On { started: now, next_index: 0 },
            RecordingModel::On { .. } => RecordingModel::Off,
        }
    }

    /// A frame selected for capture: moves the index on by one when on.
    pub open spec fn captured(self) -> RecordingModel {
        match self {
            RecordingModel::Off => RecordingModel::Off,
            RecordingModel::On { started, next_index } => RecordingModel::On {
                started,
                next_index: next_index + 1,
            },
        }
    }

    /// The file that a frame selected for capture is written to, if any.
    pub open spec fn capture_target(self) -> Option<Seq<char>> {
        match self {
            RecordingModel::Off => None,
            RecordingModel::On { started, next_index } => Some(frame_path(started, next_index)),
        }
    }

    /// One input applied.
    pub open spec fn step(self, input: RecordingInput) -> RecordingModel {
        match input {
            RecordingInput::Toggle { now } => self.toggled(now),
            RecordingInput::Capture => self.captured(),
        }
    }

    /// A sequence of inputs applied in order.
    pub open spec fn run(self, inputs: Seq<RecordingInput>) -> RecordingModel
        decreases inputs.len(),
    {
        if inputs.len() == 0 {
            self
        } else {
            self.run(inputs.drop_last()).step(inputs.last())
        }
    }
}

/// While a session lasts its start never changes and its index never goes
/// down: an input that leaves the session on is a capture, and moves the
/// index on by exactly one.
pub proof fn lemma_session_index_never_decreases(s: RecordingModel, input: RecordingInput)
    requires
        s is On,
        s.step(input) is On,
    ensures
        input is Capture,
        s.step(input)->started == s->started,
        s.step(input)->next_index == s->next_index + 1,
{
}

/// An index of 0 comes only from the record command given while off, and
/// that command is the only way from off to on.
pub proof fn lemma_session_starts_at_zero(s: RecordingModel, input: RecordingInput)
    requires
        s is Off,
    ensures
        s.step(input) is On <==> input is Toggle,
        input matches RecordingInput::Toggle { now } ==> s.step(input) == (RecordingModel::On {
            started: now,
            next_index: 0,
        }),
{
}

/// Captures alone never end a session: after `inputs.len()` of them the
/// session that stood at index `i` stands at `i + inputs.len()`.
pub proof fn lemma_captures_count(s: RecordingModel, inputs: Seq<RecordingInput>)
    requires
        s is On,
        forall|k: int| 0 <= k < inputs.len() ==> inputs[k] is Capture,
    ensures
        s.run(inputs) == (RecordingModel::On {
            started: s->started,
            next_index: s->next_index + inputs.len(),
        }),
    decreases inputs.len(),
{
    if inputs.len() > 0 {
        lemma_captures_count(s, inputs.drop_last());
    }
}

/// Off, or on since `.0` (milliseconds since the epoch) with `.1` the index
/// of the next frame.
#[derive(Clone, Copy, Debug, PartialEq, Eq, Structural)]
pub enum RecordingState {
    Off,
    On(u128, usize),
}

impl View for RecordingState {
    type V = RecordingModel;

    open spec fn view(&self) -> RecordingModel {
        match *self {
            RecordingState::Off => RecordingModel::Off,
            RecordingState::On(started, next_index) => RecordingModel::On {
                started: started as nat,
                next_index: next_index as nat,
            },
        }
    }
}

/// Writes the directory of the session that started at `started`.
pub fn session_dir_path(started: u128) -> (path: String)
    ensures
        path@ == session_dir(started as nat),
{
    let mut path = String::from_str("videos/video-");
    let number = render_decimal(started);
    path.append(number.as_str());
    path
}

/// Writes the file of frame `index` of the session that started at `started`.
pub fn frame_file_path(started: u128, index: usize) -> (path: String)
    ensures
        path@ == frame_path(started as nat, index as nat),
{
    let mut path = session_dir_path(started);
    path.append("/image-");
    let number = render_decimal(index as u128);
    path.append(number.as_str());
    path.append(".png");
    path
}

/// Writes the file of a one-shot capture taken at `now`.
pub fn snapshot_file_path(now: u128) -> (path: String)
    ensures
        path@ == snapshot_path(now as nat),
{
    let mut path = String::from_str("images/image-");
    let number = render_decimal(now);
    path.append(number.as_str());
    path.append(".png");
    path
}

impl RecordingState {
    /// A session that starts at `now` with frame 0.
    pub fn start(now: u128) -> (r: RecordingState)
        ensures
            r == RecordingState::On(now, 0),
    {
        RecordingState::On(now, 0)
    }

    /// Whether a session is running.
    pub fn is_on(&self) -> (b: bool)
        ensures
            b == (self@ is On),
    {
        match self {
            RecordingState::Off => false,
            RecordingState::On(_, _) => true,
        }
    }

    /// Whether a frame can still be captured: the session is off, or its
    /// index has a successor.
    pub open spec fn can_capture(self) -> bool {
        self matches RecordingState::On(_, i) ==> i < usize::MAX
    }

    /// The record command given at `now`. Returns the new state and, where a
    /// session started, the directory that its frames will be written to.
    pub fn toggle(self, now: u128) -> (r: (RecordingState, Option<String>))
        ensures
            r.0@ == self@.toggled(now as nat),
            self is Off ==> r.0 == RecordingState::On(now, 0),
            match r.1 {
                Some(dir) => self is Off && dir@ == session_dir(now as nat),
                None => self is On,
            },
    {
        match self {
            RecordingState::Off => (RecordingState::start(now), Some(session_dir_path(now))),
            RecordingState::On(_, _) => (RecordingState::Off, None),
        }
    }

    /// A presented frame was selected for capture. Returns the new state and,
    /// where a session is running, the file to write the frame to.
    pub fn capture(self) -> (r: (RecordingState, Option<String>))
        requires
            self.can_capture(),
        ensures
            r.0@ == self@.captured(),
            match r.1 {
                Some(path) => self@.capture_target() == Some(path@),
                None => self@.capture_target() is None,
            },
    {
        match self {
            RecordingState::Off => (RecordingState::Off, None),
            RecordingState::On(started, index) => (
                RecordingState::On(started, index + 1),
                Some(frame_file_path(started, index)),
            ),
        }
    }
}

} // verus!
