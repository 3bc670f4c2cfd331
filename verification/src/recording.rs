//! Segmented recording: pause ends the current wf-recorder segment,
//! resume starts the next one (`<base>-segN.<ext>`), restart drops every
//! segment and starts over, stop hands the segments to the final join.
//! These are the decisions; spawning, signalling and polling the process
//! stay outside. Times are milliseconds on a monotonic clock.

use vstd::prelude::*;

use crate::capture::texts;
use crate::text::{chars_of, nat_text, push_char, push_chars, push_str, push_u64, string_of_range};

verus! {

/// The last position of `c` in `s`, or -1.
pub open spec fn last_index(s: Seq<char>, c: char) -> int
    decreases s.len(),
{
    if s.len() == 0 {
        -1
    } else if s.last() == c {
        s.len() - 1
    } else {
        last_index(s.drop_last(), c)
    }
}

/// The position of the extension's dot: the last `.` of the file name
/// (the text after the last `/`) unless it starts the name; -1 if none.
pub open spec fn extension_dot(s: Seq<char>) -> int {
    let d = last_index(s, '.');
    if d > last_index(s, '/') + 1 {
        d
    } else {
        -1
    }
}

/// The path of segment `n` of a recording whose first segment is `base`:
/// `-seg<n>` inserted before the extension.
pub open spec fn segment_text(base: Seq<char>, n: nat) -> Seq<char> {
    let d = extension_dot(base);
    if d >= 0 {
        base.take(d) + "-seg"@ + nat_text(n) + base.skip(d)
    } else {
        base + "-seg"@ + nat_text(n)
    }
}

fn last_index_of(v: &Vec<char>, c: char) -> (r: Option<usize>)
    ensures
        match r {
            Some(i) => i == last_index(v@, c) && i < v.len(),
            None => last_index(v@, c) == -1,
        },
{
    let mut i: usize = v.len();
    assert(v@.take(v.len() as int) =~= v@);
    while i > 0
        invariant
            i <= v.len(),
            last_index(v@, c) == last_index(v@.take(i as int), c),
        decreases i,
    {
        assert(v@.take(i as int).drop_last() =~= v@.take(i - 1));
        if v[i - 1] == c {
            return Some(i - 1);
        }
        i -= 1;
    }
    assert(v@.take(0) =~= Seq::<char>::empty());
    None
}

/// The path of segment `index` of a recording that started at `base`.
pub fn segment_path(base: &str, index: u32) -> (out: String)
    ensures
        out@ == segment_text(base@, index as nat),
{
    let v = chars_of(base);
    let dot = match last_index_of(&v, '.') {
        Some(d) => match last_index_of(&v, '/') {
            Some(sl) => if d > sl + 1 {
                Some(d)
            } else {
                None
            },
            None => if d > 0 {
                Some(d)
            } else {
                None
            },
        },
        None => None,
    };
    let mut s = String::new();
    match dot {
        Some(d) => {
            assert(extension_dot(base@) == d);
            let head = string_of_range(&v, 0, d);
            let tail = string_of_range(&v, d, v.len());
            push_str(&mut s, head.as_str());
            push_str(&mut s, "-seg");
            push_u64(&mut s, index as u64);
            push_str(&mut s, tail.as_str());
            assert(v@.subrange(0, d as int) =~= v@.take(d as int));
            assert(v@.subrange(d as int, v@.len() as int) =~= v@.skip(d as int));
            assert(s@ =~= segment_text(base@, index as nat));
        },
        None => {
            assert(extension_dot(base@) == -1);
            push_chars(&mut s, &v);
            push_str(&mut s, "-seg");
            push_u64(&mut s, index as u64);
            assert(s@ =~= segment_text(base@, index as nat));
        },
    }
    s
}

} // verus!

verus! {

/// A pause or restart waiting for the current segment process to exit.
#[derive(PartialEq, Eq, Structural, Clone, Copy, Debug)]
pub enum PendingAction {
    Nothing,
    Pause,
    Restart,
}

/// An active (possibly paused) recording.
pub struct Session {
    /// A segment process is running (none while paused).
    pub running: bool,
    pub pending: PendingAction,
    /// The segment being written, or the last one written while paused.
    pub temp_path: String,
    /// Completed earlier segments, in recording order.
    pub segments: Vec<String>,
    /// The first segment's path; later segments derive their names from it.
    pub base_path: String,
    pub seg_index: u32,
    /// Recorded time of the completed segments.
    pub accumulated_ms: u64,
    /// Whether segments record audio. The microphone switch changes the
    /// shared setting at any time; a resume starts its segment with the
    /// setting of that moment (a running segment cannot re-route audio).
    pub audio: bool,
    /// When the running segment started, if its time is still counting.
    pub segment_started_ms: Option<u64>,
}

/// What to do once the running segment process has exited.
pub enum SegmentExit {
    /// Paused: mark the runtime state as paused and wait.
    Paused,
    /// Restart: delete these files, then start a segment at `path`, with
    /// audio or not.
    Respawn { remove: Vec<String>, path: String, audio: bool },
    /// Stopped: join these segments into the result.
    Finished { segments: Vec<String> },
}

/// What the pause/resume button does.
pub enum PauseAction {
    /// A pause or restart is already under way.
    Ignore,
    /// Interrupt (SIGINT) the running segment; it finalizes its file.
    Interrupt,
    /// Resume: start the next segment at `path`.
    Spawn { path: String, audio: bool },
}

/// What the restart button does.
pub enum RestartAction {
    /// Interrupt the running segment; the restart completes on its exit.
    Interrupt,
    /// Paused: delete these files, then start a segment at `path`, with
    /// audio or not.
    Respawn { remove: Vec<String>, path: String, audio: bool },
}

/// Recorded time at `now`: the completed segments' time plus the running
/// segment's (a clock that went backwards counts as no time).
pub open spec fn elapsed_spec(s: Session, now: u64) -> int {
    s.accumulated_ms + match s.segment_started_ms {
        Some(t) => if now >= t {
            now - t
        } else {
            0
        },
        None => 0,
    }
}

/// Every file a restart deletes: the current segment, then the earlier ones.
pub open spec fn restart_files(s: Session) -> Seq<Seq<char>> {
    seq![s.temp_path@] + texts(s.segments@)
}

/// A session as values: what the recording state machine is about.
#[verifier::ext_equal]
pub struct SessionView {
    pub running: bool,
    pub pending: PendingAction,
    pub temp_path: Seq<char>,
    pub segments: Seq<Seq<char>>,
    pub base_path: Seq<char>,
    pub seg_index: nat,
    pub accumulated_ms: int,
    pub segment_started_ms: Option<u64>,
    pub audio: bool,
}

impl View for Session {
    type V = SessionView;

    open spec fn view(&self) -> SessionView {
        SessionView {
            running: self.running,
            pending: self.pending,
            temp_path: self.temp_path@,
            segments: texts(self.segments@),
            base_path: self.base_path@,
            seg_index: self.seg_index as nat,
            accumulated_ms: self.accumulated_ms as int,
            segment_started_ms: self.segment_started_ms,
            audio: self.audio,
        }
    }
}

/// Recorded time at `now` of a session.
pub open spec fn elapsed_view(v: SessionView, now: u64) -> int {
    v.accumulated_ms + match v.segment_started_ms {
        Some(t) => if now >= t {
            now - t
        } else {
            0
        },
        None => 0,
    }
}

/// The pause/resume button: while a segment runs and nothing is pending,
/// pause (the timer freezes at the recorded time); while a pause or restart
/// is pending, nothing; while paused, resume as the next segment, with the
/// audio setting `audio` of that moment.
pub open spec fn pause_view(v: SessionView, now: u64, audio: bool) -> SessionView {
    if v.running {
        if v.pending != PendingAction::Nothing {
            v
        } else {
            SessionView {
                pending: PendingAction::Pause,
                accumulated_ms: elapsed_view(v, now),
                segment_started_ms: None,
                ..v
            }
        }
    } else {
        SessionView { seg_index: v.seg_index + 1, audio, ..v }
    }
}

/// The path the pause/resume button starts the next segment at, while
/// paused.
pub open spec fn resume_path(v: SessionView) -> Seq<char> {
    segment_text(v.base_path, v.seg_index + 1)
}

/// The running segment process exited: a pause keeps its file as a
/// segment and waits; a restart drops every segment; otherwise the
/// recording stopped with its file as the last segment.
pub open spec fn exit_view(v: SessionView) -> SessionView {
    match v.pending {
        PendingAction::Pause => SessionView {
            running: false,
            pending: PendingAction::Nothing,
            segments: v.segments.push(v.temp_path),
            ..v
        },
        PendingAction::Restart => SessionView {
            running: false,
            pending: PendingAction::Nothing,
            segments: Seq::empty(),
            seg_index: 0,
            accumulated_ms: 0,
            ..v
        },
        PendingAction::Nothing => SessionView {
            running: false,
            segments: v.segments.push(v.temp_path),
            ..v
        },
    }
}

/// A segment process started writing `path` at `now`.
pub open spec fn spawned_view(v: SessionView, path: Seq<char>, now: u64) -> SessionView {
    SessionView { running: true, temp_path: path, segment_started_ms: Some(now), ..v }
}

/// The HUD's status label: `PAUSED` from the pause press until a segment
/// runs again (no segment time counting), `REC` otherwise.
pub open spec fn hud_label_text(v: SessionView) -> Seq<char> {
    if v.segment_started_ms is None {
        "PAUSED"@
    } else {
        "REC"@
    }
}

/// The restart button: the timer starts over; a running segment is
/// interrupted and the restart completes on its exit; while paused every
/// segment is dropped at once.
pub open spec fn restart_view(v: SessionView, now: u64) -> SessionView {
    if v.running {
        SessionView {
            accumulated_ms: 0,
            pending: PendingAction::Restart,
            segment_started_ms: Some(now),
            ..v
        }
    } else {
        SessionView { accumulated_ms: 0, segments: Seq::empty(), seg_index: 0, ..v }
    }
}

fn copy_strings(v: &Vec<String>) -> (r: Vec<String>)
    ensures
        r@ == v@,
{
    let mut r: Vec<String> = Vec::new();
    let mut i: usize = 0;
    while i < v.len()
        invariant
            i <= v.len(),
            r@ == v@.take(i as int),
        decreases v.len() - i,
    {
        r.push(v[i].clone());
        assert(r@ =~= v@.take(i + 1));
        i += 1;
    }
    assert(v@.take(v.len() as int) =~= v@);
    r
}

impl Session {
    /// A recording whose first segment is being written to `temp_path`,
    /// with audio or not, started at `now`.
    pub fn start(temp_path: String, now: u64, audio: bool) -> (s: Session)
        ensures
            s.audio == audio,
            s.running,
            s.pending == PendingAction::Nothing,
            s.temp_path == temp_path,
            s.base_path == temp_path,
            s.segments@.len() == 0,
            s.seg_index == 0,
            s.accumulated_ms == 0,
            s.segment_started_ms == Some(now),
            elapsed_spec(s, now) == 0,
    {
        Session {
            running: true,
            pending: PendingAction::Nothing,
            base_path: temp_path.clone(),
            temp_path,
            segments: Vec::new(),
            seg_index: 0,
            accumulated_ms: 0,
            segment_started_ms: Some(now),
            audio,
        }
    }

    /// Recorded time at `now`, for the HUD timer.
    pub fn elapsed_ms(&self, now: u64) -> (ms: u64)
        requires
            elapsed_spec(*self, now) <= u64::MAX,
        ensures
            ms == elapsed_spec(*self, now),
    {
        match self.segment_started_ms {
            Some(t) => self.accumulated_ms + if now >= t {
                now - t
            } else {
                0
            },
            None => self.accumulated_ms,
        }
    }

    /// The running segment process exited.
    pub fn segment_exited(&mut self) -> (a: SegmentExit)
        requires
            old(self).running,
        ensures
            old(self).pending == PendingAction::Pause ==> a is Paused && !final(self).running
                && final(self).pending == PendingAction::Nothing && texts(final(self).segments@)
                == texts(old(self).segments@).push(old(self).temp_path@) && final(self).temp_path
                == old(self).temp_path && final(self).seg_index == old(self).seg_index
                && final(self).accumulated_ms == old(self).accumulated_ms
                && final(self).segment_started_ms == old(self).segment_started_ms,
            old(self).pending == PendingAction::Restart ==> (a matches SegmentExit::Respawn {
                remove,
                path,
                audio,
            } && texts(remove@) == restart_files(*old(self)) && path@ == old(self).base_path@
                && audio == old(self).audio)
                && !final(self).running && final(self).pending == PendingAction::Nothing
                && final(self).segments@.len() == 0 && final(self).seg_index == 0
                && final(self).accumulated_ms == 0 && final(self).temp_path
                == old(self).temp_path && final(self).segment_started_ms
                == old(self).segment_started_ms,
            old(self).pending == PendingAction::Nothing ==> (a matches SegmentExit::Finished {
                segments,
            } && texts(segments@) == texts(old(self).segments@).push(old(self).temp_path@))
                && !final(self).running && texts(final(self).segments@) == texts(
                old(self).segments@,
            ).push(old(self).temp_path@),
            final(self).base_path == old(self).base_path,
            final(self)@ == exit_view(old(self)@),
    {
        match self.pending {
            PendingAction::Pause => {
                self.running = false;
                self.pending = PendingAction::Nothing;
                let t = self.temp_path.clone();
                self.segments.push(t);
                proof {
                    assert(texts(self.segments@) =~= texts(old(self).segments@).push(
                        old(self).temp_path@,
                    ));
                }
                SegmentExit::Paused
            },
            PendingAction::Restart => {
                self.pending = PendingAction::Nothing;
                self.running = false;
                let mut remove: Vec<String> = Vec::new();
                remove.push(self.temp_path.clone());
                let mut rest = copy_strings(&self.segments);
                remove.append(&mut rest);
                self.segments.clear();
                self.seg_index = 0;
                self.accumulated_ms = 0;
                proof {
                    assert(texts(remove@) =~= restart_files(*old(self)));
                }
                SegmentExit::Respawn { remove, path: self.base_path.clone(), audio: self.audio }
            },
            PendingAction::Nothing => {
                self.running = false;
                let t = self.temp_path.clone();
                self.segments.push(t);
                proof {
                    assert(texts(self.segments@) =~= texts(old(self).segments@).push(
                        old(self).temp_path@,
                    ));
                }
                SegmentExit::Finished { segments: copy_strings(&self.segments) }
            },
        }
    }

    /// A new segment process started writing `path` at `now` (resume or
    /// restart).
    pub fn segment_spawned(&mut self, path: String, now: u64)
        ensures
            final(self).running,
            final(self).temp_path == path,
            final(self).segment_started_ms == Some(now),
            final(self).pending == old(self).pending,
            final(self).segments == old(self).segments,
            final(self).base_path == old(self).base_path,
            final(self).seg_index == old(self).seg_index,
            final(self).accumulated_ms == old(self).accumulated_ms,
            final(self)@ == spawned_view(old(self)@, path@, now),
    {
        self.temp_path = path;
        self.running = true;
        self.segment_started_ms = Some(now);
    }

    /// The pause/resume button, at `now`, with the microphone switch at
    /// `audio`.
    pub fn pause_pressed(&mut self, now: u64, audio: bool) -> (a: PauseAction)
        requires
            old(self).running ==> elapsed_spec(*old(self), now) <= u64::MAX,
            !old(self).running ==> old(self).seg_index < u32::MAX,
        ensures
            old(self).running && old(self).pending != PendingAction::Nothing ==> a is Ignore
                && *final(self) == *old(self),
            old(self).running && old(self).pending == PendingAction::Nothing ==> a is Interrupt
                && final(self).pending == PendingAction::Pause
                && final(self).accumulated_ms == elapsed_spec(*old(self), now)
                && final(self).segment_started_ms is None && final(self).running
                && final(self).temp_path == old(self).temp_path && final(self).segments
                == old(self).segments && final(self).seg_index == old(self).seg_index,
            !old(self).running ==> (a matches PauseAction::Spawn { path, audio: a_audio } && path@
                == segment_text(old(self).base_path@, (old(self).seg_index + 1) as nat)
                && a_audio == audio) && final(self).audio == audio
                && final(self).seg_index == old(self).seg_index + 1 && !final(self).running
                && final(self).temp_path == old(self).temp_path && final(self).segments
                == old(self).segments && final(self).accumulated_ms == old(self).accumulated_ms
                && final(self).segment_started_ms == old(self).segment_started_ms
                && final(self).pending == old(self).pending,
            final(self).base_path == old(self).base_path,
            final(self)@ == pause_view(old(self)@, now, audio),
            !old(self).running ==> (a matches PauseAction::Spawn { path, .. } && path@ == resume_path(
                old(self)@,
            )),
    {
        if self.running {
            if self.pending != PendingAction::Nothing {
                return PauseAction::Ignore;
            }
            self.pending = PendingAction::Pause;
            match self.segment_started_ms {
                Some(t) => {
                    let d = if now >= t {
                        now - t
                    } else {
                        0
                    };
                    self.accumulated_ms = self.accumulated_ms + d;
                    self.segment_started_ms = None;
                },
                None => {},
            }
            PauseAction::Interrupt
        } else {
            self.seg_index = self.seg_index + 1;
            self.audio = audio;
            let path = segment_path(self.base_path.as_str(), self.seg_index);
            PauseAction::Spawn { path, audio }
        }
    }

    /// The HUD's status label.
    pub fn hud_label(&self) -> (r: &'static str)
        ensures
            r@ == hud_label_text(self@),
    {
        match self.segment_started_ms {
            None => "PAUSED",
            Some(_) => "REC",
        }
    }

    /// `hyprscreen stop` while paused: no segment process is running, so
    /// the stop request ends the session here; the segments recorded so
    /// far, in order, go to the join.
    pub fn finish_paused(self) -> (segments: Vec<String>)
        requires
            !self.running,
        ensures
            segments@ == self.segments@,
            texts(segments@) == self@.segments,
    {
        self.segments
    }

    /// The restart button, at `now`: the timer starts over.
    pub fn restart_pressed(&mut self, now: u64) -> (a: RestartAction)
        ensures
            final(self).accumulated_ms == 0,
            old(self).running ==> a is Interrupt && final(self).pending == PendingAction::Restart
                && final(self).segment_started_ms == Some(now) && final(self).running
                && final(self).temp_path == old(self).temp_path && final(self).segments
                == old(self).segments && final(self).seg_index == old(self).seg_index,
            !old(self).running ==> (a matches RestartAction::Respawn { remove, path, audio } && texts(
                remove@,
            ) == restart_files(*old(self)) && path@ == old(self).base_path@ && audio
                == old(self).audio)
                && final(self).segments@.len() == 0 && final(self).seg_index == 0
                && !final(self).running && final(self).temp_path == old(self).temp_path
                && final(self).pending == old(self).pending && final(self).segment_started_ms
                == old(self).segment_started_ms,
            final(self).base_path == old(self).base_path,
            final(self)@ == restart_view(old(self)@, now),
    {
        self.accumulated_ms = 0;
        if self.running {
            self.pending = PendingAction::Restart;
            self.segment_started_ms = Some(now);
            RestartAction::Interrupt
        } else {
            let mut remove: Vec<String> = Vec::new();
            remove.push(self.temp_path.clone());
            let mut rest = copy_strings(&self.segments);
            remove.append(&mut rest);
            self.segments.clear();
            self.seg_index = 0;
            proof {
                assert(texts(remove@) =~= restart_files(*old(self)));
            }
            RestartAction::Respawn { remove, path: self.base_path.clone(), audio: self.audio }
        }
    }
}

/// Whether a stopped recording produced a result: some segment file exists
/// or the last process exited successfully.
pub fn recording_produced(has_output: bool, exit_success: bool) -> (b: bool)
    ensures
        b == (has_output || exit_success),
{
    has_output || exit_success
}

} // verus!

verus! {

/// While no segment time is counting (paused), the recorded time stays
/// what it was, whenever it is read.
pub proof fn law_paused_timer_frozen(s: Session, now: u64, later: u64)
    requires
        s.segment_started_ms is None,
    ensures
        elapsed_spec(s, later) == elapsed_spec(s, now),
        elapsed_spec(s, now) == s.accumulated_ms,
{
}

/// Right after a restart the recorded time reads zero.
pub proof fn law_restart_timer_zero(s: Session, now: u64)
    requires
        s.accumulated_ms == 0,
        s.segment_started_ms == Some(now) || s.segment_started_ms is None,
    ensures
        elapsed_spec(s, now) == 0,
{
}


/// Pause, then resume: the pause interrupts the running segment, freezes
/// the timer at the recorded time and the HUD reads `PAUSED`; further
/// presses change nothing until the segment process is reaped, which keeps
/// its file as a segment; the next press starts segment `seg_index + 1` at
/// its `-segN` path with the microphone setting of that press, the HUD
/// reads `REC`, and once it runs the timer goes on from the frozen time.
/// Stopping while paused hands the join the same segments a stop instead
/// of the pause would have.
pub proof fn law_pause_resume(
    v: SessionView,
    t1: u64,
    t2: u64,
    t3: u64,
    t4: u64,
    a1: bool,
    a2: bool,
    a3: bool,
)
    requires
        v.running,
        v.pending == PendingAction::Nothing,
    ensures
        ({
            let p = pause_view(v, t1, a1);
            &&& p.running && p.pending == PendingAction::Pause
            &&& p.segment_started_ms is None
            &&& p.accumulated_ms == elapsed_view(v, t1)
            &&& p.temp_path == v.temp_path && p.segments == v.segments
            &&& p.seg_index == v.seg_index && p.audio == v.audio
            &&& hud_label_text(p) == "PAUSED"@
            &&& pause_view(p, t2, a2) == p
            &&& elapsed_view(p, t2) == elapsed_view(v, t1)
        }),
        ({
            let r = exit_view(pause_view(v, t1, a1));
            &&& !r.running && r.pending == PendingAction::Nothing
            &&& r.segments == v.segments.push(v.temp_path)
            &&& r.segments == exit_view(v).segments
            &&& elapsed_view(r, t3) == elapsed_view(v, t1)
            &&& hud_label_text(r) == "PAUSED"@
            &&& resume_path(r) == segment_text(v.base_path, v.seg_index + 1)
        }),
        ({
            let r = exit_view(pause_view(v, t1, a1));
            let q = pause_view(r, t3, a3);
            let w = spawned_view(q, resume_path(r), t4);
            &&& !q.running && q.seg_index == v.seg_index + 1 && q.audio == a3
            &&& w.running && w.pending == PendingAction::Nothing
            &&& w.temp_path == segment_text(v.base_path, v.seg_index + 1)
            &&& w.seg_index == v.seg_index + 1 && w.audio == a3
            &&& w.segments == v.segments.push(v.temp_path)
            &&& hud_label_text(w) == "REC"@
            &&& elapsed_view(w, t4) == elapsed_view(v, t1)
        }),
{
}

/// Restart from a running segment: it is interrupted, and once reaped
/// every segment is dropped; segment 0 starts again at the first path and
/// the timer reads zero when it does.
pub proof fn law_restart_starts_over(v: SessionView, t1: u64, t2: u64)
    requires
        v.running,
        v.pending == PendingAction::Nothing,
    ensures
        restart_view(v, t1).pending == PendingAction::Restart,
        ({
            let r = exit_view(restart_view(v, t1));
            let w = spawned_view(r, v.base_path, t2);
            &&& !r.running && r.segments.len() == 0 && r.seg_index == 0
            &&& w.running && w.pending == PendingAction::Nothing
            &&& w.temp_path == v.base_path
            &&& w.segments.len() == 0 && w.seg_index == 0
            &&& elapsed_view(w, t2) == 0
        }),
{
}

} // verus!

verus! {

/// The container a recording is written in.
#[derive(PartialEq, Eq, Structural, Clone, Copy, Debug)]
pub enum RecordingFormat {
    /// wf-recorder's default libx264 in MP4.
    Mp4,
    /// VP9 (and Opus audio) in WEBM.
    Webm,
}

/// The file extension of a format.
pub open spec fn extension_text(f: RecordingFormat) -> Seq<char> {
    match f {
        RecordingFormat::Mp4 => "mp4"@,
        RecordingFormat::Webm => "webm"@,
    }
}

/// The file extension of a format.
pub fn format_extension(f: RecordingFormat) -> (r: &'static str)
    ensures
        r@ == extension_text(f),
{
    match f {
        RecordingFormat::Mp4 => "mp4",
        RecordingFormat::Webm => "webm",
    }
}

/// What wf-recorder records: a geometry (`-g`) or a whole output (`-o`).
pub enum RecordTarget {
    Geometry(String),
    Output(String),
}

/// The target's arguments.
pub open spec fn target_args(t: RecordTarget) -> Seq<Seq<char>> {
    match t {
        RecordTarget::Geometry(g) => seq!["-g"@, g@],
        RecordTarget::Output(n) => seq!["-o"@, n@],
    }
}

/// The codec arguments: none for MP4 (wf-recorder's default libx264);
/// `-c libvpx-vp9` for WEBM, plus `-C libopus` when audio is recorded.
pub open spec fn codec_args(f: RecordingFormat, audio: bool) -> Seq<Seq<char>> {
    match f {
        RecordingFormat::Mp4 => Seq::empty(),
        RecordingFormat::Webm => if audio {
            seq!["-c"@, "libvpx-vp9"@, "-C"@, "libopus"@]
        } else {
            seq!["-c"@, "libvpx-vp9"@]
        },
    }
}

/// The audio arguments: none without audio; `-a` for the default device,
/// `--audio=<device>` for a configured one.
pub open spec fn audio_args(audio: bool, device: Option<Seq<char>>) -> Seq<Seq<char>> {
    if !audio {
        Seq::empty()
    } else {
        match device {
            Some(d) => seq!["--audio="@ + d],
            None => seq!["-a"@],
        }
    }
}

/// A segment's wf-recorder command line (after the program name): target,
/// codec, audio, then `-f` and the output file.
pub open spec fn recorder_args_spec(
    t: RecordTarget,
    f: RecordingFormat,
    audio: bool,
    device: Option<Seq<char>>,
    path: Seq<char>,
) -> Seq<Seq<char>> {
    target_args(t) + codec_args(f, audio) + audio_args(audio, device) + seq!["-f"@, path]
}

pub(crate) fn push_owned(v: &mut Vec<String>, t: &str)
    ensures
        texts(final(v)@) == texts(old(v)@).push(t@),
{
    let ghost before = v@;
    v.push(t.to_owned());
    assert(texts(v@) =~= texts(before).push(t@));
}

/// The wf-recorder arguments of a segment written to `path`.
pub fn recorder_args(
    target: &RecordTarget,
    format: RecordingFormat,
    audio: bool,
    device: Option<&str>,
    path: &str,
) -> (out: Vec<String>)
    ensures
        texts(out@) == recorder_args_spec(
            *target,
            format,
            audio,
            match device {
                Some(d) => Some(d@),
                None => None,
            },
            path@,
        ),
{
    let mut out: Vec<String> = Vec::new();
    match target {
        RecordTarget::Geometry(g) => {
            push_owned(&mut out, "-g");
            push_owned(&mut out, g.as_str());
        },
        RecordTarget::Output(n) => {
            push_owned(&mut out, "-o");
            push_owned(&mut out, n.as_str());
        },
    }
    if format == RecordingFormat::Webm {
        push_owned(&mut out, "-c");
        push_owned(&mut out, "libvpx-vp9");
        if audio {
            push_owned(&mut out, "-C");
            push_owned(&mut out, "libopus");
        }
    }
    if audio {
        match device {
            Some(d) => {
                let mut a = String::new();
                push_str(&mut a, "--audio=");
                push_str(&mut a, d);
                push_owned(&mut out, a.as_str());
            },
            None => push_owned(&mut out, "-a"),
        }
    }
    push_owned(&mut out, "-f");
    push_owned(&mut out, path);
    proof {
        let dv = match device {
            Some(d) => Some(d@),
            None => None,
        };
        assert(texts(out@) =~= recorder_args_spec(*target, format, audio, dv, path@));
    }
    out
}

} // verus!

verus! {

/// `s` with every `'` written as `'\''`, for a single-quoted concat list
/// entry.
pub open spec fn quote_escaped(s: Seq<char>) -> Seq<char>
    decreases s.len(),
{
    if s.len() == 0 {
        Seq::empty()
    } else {
        quote_escaped(s.drop_last()) + if s.last() == '\'' {
            "'\\''"@
        } else {
            seq![s.last()]
        }
    }
}

/// The concat list line of one segment: `file '<path>'`.
pub open spec fn list_line(p: Seq<char>) -> Seq<char> {
    "file '"@ + quote_escaped(p) + "'\n"@
}

/// The concat list of the segments, one line each, in order.
pub open spec fn list_text(ps: Seq<Seq<char>>) -> Seq<char>
    decreases ps.len(),
{
    if ps.len() == 0 {
        Seq::empty()
    } else {
        list_text(ps.drop_last()) + list_line(ps.last())
    }
}

/// `p` with its extension replaced by (or, without one, extended with)
/// `ext`, as `Path::with_extension` does.
pub open spec fn with_extension_text(p: Seq<char>, ext: Seq<char>) -> Seq<char> {
    let d = extension_dot(p);
    if d >= 0 {
        p.take(d + 1) + ext
    } else {
        p + "."@ + ext
    }
}

/// `p` with `joined-` put before its file name.
pub open spec fn joined_text(p: Seq<char>) -> Seq<char> {
    let n = last_index(p, '/') + 1;
    p.take(n) + "joined-"@ + p.skip(n)
}

/// How the segment files of a stopped recording become one file.
pub enum FinalizePlan {
    /// A single segment is the recording as it is.
    Single { path: String },
    /// Several segments: write `list_body` to `list_path`, concat it with
    /// `ffmpeg -f concat -safe 0 -c copy` into `joined_path`, remove the
    /// list and the segments, and move the result to `target` (the first
    /// segment's path).
    Join { list_path: String, list_body: String, joined_path: String, target: String },
}

/// A stop whose segments left no file.
#[derive(PartialEq, Eq, Structural, Clone, Copy, Debug)]
pub enum FinalizeError {
    NoOutput,
}

fn escape_into(s: &mut String, p: &str)
    ensures
        final(s)@ == old(s)@ + quote_escaped(p@),
{
    let v = chars_of(p);
    let ghost start = s@;
    let mut i: usize = 0;
    assert(v@.take(0) =~= Seq::<char>::empty());
    while i < v.len()
        invariant
            i <= v.len(),
            v@ == p@,
            s@ == start + quote_escaped(v@.take(i as int)),
        decreases v.len() - i,
    {
        assert(v@.take(i + 1).drop_last() =~= v@.take(i as int));
        if v[i] == '\'' {
            push_str(s, "'\\''");
        } else {
            push_char(s, v[i]);
        }
        assert(s@ =~= start + quote_escaped(v@.take(i + 1)));
        i += 1;
    }
    assert(v@.take(v.len() as int) =~= v@);
}

fn list_body(ps: &Vec<String>) -> (out: String)
    ensures
        out@ == list_text(texts(ps@)),
{
    let mut s = String::new();
    let mut i: usize = 0;
    assert(texts(ps@).take(0) =~= Seq::<Seq<char>>::empty());
    while i < ps.len()
        invariant
            i <= ps.len(),
            s@ == list_text(texts(ps@).take(i as int)),
        decreases ps.len() - i,
    {
        assert(texts(ps@).take(i + 1).drop_last() =~= texts(ps@).take(i as int));
        assert(texts(ps@).take(i + 1).last() == ps@[i as int]@);
        push_str(&mut s, "file '");
        escape_into(&mut s, ps[i].as_str());
        push_str(&mut s, "'\n");
        assert(s@ =~= list_text(texts(ps@).take(i + 1)));
        i += 1;
    }
    assert(texts(ps@).take(ps.len() as int) =~= texts(ps@));
    s
}

fn extension_dot_of(v: &Vec<char>) -> (r: Option<usize>)
    ensures
        match r {
            Some(d) => d == extension_dot(v@) && d < v.len(),
            None => extension_dot(v@) == -1,
        },
{
    match last_index_of(v, '.') {
        Some(d) => match last_index_of(v, '/') {
            Some(sl) => if d > sl + 1 {
                Some(d)
            } else {
                None
            },
            None => if d > 0 {
                Some(d)
            } else {
                None
            },
        },
        None => None,
    }
}

fn with_extension(p: &str, ext: &str) -> (out: String)
    ensures
        out@ == with_extension_text(p@, ext@),
{
    let v = chars_of(p);
    let mut s = String::new();
    match extension_dot_of(&v) {
        Some(d) => {
            let head = string_of_range(&v, 0, d + 1);
            push_str(&mut s, head.as_str());
            push_str(&mut s, ext);
            assert(v@.subrange(0, d + 1) =~= v@.take(d + 1));
        },
        None => {
            push_chars(&mut s, &v);
            push_str(&mut s, ".");
            push_str(&mut s, ext);
        },
    }
    assert(s@ =~= with_extension_text(p@, ext@));
    s
}

fn joined_name(p: &str) -> (out: String)
    ensures
        out@ == joined_text(p@),
{
    let v = chars_of(p);
    let n: usize = match last_index_of(&v, '/') {
        Some(i) => i + 1,
        None => 0,
    };
    let head = string_of_range(&v, 0, n);
    let tail = string_of_range(&v, n, v.len());
    let mut s = String::new();
    push_str(&mut s, head.as_str());
    push_str(&mut s, "joined-");
    push_str(&mut s, tail.as_str());
    assert(v@.subrange(0, n as int) =~= v@.take(n as int));
    assert(v@.subrange(n as int, v@.len() as int) =~= v@.skip(n as int));
    assert(s@ =~= joined_text(p@));
    s
}

/// How the segment files that exist after a stop (in recording order)
/// become the recording: none is an error, one is the recording, several
/// are joined losslessly into the first one's path.
pub fn finalize_plan(existing: &Vec<String>) -> (r: Result<FinalizePlan, FinalizeError>)
    ensures
        existing@.len() == 0 <==> r == Err::<FinalizePlan, FinalizeError>(FinalizeError::NoOutput),
        existing@.len() == 1 ==> (r matches Ok(FinalizePlan::Single { path }) && path@
            == existing@[0]@),
        existing@.len() >= 2 ==> (r matches Ok(
            FinalizePlan::Join { list_path, list_body, joined_path, target },
        ) && list_path@ == with_extension_text(existing@[0]@, "txt"@) && list_body@ == list_text(
            texts(existing@),
        ) && joined_path@ == joined_text(existing@[0]@) && target@ == existing@[0]@),
{
    if existing.len() == 0 {
        Err(FinalizeError::NoOutput)
    } else if existing.len() == 1 {
        Ok(FinalizePlan::Single { path: existing[0].clone() })
    } else {
        let first = existing[0].as_str();
        Ok(
            FinalizePlan::Join {
                list_path: with_extension(first, "txt"),
                list_body: list_body(existing),
                joined_path: joined_name(first),
                target: existing[0].clone(),
            },
        )
    }
}

} // verus!

verus! {

/// The layout of a segment's wf-recorder arguments:
/// - they start with the target: `-g <geometry>` or `-o <output>`;
/// - they end with `-f <path>`;
/// - an MP4 segment adds nothing else but the audio argument; a WEBM
///   segment adds `-c libvpx-vp9` after the target, and `-C libopus`
///   after that when audio is on;
/// - with audio on, the argument before `-f` is `--audio=<device>` for a
///   configured device and `-a` otherwise, whatever the format; with audio
///   off there is no audio argument;
/// - the two formats differ only in the codec arguments: with the codec
///   arguments taken out, a WEBM segment's arguments are the MP4 ones.
pub proof fn law_recorder_args(
    t: RecordTarget,
    f: RecordingFormat,
    audio: bool,
    device: Option<Seq<char>>,
    path: Seq<char>,
)
    ensures
        ({
            let r = recorder_args_spec(t, f, audio, device, path);
            let n = r.len();
            let codecs: int = if f == RecordingFormat::Mp4 {
                0
            } else if audio {
                4
            } else {
                2
            };
            &&& n == 4 + codecs + if audio {
                1int
            } else {
                0int
            }
            &&& match t {
                RecordTarget::Geometry(g) => r[0] == "-g"@ && r[1] == g@,
                RecordTarget::Output(o) => r[0] == "-o"@ && r[1] == o@,
            }
            &&& r[n - 2] == "-f"@ && r[n - 1] == path
            &&& f == RecordingFormat::Webm ==> r[2] == "-c"@ && r[3] == "libvpx-vp9"@
            &&& f == RecordingFormat::Webm && audio ==> r[4] == "-C"@ && r[5] == "libopus"@
            &&& audio ==> r[n - 3] == match device {
                Some(d) => "--audio="@ + d,
                None => "-a"@,
            }
        }),
        ({
            let mp4 = recorder_args_spec(t, RecordingFormat::Mp4, audio, device, path);
            let webm = recorder_args_spec(t, RecordingFormat::Webm, audio, device, path);
            let c: int = if audio {
                4
            } else {
                2
            };
            webm.take(2) + webm.skip(2 + c) == mp4
        }),
{
    let r = recorder_args_spec(t, f, audio, device, path);
    let mp4 = recorder_args_spec(t, RecordingFormat::Mp4, audio, device, path);
    let webm = recorder_args_spec(t, RecordingFormat::Webm, audio, device, path);
    let c: int = if audio {
        4
    } else {
        2
    };
    assert(webm.take(2) + webm.skip(2 + c) =~= mp4);
}

} // verus!
