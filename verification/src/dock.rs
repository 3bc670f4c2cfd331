//! The capture dock: its state (mode, target, delay, pointer), what its
//! shortcuts and clicks do to it, the delay chip, the recording
//! timer, the fire button and the target buttons.

use vstd::prelude::*;

use crate::recording::RecordingFormat;
use crate::text::{all_digits, digit_value, digits_value, is_digit, lemma_nat_text, nat_text, push_str, push_u64};

verus! {

/// Capture or record.
#[derive(PartialEq, Eq, Structural, Clone, Copy, Debug)]
pub enum Mode {
    Screenshot,
    Record,
}

/// What to capture.
#[derive(PartialEq, Eq, Structural, Clone, Copy, Debug)]
pub enum Target {
    Area,
    Window,
    Monitor,
}

/// The delay presets, in chip order.
pub open spec fn is_preset(v: u64) -> bool {
    v == 0 || v == 3 || v == 5 || v == 10
}

/// The delay chip cycles 0 → 3 → 5 → 10 → 0 seconds; any other value goes
/// back to 0.
pub open spec fn next_delay_spec(v: u64) -> u64 {
    if v == 0 {
        3
    } else if v == 3 {
        5
    } else if v == 5 {
        10
    } else {
        0
    }
}

/// The delay after clicking the chip (or pressing D).
pub fn next_delay(current: u64) -> (next: u64)
    ensures
        next == next_delay_spec(current),
        is_preset(next),
{
    match current {
        0 => 3,
        3 => 5,
        5 => 10,
        _ => 0,
    }
}

/// Four clicks bring every preset back to itself, and a value outside the
/// presets is back on a preset after one click.
pub proof fn law_delay_cycle(v: u64)
    ensures
        is_preset(next_delay_spec(v)),
        is_preset(v) ==> next_delay_spec(next_delay_spec(next_delay_spec(next_delay_spec(v))))
            == v,
        is_preset(v) ==> next_delay_spec(v) != v,
{
}

/// The chip's label for a delay.
pub open spec fn delay_label_text(v: u64) -> Seq<char> {
    if v == 0 {
        "No delay"@
    } else {
        nat_text(v as nat) + "s"@
    }
}

/// `No delay`, or the delay in seconds such as `3s`.
pub fn delay_label(secs: u64) -> (out: String)
    ensures
        out@ == delay_label_text(secs),
{
    let mut s = String::new();
    if secs == 0 {
        push_str(&mut s, "No delay");
        assert(s@ =~= delay_label_text(secs));
    } else {
        push_u64(&mut s, secs);
        push_str(&mut s, "s");
        assert(s@ =~= delay_label_text(secs));
    }
    s
}

/// `n` with at least two digits (`{:02}`).
pub open spec fn two_digits(n: nat) -> Seq<char> {
    if n < 10 {
        "0"@ + nat_text(n)
    } else {
        nat_text(n)
    }
}

/// The HUD timer: `MM:SS` of elapsed seconds (minutes keep growing past 99).
pub open spec fn timer_text(secs: nat) -> Seq<char> {
    two_digits(secs / 60) + ":"@ + two_digits(secs % 60)
}

fn push_two_digits(s: &mut String, n: u64)
    ensures
        final(s)@ == old(s)@ + two_digits(n as nat),
{
    let ghost start = s@;
    if n < 10 {
        push_str(s, "0");
    }
    push_u64(s, n);
    assert(s@ =~= start + two_digits(n as nat));
}

/// The recording HUD's timer label for `secs` elapsed seconds.
pub fn timer_label(secs: u64) -> (out: String)
    ensures
        out@ == timer_text(secs as nat),
{
    let mut s = String::new();
    push_two_digits(&mut s, secs / 60);
    push_str(&mut s, ":");
    push_two_digits(&mut s, secs % 60);
    assert(s@ =~= timer_text(secs as nat));
    s
}

/// The target the fire button acts on: the first active of area and
/// window, monitor otherwise.
pub fn active_target(area_active: bool, window_active: bool) -> (t: Target)
    ensures
        t == (if area_active {
            Target::Area
        } else if window_active {
            Target::Window
        } else {
            Target::Monitor
        }),
{
    if area_active {
        Target::Area
    } else if window_active {
        Target::Window
    } else {
        Target::Monitor
    }
}

/// The fire button's label and keyboard hint in a mode.
pub fn primary_button_text(mode: Mode) -> (r: (&'static str, &'static str))
    ensures
        mode == Mode::Screenshot ==> r.0@ == "Capture"@ && r.1@ == "\u{23ce}"@,
        mode == Mode::Record ==> r.0@ == "Record"@ && r.1@ == "\u{23f5}"@,
{
    match mode {
        Mode::Screenshot => ("Capture", "\u{23ce}"),
        Mode::Record => ("Record", "\u{23f5}"),
    }
}

/// The pointer toggle's tooltip: its state in screenshot mode; in record
/// mode the toggle is disabled because wf-recorder always records it.
pub fn pointer_tooltip(mode: Mode, pointer_on: bool) -> (r: &'static str)
    ensures
        mode == Mode::Record ==> r@ == "wf-recorder always records the pointer"@,
        mode == Mode::Screenshot && pointer_on ==> r@ == "Pointer: on"@,
        mode == Mode::Screenshot && !pointer_on ==> r@ == "Pointer: off"@,
{
    match mode {
        Mode::Record => "wf-recorder always records the pointer",
        Mode::Screenshot => if pointer_on {
            "Pointer: on"
        } else {
            "Pointer: off"
        },
    }
}

/// How long the dock waits after hiding before the selection tool runs:
/// longer for monitor selection, whose identifier overlays must appear.
pub fn hide_delay_ms(target: Target) -> (ms: u64)
    ensures
        ms == (if target == Target::Monitor {
            220u64
        } else {
            60u64
        }),
{
    if target == Target::Monitor {
        220
    } else {
        60
    }
}

} // verus!

verus! {

/// Where the countdown centers itself after a screenshot selection: on the
/// selected monitor (looked up by name), or on the selected rectangle.
pub fn countdown_region(
    target: Target,
    selection: &str,
    monitors: &Vec<crate::hyprland::Monitor>,
) -> (r: Option<(i32, i32, i32, i32)>)
    ensures
        target == Target::Monitor ==> r == crate::hyprland::named_region(monitors@, selection@),
        target != Target::Monitor ==> r == crate::geometry::region_of(selection@),
{
    match target {
        Target::Monitor => crate::hyprland::monitor_region_by_name(monitors, selection),
        _ => crate::geometry::parse_region(selection),
    }
}

} // verus!

verus! {

/// A key pressed while the dock has focus (letters case-insensitive,
/// keypad digits and Enter as their main-row counterparts).
#[derive(PartialEq, Eq, Structural, Clone, Copy, Debug)]
pub enum DockKey {
    Enter,
    Digit(u8),
    Letter(char),
    Question,
    Slash,
    Escape,
    Other,
}

/// What a dock shortcut does.
#[derive(PartialEq, Eq, Structural, Clone, Copy, Debug)]
pub enum DockCommand {
    /// Press the fire button.
    Fire,
    SelectTarget(Target),
    SelectMode(Mode),
    CycleDelay,
    TogglePointer,
    ToggleCheatsheet,
    Quit,
    /// Handled, but nothing to do (a disabled control).
    Swallow,
    /// Not a dock shortcut: let the key propagate.
    Pass,
}

/// The dock's shortcuts: Enter fires (when the fire button is enabled),
/// 1/2/3 pick area/window/monitor, S/R pick screenshot/record, D cycles
/// the delay, P toggles the pointer (when enabled), ? or / toggles the
/// shortcut sheet, Esc quits.
pub open spec fn dock_command_spec(key: DockKey, fire_enabled: bool, pointer_enabled: bool) -> DockCommand {
    match key {
        DockKey::Enter => if fire_enabled {
            DockCommand::Fire
        } else {
            DockCommand::Swallow
        },
        DockKey::Digit(d) => if d == 1 {
            DockCommand::SelectTarget(Target::Area)
        } else if d == 2 {
            DockCommand::SelectTarget(Target::Window)
        } else if d == 3 {
            DockCommand::SelectTarget(Target::Monitor)
        } else {
            DockCommand::Pass
        },
        DockKey::Letter(c) => if c == 's' || c == 'S' {
            DockCommand::SelectMode(Mode::Screenshot)
        } else if c == 'r' || c == 'R' {
            DockCommand::SelectMode(Mode::Record)
        } else if c == 'd' || c == 'D' {
            DockCommand::CycleDelay
        } else if c == 'p' || c == 'P' {
            if pointer_enabled {
                DockCommand::TogglePointer
            } else {
                DockCommand::Swallow
            }
        } else {
            DockCommand::Pass
        },
        DockKey::Question => DockCommand::ToggleCheatsheet,
        DockKey::Slash => DockCommand::ToggleCheatsheet,
        DockKey::Escape => DockCommand::Quit,
        DockKey::Other => DockCommand::Pass,
    }
}

/// What a key does on the dock.
pub fn dock_command(key: DockKey, fire_enabled: bool, pointer_enabled: bool) -> (c: DockCommand)
    ensures
        c == dock_command_spec(key, fire_enabled, pointer_enabled),
{
    match key {
        DockKey::Enter => if fire_enabled {
            DockCommand::Fire
        } else {
            DockCommand::Swallow
        },
        DockKey::Digit(d) => if d == 1 {
            DockCommand::SelectTarget(Target::Area)
        } else if d == 2 {
            DockCommand::SelectTarget(Target::Window)
        } else if d == 3 {
            DockCommand::SelectTarget(Target::Monitor)
        } else {
            DockCommand::Pass
        },
        DockKey::Letter(c) => if c == 's' || c == 'S' {
            DockCommand::SelectMode(Mode::Screenshot)
        } else if c == 'r' || c == 'R' {
            DockCommand::SelectMode(Mode::Record)
        } else if c == 'd' || c == 'D' {
            DockCommand::CycleDelay
        } else if c == 'p' || c == 'P' {
            if pointer_enabled {
                DockCommand::TogglePointer
            } else {
                DockCommand::Swallow
            }
        } else {
            DockCommand::Pass
        },
        DockKey::Question => DockCommand::ToggleCheatsheet,
        DockKey::Slash => DockCommand::ToggleCheatsheet,
        DockKey::Escape => DockCommand::Quit,
        DockKey::Other => DockCommand::Pass,
    }
}

} // verus!

verus! {

/// One of the quick-settings delay presets.
#[derive(PartialEq, Eq, Structural, Clone, Copy, Debug)]
pub enum DelayPreset {
    Now,
    Three,
    Five,
    Ten,
}

/// The seconds of a preset: Now 0, then 3, 5 and 10.
pub open spec fn preset_secs_spec(p: DelayPreset) -> u64 {
    match p {
        DelayPreset::Now => 0,
        DelayPreset::Three => 3,
        DelayPreset::Five => 5,
        DelayPreset::Ten => 10,
    }
}

/// The seconds of a preset.
pub fn preset_secs(p: DelayPreset) -> (secs: u64)
    ensures
        secs == preset_secs_spec(p),
        is_preset(secs),
{
    match p {
        DelayPreset::Now => 0,
        DelayPreset::Three => 3,
        DelayPreset::Five => 5,
        DelayPreset::Ten => 10,
    }
}

/// What `hyprscreen screenshot <target>` / `hyprscreen record <target>`
/// asks the dock to do once it is shown.
#[derive(PartialEq, Eq, Structural, Clone, Copy, Debug)]
pub enum StartupAction {
    Screenshot(Target),
    Record(Target),
}

/// The dock's controls. The mode segment, the target buttons and the delay
/// presets are each a group of exclusive toggles: one mode, one target and
/// the one preset equal to the delay are active.
#[derive(PartialEq, Eq, Structural, Clone, Copy, Debug)]
pub struct DockState {
    pub mode: Mode,
    pub target: Target,
    /// Shared by the delay chip and the presets.
    pub delay_secs: u64,
    /// The pointer toggle and the popover's switch, kept in lockstep.
    pub pointer_on: bool,
    /// The popover's format toggles (record mode): exactly one is active.
    pub format: RecordingFormat,
    /// The popover's audio switch (record mode).
    pub audio: bool,
    /// The popover's recording-HUD switch (record mode).
    pub show_hud: bool,
}

/// What the fire button starts.
#[derive(PartialEq, Eq, Structural, Clone, Copy, Debug)]
pub enum FireRequest {
    /// A screenshot of `target` after `delay_secs`, with the pointer or not.
    Capture { target: Target, delay_secs: u64, pointer: bool },
    /// A recording of `target` after `delay_secs`, in `format`, with audio
    /// or not, with the recording HUD or the flashing indicator.
    Record { target: Target, delay_secs: u64, format: RecordingFormat, audio: bool, show_hud: bool },
}

/// What a dock command leaves for the window to do.
#[derive(PartialEq, Eq, Structural, Clone, Copy, Debug)]
pub enum DockEffect {
    Fire(FireRequest),
    ToggleCheatsheet,
    Quit,
    /// The key was handled; the controls show the new state.
    Handled,
    /// The key is not the dock's.
    Pass,
}

/// The dock's configured settings.
#[derive(PartialEq, Eq, Structural, Clone, Copy, Debug)]
pub struct DockConfig {
    pub mode: Mode,
    pub target: Target,
    /// The configured capture delay, put on the chip.
    pub delay_secs: u64,
    pub show_pointer: bool,
    pub format: RecordingFormat,
    pub record_audio: bool,
    pub show_recording_hud: bool,
}

/// The dock as configured.
pub open spec fn initial_dock(c: DockConfig) -> DockState {
    DockState {
        mode: c.mode,
        target: c.target,
        delay_secs: c.delay_secs,
        pointer_on: c.show_pointer,
        format: c.format,
        audio: c.record_audio,
        show_hud: c.show_recording_hud,
    }
}

/// The record-only rows of the popover (format, audio, HUD) show in
/// record mode only.
pub open spec fn record_rows_visible(s: DockState) -> bool {
    s.mode == Mode::Record
}

/// Whether format `f`'s toggle is active.
pub open spec fn format_active(s: DockState, f: RecordingFormat) -> bool {
    s.format == f
}

/// The pointer toggle is enabled in screenshot mode only.
pub open spec fn pointer_enabled_spec(s: DockState) -> bool {
    s.mode == Mode::Screenshot
}

/// Whether preset `p`'s toggle is active.
pub open spec fn preset_active(s: DockState, p: DelayPreset) -> bool {
    preset_secs_spec(p) == s.delay_secs
}

/// The chip's label.
pub open spec fn chip_text(s: DockState) -> Seq<char> {
    delay_label_text(s.delay_secs)
}

/// What the fire button starts from the dock's state.
pub open spec fn fire_request_spec(s: DockState) -> FireRequest {
    match s.mode {
        Mode::Screenshot => FireRequest::Capture {
            target: s.target,
            delay_secs: s.delay_secs,
            pointer: s.pointer_on,
        },
        Mode::Record => FireRequest::Record {
            target: s.target,
            delay_secs: s.delay_secs,
            format: s.format,
            audio: s.audio,
            show_hud: s.show_hud,
        },
    }
}

/// A command applied to the dock: the new state and what is left to do.
/// Target and mode picks switch the group's active toggle; the chip cycles
/// the delay; the pointer toggles only while enabled.
pub open spec fn apply_spec(s: DockState, c: DockCommand) -> (DockState, DockEffect) {
    match c {
        DockCommand::Fire => (s, DockEffect::Fire(fire_request_spec(s))),
        DockCommand::SelectTarget(t) => (DockState { target: t, ..s }, DockEffect::Handled),
        DockCommand::SelectMode(m) => (DockState { mode: m, ..s }, DockEffect::Handled),
        DockCommand::CycleDelay => (
            DockState { delay_secs: next_delay_spec(s.delay_secs), ..s },
            DockEffect::Handled,
        ),
        DockCommand::TogglePointer => if pointer_enabled_spec(s) {
            (DockState { pointer_on: !s.pointer_on, ..s }, DockEffect::Handled)
        } else {
            (s, DockEffect::Handled)
        },
        DockCommand::ToggleCheatsheet => (s, DockEffect::ToggleCheatsheet),
        DockCommand::Quit => (s, DockEffect::Quit),
        DockCommand::Swallow => (s, DockEffect::Handled),
        DockCommand::Pass => (s, DockEffect::Pass),
    }
}

/// The dock after preset `p` is chosen.
pub open spec fn with_preset(s: DockState, p: DelayPreset) -> DockState {
    DockState { delay_secs: preset_secs_spec(p), ..s }
}

/// The startup action: switch to its mode and target, then fire.
pub open spec fn startup_spec(s: DockState, a: StartupAction) -> (DockState, FireRequest) {
    let q = match a {
        StartupAction::Screenshot(t) => DockState { mode: Mode::Screenshot, target: t, ..s },
        StartupAction::Record(t) => DockState { mode: Mode::Record, target: t, ..s },
    };
    (q, fire_request_spec(q))
}

impl DockState {
    /// The dock as configured.
    pub fn new(c: DockConfig) -> (s: DockState)
        ensures
            s == initial_dock(c),
    {
        DockState {
            mode: c.mode,
            target: c.target,
            delay_secs: c.delay_secs,
            pointer_on: c.show_pointer,
            format: c.format,
            audio: c.record_audio,
            show_hud: c.show_recording_hud,
        }
    }

    /// Whether the record-only popover rows show.
    pub fn record_rows_visible(&self) -> (b: bool)
        ensures
            b == record_rows_visible(*self),
    {
        self.mode == Mode::Record
    }

    /// A format toggle clicked: it becomes the one active format (clicking
    /// the active one keeps it active).
    pub fn choose_format(&mut self, f: RecordingFormat)
        ensures
            *final(self) == (DockState { format: f, ..*old(self) }),
    {
        self.format = f;
    }

    /// The popover's audio switch.
    pub fn set_audio(&mut self, on: bool)
        ensures
            *final(self) == (DockState { audio: on, ..*old(self) }),
    {
        self.audio = on;
    }

    /// The popover's recording-HUD switch.
    pub fn set_show_hud(&mut self, on: bool)
        ensures
            *final(self) == (DockState { show_hud: on, ..*old(self) }),
    {
        self.show_hud = on;
    }

    /// Whether the pointer toggle (and its `P` key) is enabled.
    pub fn pointer_enabled(&self) -> (b: bool)
        ensures
            b == pointer_enabled_spec(*self),
    {
        self.mode == Mode::Screenshot
    }

    /// What the fire button starts now.
    pub fn fire_request(&self) -> (r: FireRequest)
        ensures
            r == fire_request_spec(*self),
    {
        match self.mode {
            Mode::Screenshot => FireRequest::Capture {
                target: self.target,
                delay_secs: self.delay_secs,
                pointer: self.pointer_on,
            },
            Mode::Record => FireRequest::Record {
                target: self.target,
                delay_secs: self.delay_secs,
                format: self.format,
                audio: self.audio,
                show_hud: self.show_hud,
            },
        }
    }

    /// The delay chip's label.
    pub fn chip_label(&self) -> (out: String)
        ensures
            out@ == chip_text(*self),
    {
        delay_label(self.delay_secs)
    }

    /// Applies a command (a shortcut, or the click it stands for).
    pub fn apply(&mut self, c: DockCommand) -> (e: DockEffect)
        ensures
            (*final(self), e) == apply_spec(*old(self), c),
    {
        match c {
            DockCommand::Fire => DockEffect::Fire(self.fire_request()),
            DockCommand::SelectTarget(t) => {
                self.target = t;
                DockEffect::Handled
            },
            DockCommand::SelectMode(m) => {
                self.mode = m;
                DockEffect::Handled
            },
            DockCommand::CycleDelay => {
                self.delay_secs = next_delay(self.delay_secs);
                DockEffect::Handled
            },
            DockCommand::TogglePointer => {
                if self.pointer_enabled() {
                    self.pointer_on = !self.pointer_on;
                }
                DockEffect::Handled
            },
            DockCommand::ToggleCheatsheet => DockEffect::ToggleCheatsheet,
            DockCommand::Quit => DockEffect::Quit,
            DockCommand::Swallow => DockEffect::Handled,
            DockCommand::Pass => DockEffect::Pass,
        }
    }

    /// A key pressed on the dock, with the fire button enabled or not.
    pub fn key_pressed(&mut self, key: DockKey, fire_enabled: bool) -> (e: DockEffect)
        ensures
            (*final(self), e) == apply_spec(
                *old(self),
                dock_command_spec(key, fire_enabled, pointer_enabled_spec(*old(self))),
            ),
    {
        let pointer = self.pointer_enabled();
        let c = dock_command(key, fire_enabled, pointer);
        self.apply(c)
    }

    /// A preset clicked in the quick-settings popover; clicking the active
    /// preset keeps it active.
    pub fn choose_preset(&mut self, p: DelayPreset)
        ensures
            *final(self) == with_preset(*old(self), p),
    {
        self.delay_secs = preset_secs(p);
    }

    /// The popover's pointer switch (it stays usable in record mode, where
    /// it only sets what the next screenshot uses).
    pub fn set_pointer(&mut self, on: bool)
        ensures
            *final(self) == (DockState { pointer_on: on, ..*old(self) }),
    {
        self.pointer_on = on;
    }

    /// Runs a startup action: the mode and target it names, then the fire
    /// button.
    pub fn startup(&mut self, a: StartupAction) -> (r: FireRequest)
        ensures
            (*final(self), r) == startup_spec(*old(self), a),
    {
        match a {
            StartupAction::Screenshot(t) => {
                self.mode = Mode::Screenshot;
                self.target = t;
            },
            StartupAction::Record(t) => {
                self.mode = Mode::Record;
                self.target = t;
            },
        }
        self.fire_request()
    }
}

} // verus!

verus! {

/// Exactly one preset toggle is active, and it is `p`.
pub open spec fn only_preset_active(s: DockState, p: DelayPreset) -> bool {
    &&& preset_active(s, p)
    &&& forall|q: DelayPreset| #[trigger] preset_active(s, q) ==> q == p
}

/// The preset whose seconds are `v`, for a preset value.
pub open spec fn preset_of(v: u64) -> DelayPreset {
    if v == 0 {
        DelayPreset::Now
    } else if v == 3 {
        DelayPreset::Three
    } else if v == 5 {
        DelayPreset::Five
    } else {
        DelayPreset::Ten
    }
}

/// The delay chip and the presets stay in step: a chip click (or `D`)
/// moves the delay to the next preset, after which exactly that preset's
/// toggle is active and the chip names it; choosing a preset sets the delay
/// to its seconds, leaves exactly that toggle active and puts its label on
/// the chip. Once the delay is a preset (it is unless the configured delay
/// is another value), every command keeps exactly one preset active.
pub proof fn law_delay_chip_and_presets(s: DockState, p: DelayPreset, c: DockCommand)
    ensures
        apply_spec(s, DockCommand::CycleDelay).0.delay_secs == next_delay_spec(s.delay_secs),
        only_preset_active(
            apply_spec(s, DockCommand::CycleDelay).0,
            preset_of(next_delay_spec(s.delay_secs)),
        ),
        chip_text(apply_spec(s, DockCommand::CycleDelay).0) == delay_label_text(
            next_delay_spec(s.delay_secs),
        ),
        with_preset(s, p).delay_secs == preset_secs_spec(p),
        only_preset_active(with_preset(s, p), p),
        chip_text(with_preset(s, p)) == delay_label_text(preset_secs_spec(p)),
        is_preset(s.delay_secs) ==> only_preset_active(
            apply_spec(s, c).0,
            preset_of(apply_spec(s, c).0.delay_secs),
        ),
{
}

/// The pointer toggle is disabled in record mode: there `P` is swallowed
/// and no command changes the pointer setting.
pub proof fn law_record_mode_pointer_disabled(s: DockState, c: DockCommand, fire_enabled: bool)
    requires
        s.mode == Mode::Record,
    ensures
        !pointer_enabled_spec(s),
        dock_command_spec(DockKey::Letter('p'), fire_enabled, pointer_enabled_spec(s))
            == DockCommand::Swallow,
        dock_command_spec(DockKey::Letter('P'), fire_enabled, pointer_enabled_spec(s))
            == DockCommand::Swallow,
        apply_spec(s, c).0.pointer_on == s.pointer_on,
{
}

/// One mode and one target are selected at a time: picking a target or a
/// mode replaces the previous one, leaves the other group and the delay as
/// they were, and the fire button then starts that mode on that target.
pub proof fn law_fire_uses_selection(s: DockState, t: Target, m: Mode)
    ensures
        apply_spec(apply_spec(s, DockCommand::SelectTarget(t)).0, DockCommand::SelectMode(m)).0
            == (DockState { mode: m, target: t, ..s }),
        apply_spec(
            apply_spec(apply_spec(s, DockCommand::SelectTarget(t)).0, DockCommand::SelectMode(m)).0,
            DockCommand::Fire,
        ).1 == DockEffect::Fire(
            if m == Mode::Screenshot {
                FireRequest::Capture { target: t, delay_secs: s.delay_secs, pointer: s.pointer_on }
            } else {
                FireRequest::Record {
                    target: t,
                    delay_secs: s.delay_secs,
                    format: s.format,
                    audio: s.audio,
                    show_hud: s.show_hud,
                }
            },
        ),
{
}

/// The startup action fires once, in the mode and on the target it names,
/// with the dock's delay.
pub proof fn law_startup_fires_its_action(s: DockState, a: StartupAction)
    ensures
        match a {
            StartupAction::Screenshot(t) => startup_spec(s, a).1 == FireRequest::Capture {
                target: t,
                delay_secs: s.delay_secs,
                pointer: s.pointer_on,
            },
            StartupAction::Record(t) => startup_spec(s, a).1 == FireRequest::Record {
                target: t,
                delay_secs: s.delay_secs,
                format: s.format,
                audio: s.audio,
                show_hud: s.show_hud,
            },
        },
{
}

} // verus!

verus! {

/// The format toggles are exclusive: exactly one is active, choosing one
/// makes it the active one, and the recording starts in it; shortcuts and
/// the other settings leave the format as it is.
pub proof fn law_one_format_active(s: DockState, f: RecordingFormat, c: DockCommand)
    ensures
        format_active(s, RecordingFormat::Mp4) != format_active(s, RecordingFormat::Webm),
        format_active(DockState { format: f, ..s }, f),
        forall|g: RecordingFormat| #[trigger] format_active(DockState { format: f, ..s }, g) ==> g == f,
        apply_spec(s, c).0.format == s.format,
        apply_spec(s, c).0.audio == s.audio,
        apply_spec(s, c).0.show_hud == s.show_hud,
        s.mode == Mode::Record ==> (fire_request_spec(DockState { format: f, ..s }) matches FireRequest::Record { format, .. } && format == f),
{
}

} // verus!

verus! {

/// A leading `0` does not change what a digit string reads.
proof fn lemma_leading_zero(t: Seq<char>)
    ensures
        digits_value(seq!['0'] + t) == digits_value(t),
    decreases t.len(),
{
    let z = seq!['0'] + t;
    if t.len() == 0 {
        assert(z.drop_last() =~= Seq::<char>::empty());
        assert(digits_value(Seq::<char>::empty()) == 0);
        assert(z.last() == '0');
        assert(digits_value(z) == digits_value(z.drop_last()) * 10 + digit_value(z.last()));
    } else {
        assert(z.drop_last() =~= seq!['0'] + t.drop_last());
        assert(z.last() == t.last());
        lemma_leading_zero(t.drop_last());
    }
}

/// The decimal text of a number of at least 10 has two or more digits and
/// does not start with `0`; below 100 it has exactly two.
proof fn lemma_nat_text_shape(n: nat)
    ensures
        n < 10 ==> nat_text(n).len() == 1,
        n >= 10 ==> nat_text(n).len() >= 2 && nat_text(n)[0] != '0',
        10 <= n < 100 ==> nat_text(n).len() == 2,
    decreases n,
{
    if n >= 10 {
        lemma_nat_text_shape(n / 10);
        lemma_nat_text(n / 10);
        let p = nat_text(n / 10);
        assert(nat_text(n)[0] == p[0]);
        if n / 10 < 10 {
            assert(p[0] != '0');
        }
    }
}

/// `two_digits(n)`: at least two digits reading `n`, padded with one `0`
/// below 10 and not padded otherwise.
proof fn lemma_two_digits(n: nat)
    ensures
        all_digits(two_digits(n)),
        digits_value(two_digits(n)) == n,
        two_digits(n).len() >= 2,
        n < 100 ==> two_digits(n).len() == 2,
        two_digits(n).len() == 2 || two_digits(n)[0] != '0',
{
    reveal_strlit("0");
    lemma_nat_text(n);
    lemma_nat_text_shape(n);
    if n < 10 {
        let t = nat_text(n);
        assert("0"@ =~= seq!['0']);
        lemma_leading_zero(t);
        assert forall|i: int| 0 <= i < two_digits(n).len() implies is_digit(#[trigger] two_digits(n)[i]) by {
            if i > 0 {
                assert(two_digits(n)[i] == t[i - 1]);
            }
        }
    }
}

/// The HUD timer reads minutes, a colon and seconds: the seconds are
/// exactly two digits reading `secs % 60`; the minutes are at least two
/// digits reading `secs / 60`, with a leading `0` only to make two.
pub proof fn law_timer_label_reads_minutes_and_seconds(secs: nat)
    ensures
        ({
            let t = timer_text(secs);
            let m = t.take(t.len() - 3);
            let s = t.skip(t.len() - 2);
            &&& t.len() >= 5
            &&& t[t.len() - 3] == ':'
            &&& all_digits(s) && digits_value(s) == secs % 60
            &&& all_digits(m) && digits_value(m) == secs / 60
            &&& m.len() >= 2
            &&& (m.len() == 2 || m[0] != '0')
        }),
{
    reveal_strlit(":");
    let mm = two_digits(secs / 60);
    let ss = two_digits(secs % 60);
    lemma_two_digits(secs / 60);
    lemma_two_digits(secs % 60);
    let t = timer_text(secs);
    assert(t == mm + ":"@ + ss);
    assert(t.len() == mm.len() + 1 + 2);
    assert(t.take(t.len() - 3) =~= mm);
    assert(t.skip(t.len() - 2) =~= ss);
    assert(t[t.len() - 3] == ':');
}

} // verus!
