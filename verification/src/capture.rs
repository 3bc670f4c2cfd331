//! Screenshot target selection: the choice lists handed to `slurp -r`, and
//! the resolution of what slurp returns (the processes stay outside).

use vstd::prelude::*;

use crate::geometry::{parse_region, push_region, region_of, region_text};
use crate::text::{chars_of, push_char, push_str, str_eq, trim, trim_range, string_of_range};

verus! {

/// One entry of `hyprctl monitors -j`, with the size already divided by
/// the monitor's scale (logical pixels).
pub struct MonitorInfo {
    pub id: i32,
    pub name: String,
    pub disabled: bool,
    pub x: i32,
    pub y: i32,
    pub width: i32,
    pub height: i32,
    pub active_workspace: i32,
}

/// A monitor that can be picked as a capture target.
pub struct MonitorTarget {
    pub name: String,
    pub x: i32,
    pub y: i32,
    pub width: i32,
    pub height: i32,
}

/// One entry of `hyprctl clients -j`.
pub struct ClientInfo {
    pub mapped: bool,
    pub hidden: bool,
    pub class: String,
    pub title: String,
    pub monitor: i32,
    pub workspace: i32,
    /// Top-left corner `(x, y)`.
    pub at: (i32, i32),
    /// `(width, height)`.
    pub size: (i32, i32),
}

/// Which interactive selection produced a result.
#[derive(PartialEq, Eq, Structural, Clone, Copy, Debug)]
pub enum SelectionKind {
    Area,
    Window,
    Monitor,
}

/// Why a screenshot selection could not be resolved.
#[derive(PartialEq, Eq, Structural, Clone, Copy, Debug)]
pub enum CaptureError {
    /// No enabled monitor to choose from.
    NoEligibleMonitors,
    /// No visible window to choose from.
    NoEligibleWindows,
    /// The selection is not an `"x,y wxh"` geometry.
    InvalidGeometry,
    /// The selected rectangle matches no monitor.
    UnresolvedMonitor,
    /// The selection tool returned nothing.
    EmptySelection(SelectionKind),
}

impl CaptureError {
    /// The message shown to the user.
    pub fn message(&self) -> (m: String)
        ensures
            *self == CaptureError::NoEligibleMonitors ==> m@ == "no eligible monitors found"@,
            *self == CaptureError::NoEligibleWindows ==> m@ == "no eligible windows found"@,
            *self == CaptureError::InvalidGeometry ==> m@ == "invalid selection geometry"@,
            *self == CaptureError::UnresolvedMonitor ==> m@
                == "selected monitor could not be resolved"@,
            *self == CaptureError::EmptySelection(SelectionKind::Area) ==> m@
                == "area selection returned no geometry"@,
            *self == CaptureError::EmptySelection(SelectionKind::Window) ==> m@
                == "window selection returned no geometry"@,
            *self == CaptureError::EmptySelection(SelectionKind::Monitor) ==> m@
                == "monitor selection returned no geometry"@,
    {
        match self {
            CaptureError::NoEligibleMonitors => String::from_str("no eligible monitors found"),
            CaptureError::NoEligibleWindows => String::from_str("no eligible windows found"),
            CaptureError::InvalidGeometry => String::from_str("invalid selection geometry"),
            CaptureError::UnresolvedMonitor => String::from_str(
                "selected monitor could not be resolved",
            ),
            CaptureError::EmptySelection(SelectionKind::Area) => String::from_str(
                "area selection returned no geometry",
            ),
            CaptureError::EmptySelection(SelectionKind::Window) => String::from_str(
                "window selection returned no geometry",
            ),
            CaptureError::EmptySelection(SelectionKind::Monitor) => String::from_str(
                "monitor selection returned no geometry",
            ),
        }
    }
}

/// The target a monitor entry describes.
pub open spec fn target_of(m: MonitorInfo) -> MonitorTarget {
    MonitorTarget { name: m.name, x: m.x, y: m.y, width: m.width, height: m.height }
}

/// The enabled monitors among `ms`, as capture targets, in order.
pub open spec fn targets_of(ms: Seq<MonitorInfo>) -> Seq<MonitorTarget>
    decreases ms.len(),
{
    if ms.len() == 0 {
        Seq::empty()
    } else if ms.last().disabled {
        targets_of(ms.drop_last())
    } else {
        targets_of(ms.drop_last()).push(target_of(ms.last()))
    }
}

/// The monitors that can be captured: every enabled one, in order.
pub fn available_monitors(monitors: &Vec<MonitorInfo>) -> (out: Vec<MonitorTarget>)
    ensures
        out@ == targets_of(monitors@),
{
    let mut out: Vec<MonitorTarget> = Vec::new();
    let mut i: usize = 0;
    while i < monitors.len()
        invariant
            i <= monitors.len(),
            out@ == targets_of(monitors@.take(i as int)),
        decreases monitors.len() - i,
    {
        let m = &monitors[i];
        assert(monitors@.take(i + 1).drop_last() =~= monitors@.take(i as int));
        if !m.disabled {
            out.push(
                MonitorTarget {
                    name: m.name.clone(),
                    x: m.x,
                    y: m.y,
                    width: m.width,
                    height: m.height,
                },
            );
        }
        i += 1;
    }
    assert(monitors@.take(monitors.len() as int) =~= monitors@);
    out
}

/// The `slurp -r` line offered for a monitor: its rectangle.
pub open spec fn monitor_choice_text(m: MonitorTarget) -> Seq<char> {
    region_text(m.x as int, m.y as int, m.width as int, m.height as int)
}

/// The views of a list of strings.
pub open spec fn texts(v: Seq<String>) -> Seq<Seq<char>> {
    v.map_values(|s: String| s@)
}

/// One `slurp -r` line per monitor, in order; an error when there is no
/// monitor to choose from.
pub fn monitor_choices(monitors: &Vec<MonitorTarget>) -> (r: Result<Vec<String>, CaptureError>)
    ensures
        match r {
            Ok(v) => monitors@.len() > 0 && texts(v@) == monitors@.map_values(
                |m: MonitorTarget| monitor_choice_text(m),
            ),
            Err(e) => monitors@.len() == 0 && e == CaptureError::NoEligibleMonitors,
        },
{
    if monitors.len() == 0 {
        return Err(CaptureError::NoEligibleMonitors);
    }
    let mut out: Vec<String> = Vec::new();
    let mut i: usize = 0;
    while i < monitors.len()
        invariant
            i <= monitors.len(),
            texts(out@) == monitors@.take(i as int).map_values(
                |m: MonitorTarget| monitor_choice_text(m),
            ),
        decreases monitors.len() - i,
    {
        let m = &monitors[i];
        let mut line = String::new();
        push_region(&mut line, m.x, m.y, m.width, m.height);
        assert(line@ =~= monitor_choice_text(*m));
        let ghost before = out@;
        out.push(line);
        assert(texts(out@) =~= texts(before).push(monitor_choice_text(monitors@[i as int])));
        assert(texts(out@) =~= monitors@.take(i + 1).map_values(
            |m: MonitorTarget| monitor_choice_text(m),
        ));
        i += 1;
    }
    assert(monitors@.take(monitors.len() as int) =~= monitors@);
    Ok(out)
}

/// `i` is the first monitor whose rectangle is `r`.
pub open spec fn is_first_at(ms: Seq<MonitorTarget>, r: (i32, i32, i32, i32), i: int) -> bool {
    &&& 0 <= i < ms.len()
    &&& (ms[i].x, ms[i].y, ms[i].width, ms[i].height) == r
    &&& forall|j: int| 0 <= j < i ==> (ms[j].x, ms[j].y, ms[j].width, ms[j].height) != r
}

/// The name of the first monitor whose rectangle is `r`.
pub open spec fn first_name_at(ms: Seq<MonitorTarget>, r: (i32, i32, i32, i32)) -> Seq<char> {
    ms[choose|i: int| is_first_at(ms, r, i)].name@
}

/// The monitor name a selection resolves to.
pub open spec fn selected_monitor(ms: Seq<MonitorTarget>, g: Seq<char>) -> Result<
    Seq<char>,
    CaptureError,
> {
    if ms.len() == 0 {
        Err(CaptureError::NoEligibleMonitors)
    } else {
        match region_of(g) {
            None => Err(CaptureError::InvalidGeometry),
            Some(r) => if exists|i: int| is_first_at(ms, r, i) {
                Ok(first_name_at(ms, r))
            } else {
                Err(CaptureError::UnresolvedMonitor)
            },
        }
    }
}

/// Resolves the rectangle slurp returned to the name of the first monitor
/// with exactly that rectangle.
pub fn select_monitor(monitors: &Vec<MonitorTarget>, geometry: &str) -> (r: Result<
    String,
    CaptureError,
>)
    ensures
        match r {
            Ok(s) => selected_monitor(monitors@, geometry@) == Ok::<Seq<char>, CaptureError>(s@),
            Err(e) => selected_monitor(monitors@, geometry@) == Err::<Seq<char>, CaptureError>(e),
        },
{
    if monitors.len() == 0 {
        return Err(CaptureError::NoEligibleMonitors);
    }
    let (x, y, w, h) = match parse_region(geometry) {
        Some(r) => r,
        None => return Err(CaptureError::InvalidGeometry),
    };
    let ghost r = (x, y, w, h);
    let mut i: usize = 0;
    while i < monitors.len()
        invariant
            i <= monitors.len(),
            monitors.len() > 0,
            r == (x, y, w, h),
            region_of(geometry@) == Some(r),
            forall|j: int|
                0 <= j < i ==> (monitors@[j].x, monitors@[j].y, monitors@[j].width,
                monitors@[j].height) != r,
        decreases monitors.len() - i,
    {
        let m = &monitors[i];
        if m.x == x && m.y == y && m.width == w && m.height == h {
            let name = m.name.clone();
            proof {
                assert(is_first_at(monitors@, r, i as int));
                let k = choose|k: int| is_first_at(monitors@, r, k);
                if k < i {
                    assert((monitors@[k].x, monitors@[k].y, monitors@[k].width,
                    monitors@[k].height) != r);
                }
                if k > i {
                    assert((monitors@[i as int].x, monitors@[i as int].y,
                    monitors@[i as int].width, monitors@[i as int].height) != r);
                }
                assert(k == i);
                assert(first_name_at(monitors@, r) == name@);
                // the selection's rectangle, as `selected_monitor` names it
                let rr = region_of(geometry@).unwrap();
                assert(is_first_at(monitors@, rr, i as int));
            }
            return Ok(name);
        }
        i += 1;
    }
    proof {
        if exists|k: int| is_first_at(monitors@, r, k) {
            let k = choose|k: int| is_first_at(monitors@, r, k);
            assert((monitors@[k].x, monitors@[k].y, monitors@[k].width, monitors@[k].height) != r);
        }
    }
    Err(CaptureError::UnresolvedMonitor)
}

/// What a selection tool printed, trimmed; an error when nothing is left.
pub open spec fn selection_spec(out: Seq<char>, kind: SelectionKind) -> Result<Seq<char>, CaptureError> {
    if trim(out).len() == 0 {
        Err(CaptureError::EmptySelection(kind))
    } else {
        Ok(trim(out))
    }
}

/// The geometry a selection tool printed, trimmed; an error for empty output.
pub fn selection_geometry(stdout: &str, kind: SelectionKind) -> (r: Result<String, CaptureError>)
    ensures
        match r {
            Ok(s) => selection_spec(stdout@, kind) == Ok::<Seq<char>, CaptureError>(s@),
            Err(e) => selection_spec(stdout@, kind) == Err::<Seq<char>, CaptureError>(e),
        },
{
    let v = chars_of(stdout);
    let (a, b) = trim_range(&v, 0, v.len());
    assert(v@.subrange(0, v@.len() as int) =~= v@);
    if a == b {
        Err(CaptureError::EmptySelection(kind))
    } else {
        Ok(string_of_range(&v, a, b))
    }
}

} // verus!

verus! {

/// The active workspace of monitor `id`: that of the last enabled monitor
/// entry with this id.
pub open spec fn active_workspace(ms: Seq<MonitorInfo>, id: i32) -> Option<i32>
    decreases ms.len(),
{
    if ms.len() == 0 {
        None
    } else if !ms.last().disabled && ms.last().id == id {
        Some(ms.last().active_workspace)
    } else {
        active_workspace(ms.drop_last(), id)
    }
}

/// A client that can be picked: mapped, not hidden, not Hyprscreen itself,
/// with a positive size, on the active workspace of its monitor.
pub open spec fn eligible_window(ms: Seq<MonitorInfo>, c: ClientInfo, own_class: Seq<char>) -> bool {
    &&& c.mapped
    &&& !c.hidden
    &&& c.class@ != own_class
    &&& c.size.0 > 0
    &&& c.size.1 > 0
    &&& active_workspace(ms, c.monitor) == Some(c.workspace)
}

/// `s` with every newline replaced by a space.
pub open spec fn one_line(s: Seq<char>) -> Seq<char> {
    s.map_values(|ch: char| if ch == '\n' { ' ' } else { ch })
}

/// The label of a window: its class, then ` - ` and its title on one line
/// when it has a title.
pub open spec fn window_label(c: ClientInfo) -> Seq<char> {
    if c.title@.len() == 0 {
        c.class@
    } else {
        c.class@ + " - "@ + one_line(c.title@)
    }
}

/// The `slurp -r` line offered for a window: its rectangle and its label.
pub open spec fn window_choice_text(c: ClientInfo) -> Seq<char> {
    region_text(c.at.0 as int, c.at.1 as int, c.size.0 as int, c.size.1 as int) + " "@
        + window_label(c)
}

/// The lines offered for the eligible windows among `cs`, in order.
pub open spec fn window_choice_texts(ms: Seq<MonitorInfo>, cs: Seq<ClientInfo>, own_class: Seq<char>) -> Seq<Seq<char>>
    decreases cs.len(),
{
    if cs.len() == 0 {
        Seq::empty()
    } else if eligible_window(ms, cs.last(), own_class) {
        window_choice_texts(ms, cs.drop_last(), own_class).push(window_choice_text(cs.last()))
    } else {
        window_choice_texts(ms, cs.drop_last(), own_class)
    }
}

fn workspace_of(monitors: &Vec<MonitorInfo>, id: i32) -> (r: Option<i32>)
    ensures
        r == active_workspace(monitors@, id),
{
    let mut found: Option<i32> = None;
    let mut i: usize = 0;
    while i < monitors.len()
        invariant
            i <= monitors.len(),
            found == active_workspace(monitors@.take(i as int), id),
        decreases monitors.len() - i,
    {
        assert(monitors@.take(i + 1).drop_last() =~= monitors@.take(i as int));
        if !monitors[i].disabled && monitors[i].id == id {
            found = Some(monitors[i].active_workspace);
        }
        i += 1;
    }
    assert(monitors@.take(monitors.len() as int) =~= monitors@);
    found
}

fn push_one_line(s: &mut String, t: &str)
    ensures
        final(s)@ == old(s)@ + one_line(t@),
{
    let v = chars_of(t);
    let ghost start = s@;
    let mut i: usize = 0;
    while i < v.len()
        invariant
            i <= v.len(),
            v@ == t@,
            s@ == start + one_line(v@.take(i as int)),
        decreases v.len() - i,
    {
        let c = v[i];
        push_char(s, if c == '\n' { ' ' } else { c });
        assert(one_line(v@.take(i + 1)) =~= one_line(v@.take(i as int)).push(
            if c == '\n' { ' ' } else { c },
        ));
        i += 1;
    }
    assert(v@.take(v.len() as int) =~= v@);
}

fn window_line(c: &ClientInfo) -> (out: String)
    ensures
        out@ == window_choice_text(*c),
{
    let mut s = String::new();
    push_region(&mut s, c.at.0, c.at.1, c.size.0, c.size.1);
    push_str(&mut s, " ");
    push_str(&mut s, c.class.as_str());
    if c.title.as_str().is_empty() {
        assert(s@ =~= window_choice_text(*c));
    } else {
        push_str(&mut s, " - ");
        push_one_line(&mut s, c.title.as_str());
        assert(s@ =~= window_choice_text(*c));
    }
    s
}

/// One `slurp -r` line per visible window (`x,y wxh class - title`), in
/// client order; `own_class` is Hyprscreen's own window class, which is
/// never offered. An error when no window qualifies.
pub fn window_choices(
    monitors: &Vec<MonitorInfo>,
    clients: &Vec<ClientInfo>,
    own_class: &str,
) -> (r: Result<Vec<String>, CaptureError>)
    ensures
        match r {
            Ok(v) => texts(v@) == window_choice_texts(monitors@, clients@, own_class@) && v@.len()
                > 0,
            Err(e) => window_choice_texts(monitors@, clients@, own_class@).len() == 0 && e
                == CaptureError::NoEligibleWindows,
        },
{
    let mut out: Vec<String> = Vec::new();
    let mut i: usize = 0;
    while i < clients.len()
        invariant
            i <= clients.len(),
            texts(out@) == window_choice_texts(monitors@, clients@.take(i as int), own_class@),
        decreases clients.len() - i,
    {
        let c = &clients[i];
        assert(clients@.take(i + 1).drop_last() =~= clients@.take(i as int));
        assert(clients@.take(i + 1).last() == *c);
        let eligible = c.mapped && !c.hidden && !str_eq(c.class.as_str(), own_class)
            && c.size.0 > 0 && c.size.1 > 0 && match workspace_of(monitors, c.monitor) {
            Some(ws) => ws == c.workspace,
            None => false,
        };
        if eligible {
            let line = window_line(c);
            let ghost before = out@;
            out.push(line);
            assert(texts(out@) =~= texts(before).push(window_choice_text(*c)));
        }
        i += 1;
    }
    assert(clients@.take(clients.len() as int) =~= clients@);
    if out.len() == 0 {
        assert(texts(out@).len() == 0);
        Err(CaptureError::NoEligibleWindows)
    } else {
        Ok(out)
    }
}

} // verus!

verus! {

/// The rectangle of a capture target.
pub open spec fn rect_of(m: MonitorTarget) -> (i32, i32, i32, i32) {
    (m.x, m.y, m.width, m.height)
}

/// Picking the line offered for monitor `i` resolves to the first monitor
/// with the same rectangle, which is monitor `i` itself when no earlier
/// monitor shares its rectangle.
pub proof fn law_monitor_choice_resolves(ms: Seq<MonitorTarget>, i: int)
    requires
        0 <= i < ms.len(),
    ensures
        selected_monitor(ms, monitor_choice_text(ms[i])) == Ok::<Seq<char>, CaptureError>(
            first_name_at(ms, rect_of(ms[i])),
        ),
        (forall|j: int| 0 <= j < i ==> rect_of(#[trigger] ms[j]) != rect_of(ms[i]))
            ==> selected_monitor(ms, monitor_choice_text(ms[i])) == Ok::<Seq<char>, CaptureError>(
            ms[i].name@,
        ),
{
    let m = ms[i];
    let r = rect_of(m);
    crate::geometry::law_region_round_trip(m.x, m.y, m.width, m.height);
    let g = monitor_choice_text(m);
    assert(region_of(g) == Some(r));
    lemma_first_match_exists(ms, r, i);
    let rr = region_of(g).unwrap();
    assert(rr == r);
    if forall|j: int| 0 <= j < i ==> rect_of(#[trigger] ms[j]) != rect_of(ms[i]) {
        assert(is_first_at(ms, r, i)) by {
            assert forall|j: int| 0 <= j < i implies (ms[j].x, ms[j].y, ms[j].width,
                ms[j].height) != r by {
                assert(rect_of(ms[j]) != rect_of(ms[i]));
            }
        }
        let c = choose|c: int| is_first_at(ms, r, c);
        if c < i {
            assert(rect_of(ms[c]) != rect_of(ms[i]));
        }
        if c > i {
            assert((ms[i].x, ms[i].y, ms[i].width, ms[i].height) != r);
        }
    }
}

/// When monitor `i` has rectangle `r`, some monitor at or before `i` is the
/// first with rectangle `r`.
pub proof fn lemma_first_match_exists(ms: Seq<MonitorTarget>, r: (i32, i32, i32, i32), i: int)
    requires
        0 <= i < ms.len(),
        (ms[i].x, ms[i].y, ms[i].width, ms[i].height) == r,
    ensures
        exists|j: int| 0 <= j <= i && is_first_at(ms, r, j),
    decreases i,
{
    if exists|j: int| 0 <= j < i && (ms[j].x, ms[j].y, ms[j].width, ms[j].height) == r {
        let j = choose|j: int| 0 <= j < i && (ms[j].x, ms[j].y, ms[j].width, ms[j].height) == r;
        lemma_first_match_exists(ms, r, j);
    } else {
        assert(is_first_at(ms, r, i));
    }
}

} // verus!

verus! {

/// The timestamp part of a generated file name: the configured format's
/// output when it produced something, the fallback format's otherwise.
pub open spec fn stamp_text(stamp: Option<Seq<char>>, fallback: Seq<char>) -> Seq<char> {
    match stamp {
        Some(s) => if s.len() > 0 {
            s
        } else {
            fallback
        },
        None => fallback,
    }
}

/// `<prefix>-<timestamp>.<extension>`, where `stamp` is the current time in
/// the configured format (`None` when formatting failed) and `fallback` the
/// current time as `%H%M%S%d%m%Y`.
pub fn generated_filename(prefix: &str, stamp: Option<&str>, fallback: &str, extension: &str) -> (out: String)
    ensures
        out@ == prefix@ + "-"@ + stamp_text(
            match stamp {
                Some(s) => Some(s@),
                None => None,
            },
            fallback@,
        ) + "."@ + extension@,
{
    let mut s = String::new();
    push_str(&mut s, prefix);
    push_str(&mut s, "-");
    match stamp {
        Some(t) => {
            if t.is_empty() {
                push_str(&mut s, fallback);
            } else {
                push_str(&mut s, t);
            }
        },
        None => push_str(&mut s, fallback),
    }
    push_str(&mut s, ".");
    push_str(&mut s, extension);
    s
}

} // verus!

verus! {

/// Hyprscreen's own windows are never offered for window selection.
pub proof fn law_own_window_never_offered(ms: Seq<MonitorInfo>, cs: Seq<ClientInfo>, own_class: Seq<char>)
    requires
        forall|i: int| 0 <= i < cs.len() ==> (#[trigger] cs[i]).class@ == own_class,
    ensures
        window_choice_texts(ms, cs, own_class).len() == 0,
    decreases cs.len(),
{
    if cs.len() > 0 {
        assert(cs.last().class@ == own_class);
        let p = cs.drop_last();
        assert forall|i: int| 0 <= i < p.len() implies (#[trigger] p[i]).class@ == own_class by {
            assert(p[i] == cs[i]);
        }
        law_own_window_never_offered(ms, p, own_class);
    }
}

/// A window is offered exactly when it is eligible: the offered lines are
/// never more than the clients, and a single eligible client yields its own
/// line.
pub proof fn law_window_offered_iff_eligible(ms: Seq<MonitorInfo>, c: ClientInfo, own_class: Seq<char>)
    ensures
        window_choice_texts(ms, seq![c], own_class) == (if eligible_window(ms, c, own_class) {
            seq![window_choice_text(c)]
        } else {
            Seq::<Seq<char>>::empty()
        }),
{
    let s = seq![c];
    assert(s.drop_last() =~= Seq::<ClientInfo>::empty());
    assert(s.last() == c);
    assert(window_choice_texts(ms, s.drop_last(), own_class) =~= Seq::<Seq<char>>::empty());
    assert(Seq::<Seq<char>>::empty().push(window_choice_text(c)) =~= seq![window_choice_text(c)]);
}

} // verus!

verus! {

/// slurp's colors for a selection in `mode`: the border (`-c`), the
/// selection fill (`-s`) and the dimmed background (`-b`). The border is
/// the mode accent, teal for screenshots and coral for recordings, the
/// fill a faint tint of it.
pub fn slurp_colors(mode: crate::dock::Mode) -> (r: (&'static str, &'static str, &'static str))
    ensures
        mode == crate::dock::Mode::Screenshot ==> r.0@ == "#5ee6d0ff"@ && r.1@ == "#5ee6d01a"@,
        mode == crate::dock::Mode::Record ==> r.0@ == "#ff5d5dff"@ && r.1@ == "#ff5d5d1a"@,
        r.2@ == "#06080c6b"@,
{
    match mode {
        crate::dock::Mode::Screenshot => ("#5ee6d0ff", "#5ee6d01a", "#06080c6b"),
        crate::dock::Mode::Record => ("#ff5d5dff", "#ff5d5d1a", "#06080c6b"),
    }
}

} // verus!

verus! {

/// What grim captures: a geometry (`-g`) or a whole output (`-o`).
pub enum GrimSource {
    Geometry(String),
    Output(String),
}

/// grim's arguments before the output file: `-c` when the pointer is
/// included (the dock's pointer toggle), then the source.
pub open spec fn grim_args_spec(source: GrimSource, pointer: bool) -> Seq<Seq<char>> {
    (if pointer {
        seq!["-c"@]
    } else {
        Seq::empty()
    }) + match source {
        GrimSource::Geometry(g) => seq!["-g"@, g@],
        GrimSource::Output(n) => seq!["-o"@, n@],
    }
}

/// grim's arguments for a screenshot of `source`, with the pointer or not.
pub fn grim_args(source: &GrimSource, pointer: bool) -> (out: Vec<String>)
    ensures
        texts(out@) == grim_args_spec(*source, pointer),
{
    let mut out: Vec<String> = Vec::new();
    if pointer {
        crate::recording::push_owned(&mut out, "-c");
    }
    match source {
        GrimSource::Geometry(g) => {
            crate::recording::push_owned(&mut out, "-g");
            crate::recording::push_owned(&mut out, g.as_str());
        },
        GrimSource::Output(n) => {
            crate::recording::push_owned(&mut out, "-o");
            crate::recording::push_owned(&mut out, n.as_str());
        },
    }
    assert(texts(out@) =~= grim_args_spec(*source, pointer));
    out
}

} // verus!

verus! {

/// An entry that is not disabled.
pub open spec fn info_enabled() -> spec_fn(MonitorInfo) -> bool {
    |m: MonitorInfo| !m.disabled
}

/// The capture targets are the enabled monitor entries, in order: as many
/// targets as enabled entries, and the k-th target has the name, x, y,
/// width and height of the k-th enabled entry.
pub proof fn law_targets_are_enabled_entries(ms: Seq<MonitorInfo>)
    ensures
        targets_of(ms).len() == ms.filter(info_enabled()).len(),
        forall|k: int|
            0 <= k < targets_of(ms).len() ==> {
                let t = #[trigger] targets_of(ms)[k];
                let m = ms.filter(info_enabled())[k];
                &&& t.name == m.name
                &&& t.x == m.x
                &&& t.y == m.y
                &&& t.width == m.width
                &&& t.height == m.height
            },
    decreases ms.len(),
{
    reveal(Seq::filter);
    if ms.len() > 0 {
        law_targets_are_enabled_entries(ms.drop_last());
    }
}

} // verus!

verus! {

/// grim's arguments: `-c` comes first exactly when the pointer is
/// included, then `-g <geometry>` or `-o <output>`; with and without the
/// pointer they differ only by that `-c`.
pub proof fn law_grim_args(source: GrimSource, pointer: bool)
    ensures
        ({
            let r = grim_args_spec(source, pointer);
            let k: int = if pointer {
                1
            } else {
                0
            };
            &&& r.len() == 2 + k
            &&& pointer ==> r[0] == "-c"@
            &&& match source {
                GrimSource::Geometry(g) => r[k] == "-g"@ && r[k + 1] == g@,
                GrimSource::Output(o) => r[k] == "-o"@ && r[k + 1] == o@,
            }
        }),
        grim_args_spec(source, true) == seq!["-c"@] + grim_args_spec(source, false),
{
    assert(grim_args_spec(source, true) =~= seq!["-c"@] + grim_args_spec(source, false));
}

} // verus!
