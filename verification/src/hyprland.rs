//! Hyprland integration: monitors, clients, window rules and dispatch
//! arguments, decided on plain values (the `hyprctl` calls stay outside).

use vstd::prelude::*;

use crate::text::{int_text, push_char, push_i64, push_str, str_eq};

verus! {

/// A usable (enabled) monitor in logical coordinates.
pub struct Monitor {
    pub name: String,
    pub x: i32,
    pub y: i32,
    pub width: i32,
    pub height: i32,
    pub focused: bool,
}

/// One entry of `hyprctl monitors -j`, with the size already divided by
/// the monitor's scale (logical pixels).
pub struct MonitorRecord {
    pub name: String,
    pub disabled: bool,
    pub x: i32,
    pub y: i32,
    pub width: i32,
    pub height: i32,
    pub focused: bool,
}

/// One entry of `hyprctl clients -j`, as far as window lookup needs it.
pub struct HyprClient {
    pub address: String,
    pub title: String,
}

/// An exact copy of a monitor.
pub fn copy_monitor(m: &Monitor) -> (r: Monitor)
    ensures
        r == *m,
{
    Monitor {
        name: m.name.clone(),
        x: m.x,
        y: m.y,
        width: m.width,
        height: m.height,
        focused: m.focused,
    }
}

/// The monitor a record describes.
pub open spec fn monitor_of(r: MonitorRecord) -> Monitor {
    Monitor { name: r.name, x: r.x, y: r.y, width: r.width, height: r.height, focused: r.focused }
}

/// The enabled monitors among `rs`, in order.
pub open spec fn enabled_monitors(rs: Seq<MonitorRecord>) -> Seq<Monitor>
    decreases rs.len(),
{
    if rs.len() == 0 {
        Seq::empty()
    } else if rs.last().disabled {
        enabled_monitors(rs.drop_last())
    } else {
        enabled_monitors(rs.drop_last()).push(monitor_of(rs.last()))
    }
}

/// The monitors `hyprctl monitors -j` reported, without disabled ones.
pub fn enumerate_monitors(records: &Vec<MonitorRecord>) -> (out: Vec<Monitor>)
    ensures
        out@ == enabled_monitors(records@),
{
    let mut out: Vec<Monitor> = Vec::new();
    let mut i: usize = 0;
    while i < records.len()
        invariant
            i <= records.len(),
            out@ == enabled_monitors(records@.take(i as int)),
        decreases records.len() - i,
    {
        let r = &records[i];
        assert(records@.take(i + 1).drop_last() =~= records@.take(i as int));
        if !r.disabled {
            out.push(
                Monitor {
                    name: r.name.clone(),
                    x: r.x,
                    y: r.y,
                    width: r.width,
                    height: r.height,
                    focused: r.focused,
                },
            );
        }
        i += 1;
    }
    assert(records@.take(records.len() as int) =~= records@);
    out
}

/// `i` is the first focused monitor of `ms`.
pub open spec fn is_first_focused(ms: Seq<Monitor>, i: int) -> bool {
    &&& 0 <= i < ms.len()
    &&& ms[i].focused
    &&& forall|j: int| 0 <= j < i ==> !ms[j].focused
}

/// The monitor holding keyboard focus, falling back to the first one.
pub open spec fn focused_choice(ms: Seq<Monitor>) -> Option<Monitor> {
    if exists|i: int| is_first_focused(ms, i) {
        Some(ms[choose|i: int| is_first_focused(ms, i)])
    } else if ms.len() > 0 {
        Some(ms[0])
    } else {
        None
    }
}

/// The monitor holding keyboard focus, falling back to the first
/// enumerated one; `None` when there is no monitor.
pub fn focused_monitor(monitors: &Vec<Monitor>) -> (r: Option<Monitor>)
    ensures
        r == focused_choice(monitors@),
{
    let mut i: usize = 0;
    while i < monitors.len()
        invariant
            i <= monitors.len(),
            forall|j: int| 0 <= j < i ==> !monitors@[j].focused,
        decreases monitors.len() - i,
    {
        if monitors[i].focused {
            proof {
                assert(is_first_focused(monitors@, i as int));
                let k = choose|k: int| is_first_focused(monitors@, k);
                if k < i {
                    assert(!monitors@[k].focused);
                }
                if k > i {
                    assert(!monitors@[i as int].focused);
                }
            }
            return Some(copy_monitor(&monitors[i]));
        }
        i += 1;
    }
    proof {
        if exists|k: int| is_first_focused(monitors@, k) {
            let k = choose|k: int| is_first_focused(monitors@, k);
            assert(!monitors@[k].focused);
        }
    }
    if monitors.len() > 0 {
        Some(copy_monitor(&monitors[0]))
    } else {
        None
    }
}

/// `i` is the first client of `cs` titled `t`.
pub open spec fn is_first_titled(cs: Seq<HyprClient>, t: Seq<char>, i: int) -> bool {
    &&& 0 <= i < cs.len()
    &&& cs[i].title@ == t
    &&& forall|j: int| 0 <= j < i ==> cs[j].title@ != t
}

/// The `hyprctl dispatch` selector of the first client titled `t`:
/// `address:<address>`.
pub open spec fn selector_spec(cs: Seq<HyprClient>, t: Seq<char>) -> Option<Seq<char>> {
    if exists|i: int| is_first_titled(cs, t, i) {
        Some("address:"@ + cs[choose|i: int| is_first_titled(cs, t, i)].address@)
    } else {
        None
    }
}

/// The dispatch selector (`address:<address>`) of the first client whose
/// title is exactly `title`.
pub fn selector_for_title(clients: &Vec<HyprClient>, title: &str) -> (r: Option<String>)
    ensures
        match r {
            Some(s) => selector_spec(clients@, title@) == Some(s@),
            None => selector_spec(clients@, title@) is None,
        },
{
    let mut i: usize = 0;
    while i < clients.len()
        invariant
            i <= clients.len(),
            forall|j: int| 0 <= j < i ==> clients@[j].title@ != title@,
        decreases clients.len() - i,
    {
        if str_eq(clients[i].title.as_str(), title) {
            proof {
                assert(is_first_titled(clients@, title@, i as int));
                let k = choose|k: int| is_first_titled(clients@, title@, k);
                if k < i {
                    assert(clients@[k].title@ != title@);
                }
                if k > i {
                    assert(clients@[i as int].title@ != title@);
                }
            }
            let mut s = String::new();
            push_str(&mut s, "address:");
            push_str(&mut s, clients[i].address.as_str());
            assert(s@ =~= "address:"@ + clients@[i as int].address@);
            return Some(s);
        }
        i += 1;
    }
    proof {
        if exists|k: int| is_first_titled(clients@, title@, k) {
            let k = choose|k: int| is_first_titled(clients@, title@, k);
            assert(clients@[k].title@ != title@);
        }
    }
    None
}

/// The window rule that maps the next window titled `t` floating at
/// `(x, y)` without an open animation.
pub open spec fn window_rule_text(t: Seq<char>, x: int, y: int) -> Seq<char> {
    "match:title ^("@ + t + ")$, float 1, no_anim 1, move "@ + int_text(x) + " "@ + int_text(y)
}

/// `match:title ^(<title>)$, float 1, no_anim 1, move <x> <y>`.
pub fn window_rule(title: &str, x: i32, y: i32) -> (out: String)
    ensures
        out@ == window_rule_text(title@, x as int, y as int),
{
    let mut s = String::new();
    push_str(&mut s, "match:title ^(");
    push_str(&mut s, title);
    push_str(&mut s, ")$, float 1, no_anim 1, move ");
    push_i64(&mut s, x as i64);
    push_str(&mut s, " ");
    push_i64(&mut s, y as i64);
    assert(s@ =~= window_rule_text(title@, x as int, y as int));
    s
}

/// The `movewindowpixel` argument that moves a window to `(x, y)`:
/// `exact <x> <y>,<selector>`.
pub fn move_exact_arg(selector: &str, x: i32, y: i32) -> (out: String)
    ensures
        out@ == "exact "@ + int_text(x as int) + " "@ + int_text(y as int) + ","@ + selector@,
{
    let mut s = String::new();
    push_str(&mut s, "exact ");
    push_i64(&mut s, x as i64);
    push_str(&mut s, " ");
    push_i64(&mut s, y as i64);
    push_str(&mut s, ",");
    push_str(&mut s, selector);
    assert(s@ =~= "exact "@ + int_text(x as int) + " "@ + int_text(y as int) + ","@ + selector@);
    s
}

/// The `movewindowpixel` argument that moves a window by `(dx, dy)`:
/// `<dx> <dy>,<selector>`.
pub fn move_relative_arg(selector: &str, dx: i32, dy: i32) -> (out: String)
    ensures
        out@ == int_text(dx as int) + " "@ + int_text(dy as int) + ","@ + selector@,
{
    let mut s = String::new();
    push_i64(&mut s, dx as i64);
    push_str(&mut s, " ");
    push_i64(&mut s, dy as i64);
    push_str(&mut s, ",");
    push_str(&mut s, selector);
    assert(s@ =~= int_text(dx as int) + " "@ + int_text(dy as int) + ","@ + selector@);
    s
}

/// Whether `hyprctl keyword` accepted a rule: it exited successfully and
/// its output starts with `ok`.
pub fn rule_accepted(success: bool, stdout: &[u8]) -> (r: bool)
    ensures
        r == (success && stdout@.len() >= 2 && stdout@[0] == 111u8 && stdout@[1] == 107u8),
{
    success && stdout.len() >= 2 && stdout[0] == 111u8 && stdout[1] == 107u8
}

} // verus!

verus! {

/// The `(property, value)` views of a list of window properties.
pub open spec fn props_view(ps: Seq<(String, String)>) -> Seq<(Seq<char>, Seq<char>)> {
    ps.map_values(|p: (String, String)| (p.0@, p.1@))
}

/// Window properties that strip every decoration: no border, blur,
/// shadow, rounding or animation.
pub open spec fn plain_props() -> Seq<(Seq<char>, Seq<char>)> {
    seq![
        ("decorate"@, "0"@),
        ("border_size"@, "0"@),
        ("no_blur"@, "1"@),
        ("no_shadow"@, "1"@),
        ("rounding"@, "0"@),
        ("no_anim"@, "1"@),
    ]
}

/// Window properties for a glass panel: blur and shadow stay on and the
/// corners are rounded by `rounding` pixels.
pub open spec fn glass_props(rounding: nat) -> Seq<(Seq<char>, Seq<char>)> {
    seq![
        ("decorate"@, "0"@),
        ("border_size"@, "0"@),
        ("no_blur"@, "0"@),
        ("no_shadow"@, "0"@),
        ("rounding"@, int_text(rounding as int)),
        ("no_anim"@, "1"@),
    ]
}

fn prop(name: &str, value: &str) -> (p: (String, String))
    ensures
        p.0@ == name@,
        p.1@ == value@,
{
    (name.to_owned(), value.to_owned())
}

/// The `setprop` list that `make_window_plain` dispatches.
pub fn plain_window_props() -> (out: Vec<(String, String)>)
    ensures
        props_view(out@) == plain_props(),
{
    let mut out: Vec<(String, String)> = Vec::new();
    out.push(prop("decorate", "0"));
    out.push(prop("border_size", "0"));
    out.push(prop("no_blur", "1"));
    out.push(prop("no_shadow", "1"));
    out.push(prop("rounding", "0"));
    out.push(prop("no_anim", "1"));
    assert(props_view(out@) =~= plain_props());
    out
}

/// The `setprop` list that `make_window_glass` dispatches.
pub fn glass_window_props(rounding: u32) -> (out: Vec<(String, String)>)
    ensures
        props_view(out@) == glass_props(rounding as nat),
{
    let mut out: Vec<(String, String)> = Vec::new();
    out.push(prop("decorate", "0"));
    out.push(prop("border_size", "0"));
    out.push(prop("no_blur", "0"));
    out.push(prop("no_shadow", "0"));
    out.push((String::from_str("rounding"), crate::text::int_to_string(rounding as i64)));
    out.push(prop("no_anim", "1"));
    assert(props_view(out@) =~= glass_props(rounding as nat));
    out
}

/// The coordinates for which a window rule has been registered, by window
/// title. Hyprland keeps dynamic rules until a config reload and later
/// rules win, so a rule is only worth adding when the coordinates change.
pub struct PrepositionCache {
    entries: Vec<(String, i32, i32)>,
}

/// No two entries share a title.
pub open spec fn distinct_titles(es: Seq<(String, i32, i32)>) -> bool {
    forall|i: int, j: int|
        0 <= i < es.len() && 0 <= j < es.len() && i != j ==> #[trigger] es[i].0@ != #[trigger] es[j].0@
}

/// Entry `i` is titled `t`.
pub open spec fn titled(es: Seq<(String, i32, i32)>, t: Seq<char>, i: int) -> bool {
    0 <= i < es.len() && es[i].0@ == t
}

/// Title → coordinates of the entry with that title.
pub open spec fn entries_map(es: Seq<(String, i32, i32)>) -> Map<Seq<char>, (i32, i32)> {
    Map::new(
        |t: Seq<char>| exists|i: int| titled(es, t, i),
        |t: Seq<char>|
            {
                let i = choose|i: int| titled(es, t, i);
                (es[i].1, es[i].2)
            },
    )
}

/// Replacing (at `i`) or appending the entry for a title keeps titles
/// distinct and updates the map at that title alone.
proof fn lemma_entries_update(es: Seq<(String, i32, i32)>, i: int, e: (String, i32, i32))
    requires
        distinct_titles(es),
        0 <= i <= es.len(),
        i < es.len() ==> es[i].0@ == e.0@,
        i == es.len() ==> forall|k: int| !titled(es, e.0@, k),
    ensures
        distinct_titles(if i < es.len() { es.update(i, e) } else { es.push(e) }),
        entries_map(if i < es.len() { es.update(i, e) } else { es.push(e) }) == entries_map(
            es,
        ).insert(e.0@, (e.1, e.2)),
{
    let ns = if i < es.len() {
        es.update(i, e)
    } else {
        es.push(e)
    };
    assert(titled(ns, e.0@, i));
    assert forall|a: int, b: int| 0 <= a < ns.len() && 0 <= b < ns.len() && a != b implies #[trigger] ns[a].0@
        != #[trigger] ns[b].0@ by {
        if a != i && b != i {
            assert(ns[a] == es[a] && ns[b] == es[b]);
        } else if a == i {
            assert(ns[b] == es[b]);
            if i < es.len() {
                assert(es[i].0@ != es[b].0@);
            } else {
                assert(!titled(es, e.0@, b));
            }
        } else {
            assert(ns[a] == es[a]);
            if i < es.len() {
                assert(es[i].0@ != es[a].0@);
            } else {
                assert(!titled(es, e.0@, a));
            }
        }
    }
    let before = entries_map(es);
    let after = entries_map(ns);
    let want = before.insert(e.0@, (e.1, e.2));
    assert forall|t: Seq<char>| #![auto] after.contains_key(t) == want.contains_key(t) by {
        if exists|k: int| titled(es, t, k) {
            let k = choose|k: int| titled(es, t, k);
            if k != i {
                assert(titled(ns, t, k));
            }
        }
        if exists|k: int| titled(ns, t, k) {
            let k = choose|k: int| titled(ns, t, k);
            if k != i {
                assert(titled(es, t, k));
            }
        }
    }
    assert forall|t: Seq<char>| #[trigger] after.contains_key(t) implies after[t] == want[t] by {
        let k = choose|k: int| titled(ns, t, k);
        if t == e.0@ {
            assert(k == i);
        } else {
            assert(k != i);
            assert(titled(es, t, k));
            let k2 = choose|k2: int| titled(es, t, k2);
            assert(k2 == k);
        }
    }
    assert(after =~= want);
}

impl PrepositionCache {
    #[verifier::type_invariant]
    spec fn titles_distinct(&self) -> bool {
        distinct_titles(self.entries@)
    }

    /// Title → last registered coordinates.
    pub closed spec fn view(&self) -> Map<Seq<char>, (i32, i32)> {
        entries_map(self.entries@)
    }

    /// An empty cache.
    pub fn new() -> (c: Self)
        ensures
            c@ == Map::<Seq<char>, (i32, i32)>::empty(),
    {
        let c = PrepositionCache { entries: Vec::new() };
        assert(c@ =~= Map::<Seq<char>, (i32, i32)>::empty());
        c
    }

    fn position_of(entries: &Vec<(String, i32, i32)>, title: &str) -> (r: Option<usize>)
        ensures
            match r {
                Some(i) => titled(entries@, title@, i as int),
                None => forall|i: int| !titled(entries@, title@, i),
            },
    {
        let mut i: usize = 0;
        while i < entries.len()
            invariant
                i <= entries.len(),
                forall|j: int| 0 <= j < i ==> !titled(entries@, title@, j),
            decreases entries.len() - i,
        {
            if str_eq(entries[i].0.as_str(), title) {
                return Some(i);
            }
            i += 1;
        }
        None
    }

    /// Whether the last rule registered for `title` already places it at
    /// `(x, y)`.
    pub fn is_current(&self, title: &str, x: i32, y: i32) -> (r: bool)
        ensures
            r == (self@.contains_key(title@) && self@[title@] == (x, y)),
    {
        proof {
            use_type_invariant(self);
        }
        match Self::position_of(&self.entries, title) {
            Some(i) => {
                proof {
                    let k = choose|k: int| titled(self.entries@, title@, k);
                    assert(k == i);
                }
                self.entries[i].1 == x && self.entries[i].2 == y
            },
            None => false,
        }
    }

    /// Records that the rule for `title` now places it at `(x, y)`.
    pub fn remember(&mut self, title: &str, x: i32, y: i32)
        ensures
            final(self)@ == old(self)@.insert(title@, (x, y)),
    {
        proof {
            use_type_invariant(&*self);
        }
        let mut entries: Vec<(String, i32, i32)> = Vec::new();
        std::mem::swap(&mut entries, &mut self.entries);
        let ghost es = entries@;
        assert(es == old(self).entries@);
        let e = (title.to_owned(), x, y);
        match Self::position_of(&entries, title) {
            Some(i) => {
                proof {
                    lemma_entries_update(es, i as int, e);
                }
                entries.set(i, e);
            },
            None => {
                proof {
                    lemma_entries_update(es, es.len() as int, e);
                }
                entries.push(e);
            },
        }
        self.entries = entries;
    }
}

} // verus!

verus! {

/// The title of the identifier overlay shown on a monitor during monitor
/// selection.
pub fn identifier_title(monitor_name: &str) -> (out: String)
    ensures
        out@ == "Hyprscreen Monitor ID "@ + monitor_name@,
{
    let mut s = String::new();
    push_str(&mut s, "Hyprscreen Monitor ID ");
    push_str(&mut s, monitor_name);
    assert(s@ =~= "Hyprscreen Monitor ID "@ + monitor_name@);
    s
}

/// `i` is the first monitor named `n`.
pub open spec fn is_first_named(ms: Seq<Monitor>, n: Seq<char>, i: int) -> bool {
    &&& 0 <= i < ms.len()
    &&& ms[i].name@ == n
    &&& forall|j: int| 0 <= j < i ==> ms[j].name@ != n
}

/// The rectangle of the first monitor named `n`.
pub open spec fn named_region(ms: Seq<Monitor>, n: Seq<char>) -> Option<(i32, i32, i32, i32)> {
    if exists|i: int| is_first_named(ms, n, i) {
        let m = ms[choose|i: int| is_first_named(ms, n, i)];
        Some((m.x, m.y, m.width, m.height))
    } else {
        None
    }
}

/// The rectangle of the first monitor with the given connector name.
pub fn monitor_region_by_name(monitors: &Vec<Monitor>, name: &str) -> (r: Option<(i32, i32, i32, i32)>)
    ensures
        r == named_region(monitors@, name@),
{
    let mut i: usize = 0;
    while i < monitors.len()
        invariant
            i <= monitors.len(),
            forall|j: int| 0 <= j < i ==> monitors@[j].name@ != name@,
        decreases monitors.len() - i,
    {
        if str_eq(monitors[i].name.as_str(), name) {
            proof {
                assert(is_first_named(monitors@, name@, i as int));
                let k = choose|k: int| is_first_named(monitors@, name@, k);
                if k < i {
                    assert(monitors@[k].name@ != name@);
                }
                if k > i {
                    assert(monitors@[i as int].name@ != name@);
                }
            }
            let m = &monitors[i];
            return Some((m.x, m.y, m.width, m.height));
        }
        i += 1;
    }
    proof {
        if exists|k: int| is_first_named(monitors@, name@, k) {
            let k = choose|k: int| is_first_named(monitors@, name@, k);
            assert(monitors@[k].name@ != name@);
        }
    }
    None
}

} // verus!

verus! {

/// After a rule for `t` at `(x, y)` is remembered, `t` reads as placed at
/// `(x, y)` (so no second rule is added), and every other title reads as
/// before.
pub proof fn law_cache_read_after_write(
    m: Map<Seq<char>, (i32, i32)>,
    t: Seq<char>,
    x: i32,
    y: i32,
    other: Seq<char>,
)
    requires
        other != t,
    ensures
        m.insert(t, (x, y)).contains_key(t) && m.insert(t, (x, y))[t] == (x, y),
        m.insert(t, (x, y)).contains_key(other) == m.contains_key(other),
        m.contains_key(other) ==> m.insert(t, (x, y))[other] == m[other],
{
}

} // verus!

verus! {

/// A record that is not disabled.
pub open spec fn record_enabled() -> spec_fn(MonitorRecord) -> bool {
    |r: MonitorRecord| !r.disabled
}

/// The monitors are the enabled records, in order: as many monitors as
/// enabled records, and the k-th monitor has the name, x, y, width, height
/// and focus of the k-th enabled record.
pub proof fn law_monitors_are_enabled_records(rs: Seq<MonitorRecord>)
    ensures
        enabled_monitors(rs).len() == rs.filter(record_enabled()).len(),
        forall|k: int|
            0 <= k < enabled_monitors(rs).len() ==> {
                let m = #[trigger] enabled_monitors(rs)[k];
                let r = rs.filter(record_enabled())[k];
                &&& m.name == r.name
                &&& m.x == r.x
                &&& m.y == r.y
                &&& m.width == r.width
                &&& m.height == r.height
                &&& m.focused == r.focused
            },
    decreases rs.len(),
{
    reveal(Seq::filter);
    if rs.len() > 0 {
        law_monitors_are_enabled_records(rs.drop_last());
    }
}

} // verus!
