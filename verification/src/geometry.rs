//! slurp/grim geometry strings: `"x,y wxh"`.

use vstd::prelude::*;

use crate::text::{
    all_digits, chars_of, digits_value, find_char, i32_of, int_of, int_text, is_digit, is_first,
    is_ws, lemma_split_absent, lemma_split_at_first, nat_text, parse_i32_range, push_char,
    push_i64, split_once, trim, trim_end, trim_range, trim_start, digit_char,
};

verus! {

/// The rectangle that a geometry string `"x,y wxh"` denotes: the trimmed
/// text is split at its first space, the position at its first comma and
/// the size at its first `x`; each of the four parts, trimmed, must parse
/// as an `i32`.
pub open spec fn region_of(g: Seq<char>) -> Option<(i32, i32, i32, i32)> {
    match split_once(trim(g), ' ') {
        Some((pos, size)) => match split_once(pos, ',') {
            Some((xs, ys)) => match split_once(size, 'x') {
                Some((ws, hs)) => match (
                    i32_of(trim(xs)),
                    i32_of(trim(ys)),
                    i32_of(trim(ws)),
                    i32_of(trim(hs)),
                ) {
                    (Some(x), Some(y), Some(w), Some(h)) => Some((x, y, w, h)),
                    _ => None,
                },
                None => None,
            },
            None => None,
        },
        None => None,
    }
}

/// The text `"x,y wxh"` of a rectangle.
pub open spec fn region_text(x: int, y: int, w: int, h: int) -> Seq<char> {
    int_text(x) + seq![','] + int_text(y) + seq![' '] + int_text(w) + seq!['x'] + int_text(h)
}

/// The rectangle shrunk by `inset` on every side, when the result still
/// has a positive size and fits in `i32`.
pub open spec fn inset_region(r: (i32, i32, i32, i32), inset: int) -> Option<(i32, i32, i32, i32)> {
    let x = r.0 + inset;
    let y = r.1 + inset;
    let w = r.2 - 2 * inset;
    let h = r.3 - 2 * inset;
    if 0 < w <= i32::MAX && 0 < h <= i32::MAX && i32::MIN <= x <= i32::MAX && i32::MIN <= y
        <= i32::MAX {
        Some((x as i32, y as i32, w as i32, h as i32))
    } else {
        None
    }
}

/// The geometry handed to grim for a selection `g` captured with `inset`:
/// the inset rectangle when `g` parses and the inset leaves a positive
/// size, `g` itself otherwise.
pub open spec fn grim_geometry(g: Seq<char>, inset: int) -> Seq<char> {
    match region_of(g) {
        Some(r) => match inset_region(r, inset) {
            Some(q) => region_text(q.0 as int, q.1 as int, q.2 as int, q.3 as int),
            None => g,
        },
        None => g,
    }
}

/// Parses a slurp-style `"x,y wxh"` geometry into `(x, y, width, height)`.
pub fn parse_region(geometry: &str) -> (r: Option<(i32, i32, i32, i32)>)
    ensures
        r == region_of(geometry@),
{
    let v = chars_of(geometry);
    let ghost g = v@;
    let (a, b) = trim_range(&v, 0, v.len());
    assert(g.subrange(0, g.len() as int) =~= g);
    let ghost t = g.subrange(a as int, b as int);
    let sp = match find_char(&v, a, b, ' ') {
        Some(i) => i,
        None => {
            proof {
                lemma_split_absent(t, ' ');
            }
            return None;
        },
    };
    proof {
        lemma_split_at_first(t, ' ', sp - a);
        assert(t.take(sp - a) =~= g.subrange(a as int, sp as int));
        assert(t.skip(sp - a + 1) =~= g.subrange(sp + 1, b as int));
    }
    let ghost pos = g.subrange(a as int, sp as int);
    let ghost size = g.subrange(sp + 1, b as int);
    let cm = match find_char(&v, a, sp, ',') {
        Some(i) => i,
        None => {
            proof {
                lemma_split_absent(pos, ',');
            }
            return None;
        },
    };
    proof {
        lemma_split_at_first(pos, ',', cm - a);
        assert(pos.take(cm - a) =~= g.subrange(a as int, cm as int));
        assert(pos.skip(cm - a + 1) =~= g.subrange(cm + 1, sp as int));
    }
    let xx = match find_char(&v, sp + 1, b, 'x') {
        Some(i) => i,
        None => {
            proof {
                lemma_split_absent(size, 'x');
            }
            return None;
        },
    };
    proof {
        lemma_split_at_first(size, 'x', xx - (sp + 1));
        assert(size.take(xx - (sp + 1)) =~= g.subrange(sp + 1, xx as int));
        assert(size.skip(xx - (sp + 1) + 1) =~= g.subrange(xx + 1, b as int));
    }
    let (x0, x1) = trim_range(&v, a, cm);
    let (y0, y1) = trim_range(&v, cm + 1, sp);
    let (w0, w1) = trim_range(&v, sp + 1, xx);
    let (h0, h1) = trim_range(&v, xx + 1, b);
    let px = parse_i32_range(&v, x0, x1);
    let py = parse_i32_range(&v, y0, y1);
    let pw = parse_i32_range(&v, w0, w1);
    let ph = parse_i32_range(&v, h0, h1);
    match (px, py, pw, ph) {
        (Some(x), Some(y), Some(w), Some(h)) => Some((x, y, w, h)),
        _ => None,
    }
}

/// Appends the geometry text `"x,y wxh"`.
pub fn push_region(s: &mut String, x: i32, y: i32, w: i32, h: i32)
    ensures
        final(s)@ == old(s)@ + region_text(x as int, y as int, w as int, h as int),
{
    let ghost start = s@;
    push_i64(s, x as i64);
    push_char(s, ',');
    push_i64(s, y as i64);
    push_char(s, ' ');
    push_i64(s, w as i64);
    push_char(s, 'x');
    push_i64(s, h as i64);
    assert(s@ =~= start + region_text(x as int, y as int, w as int, h as int));
}

/// The geometry text `"x,y wxh"` of a rectangle.
pub fn region_string(x: i32, y: i32, w: i32, h: i32) -> (out: String)
    ensures
        out@ == region_text(x as int, y as int, w as int, h as int),
{
    let mut out = String::new();
    push_region(&mut out, x, y, w, h);
    assert(out@ =~= region_text(x as int, y as int, w as int, h as int));
    out
}

/// Shrinks a geometry by `inset` pixels on every side; `None` when the
/// geometry does not parse or the inset would leave no area.
pub fn inset_geometry(geometry: &str, inset: i32) -> (r: Option<String>)
    ensures
        match r {
            Some(s) => region_of(geometry@) matches Some(g) && inset_region(g, inset as int) matches Some(q)
                && s@ == region_text(q.0 as int, q.1 as int, q.2 as int, q.3 as int),
            None => region_of(geometry@) is None || inset_region(region_of(geometry@).unwrap(), inset as int) is None,
        },
{
    match parse_region(geometry) {
        None => None,
        Some((x, y, w, h)) => {
            let nx = x as i64 + inset as i64;
            let ny = y as i64 + inset as i64;
            let nw = w as i64 - 2 * (inset as i64);
            let nh = h as i64 - 2 * (inset as i64);
            if 0 < nw && nw <= i32::MAX as i64 && 0 < nh && nh <= i32::MAX as i64 && i32::MIN as i64
                <= nx && nx <= i32::MAX as i64 && i32::MIN as i64 <= ny && ny <= i32::MAX as i64 {
                Some(region_string(nx as i32, ny as i32, nw as i32, nh as i32))
            } else {
                None
            }
        },
    }
}

/// The geometry grim receives for a selection captured with `inset`
/// (`inset_geometry`, falling back to the selection unchanged).
pub fn grim_geometry_for(geometry: &str, inset: i32) -> (out: String)
    ensures
        out@ == grim_geometry(geometry@, inset as int),
{
    match inset_geometry(geometry, inset) {
        Some(s) => s,
        None => geometry.to_owned(),
    }
}

/// The grim `-g` argument for an area selection: slurp's 3px border is
/// centered on the selection boundary, so a 2px inset keeps it out of
/// the capture.
pub fn capture_geometry(geometry: &str) -> (out: String)
    ensures
        out@ == grim_geometry(geometry@, 2),
{
    grim_geometry_for(geometry, 2)
}

/// The grim `-g` argument for a window selection; `inset` is Hyprland's
/// border size plus rounding, so neither bleeds into the capture.
pub fn capture_window_geometry(geometry: &str, inset: i32) -> (out: String)
    ensures
        out@ == grim_geometry(geometry@, inset as int),
{
    grim_geometry_for(geometry, inset)
}

} // verus!

verus! {

/// Reading back the text of a rectangle gives the rectangle.
pub proof fn law_region_round_trip(x: i32, y: i32, w: i32, h: i32)
    ensures
        region_of(region_text(x as int, y as int, w as int, h as int)) == Some((x, y, w, h)),
{
    let xt = int_text(x as int);
    let yt = int_text(y as int);
    let wt = int_text(w as int);
    let ht = int_text(h as int);
    crate::text::lemma_i32_text(x);
    crate::text::lemma_i32_text(y);
    crate::text::lemma_i32_text(w);
    crate::text::lemma_i32_text(h);
    crate::text::lemma_int_text(x as int);
    crate::text::lemma_int_text(h as int);
    let pos = xt + seq![','] + yt;
    let size = wt + seq!['x'] + ht;
    let r = region_text(x as int, y as int, w as int, h as int);
    assert(r =~= pos + seq![' '] + size);
    assert(r[0] == xt[0]);
    assert(r.last() == ht.last());
    crate::text::lemma_trim_noop(r);
    assert forall|j: int| 0 <= j < pos.len() implies pos[j] != ' ' by {
        if j < xt.len() {
            assert(pos[j] == xt[j]);
        } else if j > xt.len() {
            assert(pos[j] == yt[j - xt.len() - 1]);
        }
    }
    crate::text::lemma_split_concat(pos, ' ', size);
    assert forall|j: int| 0 <= j < xt.len() implies xt[j] != ',' by {}
    crate::text::lemma_split_concat(xt, ',', yt);
    assert forall|j: int| 0 <= j < wt.len() implies wt[j] != 'x' by {}
    crate::text::lemma_split_concat(wt, 'x', ht);
}

} // verus!

verus! {

/// A non-negative inset keeps the captured rectangle inside the selection,
/// `inset` pixels from each of its edges.
pub proof fn law_inset_within(r: (i32, i32, i32, i32), inset: int)
    requires
        inset >= 0,
        inset_region(r, inset) is Some,
    ensures
        ({
            let q = inset_region(r, inset).unwrap();
            &&& q.0 == r.0 + inset && q.1 == r.1 + inset
            &&& q.0 + q.2 == r.0 + r.2 - inset
            &&& q.1 + q.3 == r.1 + r.3 - inset
            &&& r.0 <= q.0 && q.0 + q.2 <= r.0 + r.2
            &&& r.1 <= q.1 && q.1 + q.3 <= r.1 + r.3
        }),
{
}

} // verus!
