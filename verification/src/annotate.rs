//! Annotation editor helpers that need no floating point: ink colors and
//! step numbering.

use vstd::prelude::*;
use vstd::string::StringSliceAdditionalSpecFns;

verus! {

pub open spec fn hex_value(b: u8) -> Option<u8> {
    if 48 <= b <= 57 {
        Some((b - 48) as u8)
    } else if 97 <= b <= 102 {
        Some((b - 87) as u8)
    } else if 65 <= b <= 70 {
        Some((b - 55) as u8)
    } else {
        None
    }
}

/// `u8::from_str_radix` of the two-byte text `b0 b1` in base 16: a `+`
/// followed by one hex digit, or two hex digits.
pub open spec fn hex_pair(b0: u8, b1: u8) -> Option<u8> {
    if b0 == 43u8 {
        hex_value(b1)
    } else {
        match (hex_value(b0), hex_value(b1)) {
            (Some(h), Some(l)) => Some((h * 16 + l) as u8),
            _ => None,
        }
    }
}

/// The number of leading `#` bytes.
pub open spec fn leading_hashes(b: Seq<u8>) -> nat
    decreases b.len(),
{
    if b.len() > 0 && b[0] == 35u8 {
        1 + leading_hashes(b.drop_first())
    } else {
        0
    }
}

/// A channel value, with 255 standing in for one that does not parse.
pub open spec fn channel(v: Option<u8>) -> u8 {
    match v {
        Some(x) => x,
        None => 255,
    }
}

/// The bytes of a color once its leading `#`s are dropped.
pub open spec fn color_digits(color: &str) -> Seq<u8> {
    color.spec_bytes().skip(leading_hashes(color.spec_bytes()) as int)
}

/// The colors `parse_hex` accepts without panicking: after the leading
/// `#`s, at least six bytes, with characters boundaries after the second,
/// fourth and sixth byte.
pub open spec fn hex_color_ok(color: &str) -> bool {
    let c = color_digits(color);
    &&& c.len() >= 6
    &&& vstd::utf8::is_char_boundary(c, 2)
    &&& vstd::utf8::is_char_boundary(c, 4)
    &&& vstd::utf8::is_char_boundary(c, 6)
}

fn hex_of(b: u8) -> (r: Option<u8>)
    ensures
        r == hex_value(b),
{
    if 48 <= b && b <= 57 {
        Some(b - 48)
    } else if 97 <= b && b <= 102 {
        Some(b - 87)
    } else if 65 <= b && b <= 70 {
        Some(b - 55)
    } else {
        None
    }
}

fn pair_of(b0: u8, b1: u8) -> (r: Option<u8>)
    ensures
        r == hex_pair(b0, b1),
{
    if b0 == 43 {
        hex_of(b1)
    } else {
        match (hex_of(b0), hex_of(b1)) {
            (Some(h), Some(l)) => Some(h * 16 + l),
            _ => None,
        }
    }
}

/// The red, green and blue bytes of a `#RRGGBB` color; a channel that does
/// not parse reads 255 (full intensity).
pub fn parse_hex(color: &str) -> (rgb: (u8, u8, u8))
    requires
        hex_color_ok(color),
    ensures
        ({
            let c = color_digits(color);
            rgb == (channel(hex_pair(c[0], c[1])), channel(hex_pair(c[2], c[3])), channel(
                hex_pair(c[4], c[5]),
            ))
        }),
{
    let b = color.as_bytes();
    let ghost all = b@;
    let mut k: usize = 0;
    assert(all.skip(0) =~= all);
    while k < b.len() && b[k] == 35
        invariant
            k <= b.len(),
            b@ == all,
            leading_hashes(all) == k + leading_hashes(all.skip(k as int)),
        decreases b.len() - k,
    {
        assert(all.skip(k as int).drop_first() =~= all.skip(k + 1));
        k += 1;
    }
    assert(leading_hashes(all.skip(k as int)) == 0);
    let ghost c = color_digits(color);
    assert(c =~= all.skip(k as int));
    let r = pair_of(b[k], b[k + 1]);
    let g = pair_of(b[k + 2], b[k + 3]);
    let bl = pair_of(b[k + 4], b[k + 5]);
    (
        match r {
            Some(v) => v,
            None => 255,
        },
        match g {
            Some(v) => v,
            None => 255,
        },
        match bl {
            Some(v) => v,
            None => 255,
        },
    )
}

/// The number a new step marker gets: one more than the steps already
/// placed.
pub fn next_step_number(existing_steps: u32) -> (n: u32)
    requires
        existing_steps < u32::MAX,
    ensures
        n == existing_steps + 1,
{
    existing_steps + 1
}

} // verus!

verus! {

/// The pixel rectangle a blur shape covers, from its rectangle cast to
/// integers (`x`, `y` already floored at 0): clipped to the image, at least
/// one pixel wide and high; `None` when narrower or lower than 8 pixels,
/// which is not pixelated.
pub open spec fn blur_rect_spec(x: int, y: int, w: int, h: int, img_w: int, img_h: int) -> Option<
    (int, int, int, int),
> {
    let cx = if x < img_w - 1 {
        x
    } else {
        img_w - 1
    };
    let cy = if y < img_h - 1 {
        y
    } else {
        img_h - 1
    };
    let cw = if w < 1 {
        1
    } else if w > img_w - cx {
        img_w - cx
    } else {
        w
    };
    let ch = if h < 1 {
        1
    } else if h > img_h - cy {
        img_h - cy
    } else {
        h
    };
    if cw < 8 || ch < 8 {
        None
    } else {
        Some((cx, cy, cw, ch))
    }
}

/// Clips a blur rectangle to a `img_w`×`img_h` image.
pub fn blur_region(x: i32, y: i32, w: i32, h: i32, img_w: i32, img_h: i32) -> (r: Option<
    (i32, i32, i32, i32),
>)
    requires
        x >= 0,
        y >= 0,
        img_w > i32::MIN,
        img_h > i32::MIN,
    ensures
        match r {
            Some(q) => blur_rect_spec(x as int, y as int, w as int, h as int, img_w as int, img_h as int)
                == Some((q.0 as int, q.1 as int, q.2 as int, q.3 as int)),
            None => blur_rect_spec(x as int, y as int, w as int, h as int, img_w as int, img_h as int) is None,
        },
        r matches Some(q) ==> 0 <= q.0 && 0 <= q.1 && q.0 + q.2 <= img_w && q.1 + q.3 <= img_h,
{
    let cx = if x < img_w - 1 {
        x
    } else {
        img_w - 1
    };
    let cy = if y < img_h - 1 {
        y
    } else {
        img_h - 1
    };
    let cw = if w < 1 {
        1
    } else if w > img_w - cx {
        img_w - cx
    } else {
        w
    };
    let ch = if h < 1 {
        1
    } else if h > img_h - cy {
        img_h - cy
    } else {
        h
    };
    if cw < 8 || ch < 8 {
        None
    } else {
        Some((cx, cy, cw, ch))
    }
}

/// The size a blur region is shrunk to before being scaled back up:
/// an eighth of each side, at least one pixel.
pub fn pixelate_size(w: i32, h: i32) -> (r: (i32, i32))
    requires
        w >= 0,
        h >= 0,
    ensures
        r.0 == (if w / 8 >= 1 {
            w / 8
        } else {
            1
        }),
        r.1 == (if h / 8 >= 1 {
            h / 8
        } else {
            1
        }),
{
    let sw = w / 8;
    let sh = h / 8;
    (if sw >= 1 {
        sw
    } else {
        1
    }, if sh >= 1 {
        sh
    } else {
        1
    })
}

/// The floating text entry's size for text laid out at `text_w`×`text_h`:
/// margins, border and caret slack around it, at least 160 wide.
pub fn text_entry_size(text_w: i32, text_h: i32) -> (r: (i32, i32))
    requires
        text_w <= i32::MAX - 22,
        text_h <= i32::MAX - 12,
    ensures
        r.0 == (if text_w + 22 >= 160 {
            text_w + 22
        } else {
            160
        }),
        r.1 == text_h + 12,
{
    let w = text_w + 22;
    (if w >= 160 {
        w
    } else {
        160
    }, text_h + 12)
}

} // verus!

verus! {

/// The editor's tools, in rail order.
#[derive(PartialEq, Eq, Structural, Clone, Copy, Debug)]
pub enum Tool {
    Select,
    Arrow,
    Draw,
    Box,
    Text,
    Step,
    Highlight,
    Blur,
}

/// The tool a letter key picks: V A D B T N H L, either case.
pub open spec fn tool_for_key_spec(c: char) -> Option<Tool> {
    if c == 'v' || c == 'V' {
        Some(Tool::Select)
    } else if c == 'a' || c == 'A' {
        Some(Tool::Arrow)
    } else if c == 'd' || c == 'D' {
        Some(Tool::Draw)
    } else if c == 'b' || c == 'B' {
        Some(Tool::Box)
    } else if c == 't' || c == 'T' {
        Some(Tool::Text)
    } else if c == 'n' || c == 'N' {
        Some(Tool::Step)
    } else if c == 'h' || c == 'H' {
        Some(Tool::Highlight)
    } else if c == 'l' || c == 'L' {
        Some(Tool::Blur)
    } else {
        None
    }
}

/// The tool a key picks, if any.
pub fn tool_for_key(c: char) -> (t: Option<Tool>)
    ensures
        t == tool_for_key_spec(c),
{
    if c == 'v' || c == 'V' {
        Some(Tool::Select)
    } else if c == 'a' || c == 'A' {
        Some(Tool::Arrow)
    } else if c == 'd' || c == 'D' {
        Some(Tool::Draw)
    } else if c == 'b' || c == 'B' {
        Some(Tool::Box)
    } else if c == 't' || c == 'T' {
        Some(Tool::Text)
    } else if c == 'n' || c == 'N' {
        Some(Tool::Step)
    } else if c == 'h' || c == 'H' {
        Some(Tool::Highlight)
    } else if c == 'l' || c == 'L' {
        Some(Tool::Blur)
    } else {
        None
    }
}

/// Whether a drag with `tool` starts a new shape (Select moves one; Text
/// and Step are placed by a click instead).
pub fn tool_draws_by_drag(tool: Tool) -> (b: bool)
    ensures
        b == (tool == Tool::Arrow || tool == Tool::Draw || tool == Tool::Box || tool
            == Tool::Highlight || tool == Tool::Blur),
{
    match tool {
        Tool::Arrow | Tool::Draw | Tool::Box | Tool::Highlight | Tool::Blur => true,
        _ => false,
    }
}

} // verus!

verus! {

/// The editor's shapes, in drawing order (a shape holds floating-point
/// geometry, so its type is the caller's).
pub struct ShapeStack<T> {
    shapes: Vec<T>,
}

impl<T> ShapeStack<T> {
    /// The shapes, oldest first.
    pub closed spec fn view(&self) -> Seq<T> {
        self.shapes@
    }

    pub fn new() -> (s: Self)
        ensures
            s@ == Seq::<T>::empty(),
    {
        ShapeStack { shapes: Vec::new() }
    }

    /// A finished shape is added on top.
    pub fn push(&mut self, shape: T)
        ensures
            final(self)@ == old(self)@.push(shape),
    {
        self.shapes.push(shape);
    }

    /// Undo (button or Ctrl+Z): drops the last shape, if any.
    pub fn undo(&mut self)
        ensures
            final(self)@ == (if old(self)@.len() > 0 {
                old(self)@.drop_last()
            } else {
                old(self)@
            }),
    {
        let _ = self.shapes.pop();
    }

    pub fn len(&self) -> (n: usize)
        ensures
            n == self@.len(),
    {
        self.shapes.len()
    }

    pub fn get(&self, i: usize) -> (r: &T)
        requires
            i < self@.len(),
        ensures
            *r == self@[i as int],
    {
        &self.shapes[i]
    }
}

/// What happens in the editor window that decides whether `on_done` runs.
#[derive(PartialEq, Eq, Structural, Clone, Copy, Debug)]
pub enum EditorEvent {
    /// Done was clicked and exporting over the file succeeded or failed.
    Done { export_ok: bool },
    /// The close button or Esc.
    Close,
}

/// The editor window's state for Done: open, and whether `on_done` ran.
#[derive(PartialEq, Eq, Structural, Clone, Copy, Debug)]
pub struct DoneGate {
    pub open: bool,
}

/// An event on an open editor: a successful Done runs `on_done` and
/// closes the window; a failed export leaves it open (an error toast);
/// Close closes it without `on_done`.
pub open spec fn editor_step(g: DoneGate, e: EditorEvent) -> (DoneGate, bool) {
    match e {
        EditorEvent::Done { export_ok } => if export_ok {
            (DoneGate { open: false }, true)
        } else {
            (g, false)
        },
        EditorEvent::Close => (DoneGate { open: false }, false),
    }
}

/// The window after `es` (events after it closed never arrive), and how
/// many times `on_done` ran.
pub open spec fn editor_run(es: Seq<EditorEvent>) -> (DoneGate, nat)
    decreases es.len(),
{
    if es.len() == 0 {
        (DoneGate { open: true }, 0)
    } else {
        let (g, n) = editor_run(es.drop_last());
        if g.open {
            let (q, fired) = editor_step(g, es.last());
            (q, n + if fired {
                1nat
            } else {
                0nat
            })
        } else {
            (g, n)
        }
    }
}

impl DoneGate {
    /// A freshly opened editor.
    pub fn new() -> (g: DoneGate)
        ensures
            g == (DoneGate { open: true }),
    {
        DoneGate { open: true }
    }

    /// An event on the open editor; returns whether to run `on_done`.
    pub fn event(&mut self, e: EditorEvent) -> (fire: bool)
        requires
            old(self).open,
        ensures
            (*final(self), fire) == editor_step(*old(self), e),
    {
        match e {
            EditorEvent::Done { export_ok } => if export_ok {
                self.open = false;
                true
            } else {
                false
            },
            EditorEvent::Close => {
                self.open = false;
                false
            },
        }
    }
}

/// `on_done` has run exactly when the window is closed by a Done.
proof fn lemma_editor_run(es: Seq<EditorEvent>)
    ensures
        editor_run(es).1 <= 1,
        editor_run(es).1 == 1 ==> !editor_run(es).0.open,
        editor_run(es).0.open ==> editor_run(es).1 == 0,
        editor_run(es).1 == 1 <==> exists|i: int|
            0 <= i < es.len() && es[i] == (EditorEvent::Done { export_ok: true })
                && editor_run(es.take(i)).0.open,
    decreases es.len(),
{
    if es.len() > 0 {
        let p = es.drop_last();
        lemma_editor_run(p);
        let n = es.len() - 1;
        assert forall|i: int| 0 <= i < n implies #[trigger] es.take(i) == p.take(i) by {
            assert(es.take(i) =~= p.take(i));
        }
        assert(es.take(n) =~= p);
        if editor_run(p).1 == 1 {
            let i = choose|i: int|
                0 <= i < p.len() && p[i] == (EditorEvent::Done { export_ok: true })
                    && editor_run(p.take(i)).0.open;
            assert(es[i] == p[i]);
        }
        if editor_run(es).1 == 1 && editor_run(p).1 == 0 {
            assert(es[n] == (EditorEvent::Done { export_ok: true }));
            assert(editor_run(es.take(n)).0.open);
        }
        if exists|i: int|
            0 <= i < es.len() && es[i] == (EditorEvent::Done { export_ok: true })
                && editor_run(es.take(i)).0.open {
            let i = choose|i: int|
                0 <= i < es.len() && es[i] == (EditorEvent::Done { export_ok: true })
                    && editor_run(es.take(i)).0.open;
            if i < n {
                assert(p[i] == es[i]);
                assert(editor_run(p).1 == 1);
            }
        }
    }
}

/// Whatever happens in the editor, `on_done` runs at most once; it runs
/// exactly when Done is clicked while the window is still open and the
/// export succeeds, and the window is then closed.
pub proof fn law_done_runs_once_after_export(es: Seq<EditorEvent>)
    ensures
        editor_run(es).1 <= 1,
        editor_run(es).1 == 1 <==> exists|i: int|
            0 <= i < es.len() && es[i] == (EditorEvent::Done { export_ok: true })
                && editor_run(es.take(i)).0.open,
        editor_run(es).1 == 1 ==> !editor_run(es).0.open,
{
    lemma_editor_run(es);
}

} // verus!

verus! {

/// The upper-case letter of a lower-case ASCII letter.
pub open spec fn upper(c: char) -> char {
    ((c as int) - 32) as char
}

/// Tool keys ignore case: a lower-case letter and its upper-case letter
/// pick the same tool. V A D B T N H L pick Select, Arrow, Draw, Box, Text,
/// Step, Highlight and Blur; any other key picks none.
pub proof fn law_tool_keys(c: char)
    ensures
        'a' <= c <= 'z' ==> tool_for_key_spec(c) == tool_for_key_spec(upper(c)),
        tool_for_key_spec('v') == Some(Tool::Select),
        tool_for_key_spec('a') == Some(Tool::Arrow),
        tool_for_key_spec('d') == Some(Tool::Draw),
        tool_for_key_spec('b') == Some(Tool::Box),
        tool_for_key_spec('t') == Some(Tool::Text),
        tool_for_key_spec('n') == Some(Tool::Step),
        tool_for_key_spec('h') == Some(Tool::Highlight),
        tool_for_key_spec('l') == Some(Tool::Blur),
        tool_for_key_spec(c) is Some ==> (c == 'v' || c == 'a' || c == 'd' || c == 'b' || c == 't'
            || c == 'n' || c == 'h' || c == 'l' || c == 'V' || c == 'A' || c == 'D' || c == 'B'
            || c == 'T' || c == 'N' || c == 'H' || c == 'L'),
{
}

} // verus!
