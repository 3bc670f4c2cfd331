# hyprscreen

The verified core of Hyprscreen, a screenshot and screen-recording tool for
Hyprland, written in Verus.

- `src/` — the library. Every function carries a contract that Verus
  proves, except `text::push_char`, a wrapper of `String::push` whose
  contract (the character is appended) is trusted:
  - `text`: trimming, splitting, decimal integers (`str::parse::<i32>` and `{}`);
  - `geometry`: slurp/grim `"x,y wxh"` geometries, parsing, formatting, insets;
  - `capture`: the `slurp -r` choice lists for monitors and windows, the
    resolution of a selection, slurp's mode colors and grim's arguments;
  - `hyprland`: monitors, the focused monitor, client lookup, window rules and
    dispatch arguments, the window-rule cache;
  - `placement`: where the dock, toasts, the thumbnail card, the HUD and the
    overlays go;
  - `countdown`, `recording`: the delay countdown and the segmented
    (pause/resume/restart/stop) recording state machines, wf-recorder's
    arguments per format and audio setting, and how segments are joined;
  - `dock`: the dock's state (mode, target, delay chip and presets, pointer
    toggle, recording format, audio and HUD switches), its shortcuts,
    startup action and labels;
  - `toast`, `annotate`: toast and card attributes and the files a closing
    card removes; annotation colors, blur regions, tool keys, undo and the
    Done button.
- `tests/` — runtime tests of the library.
- `app/` — code around the library: the `hyprctl`, `slurp`, `grim`,
  `wf-recorder` and `ffmpeg` processes, JSON decoding, the countdown
  overlay window and its timers, and the floating-point annotation
  geometry. The dock, HUD, thumbnail, toast and editor windows are not part
  of it; their decisions are the library's `dock`, `recording`, `toast`,
  `placement` and `annotate` modules.
