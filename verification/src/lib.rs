//! Hyprscreen core: verified geometry, selection and placement logic.

pub mod text;
pub mod geometry;
pub mod hyprland;
pub mod capture;
pub mod placement;
pub mod countdown;
pub mod dock;
pub mod toast;
pub mod recording;
pub mod annotate;
