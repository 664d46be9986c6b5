//! A small frame-loop engine for drawing coloured character cells on a
//! terminal: pixels and their escape-sequence form, drawable groups, the
//! frame-rate capper and the per-frame decisions of the render loop.
mod ansi;
pub mod event;
mod fps;
mod frame;
mod pixel;

pub use ansi::{decimal, fg_seq, goto_seq, hide_cursor_seq, reset_seq};
pub use pixel::{default_glyph, Color, Pixel, PixelError, MAX_GLYPH_LEN, PX};
pub use fps::{measured_fps, ms_per_frame_for, under_budget, FPSCapper};
pub use event::{
    exit_key, is_exit_event, to_key_event, Event, KeyCode, KeyEvent, KeyModifiers, MouseButton,
    MouseEvent, MouseEventKind,
};
pub use frame::{
    all_drawable, frame_head, frame_step, frame_view, group_pixels, last_row, render_group,
    render_seq, single_renders_as_multi, spaces, status_color_seq, ui_view, Context, Drawable,
    EventHandler, FrameAction, Group, Scene, Size, STATUS_PREFIX,
};
