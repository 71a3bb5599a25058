//! Decisions behind a desktop shell's session windows.
//!
//! A session window is an independent top-level window that hosts one detached
//! tab. The host's window manager creates, focuses and closes windows and
//! delivers events; this library decides what to ask of it and what to answer
//! the front-end once the host has reported back. Every function is a pure
//! function of plain values, so its contract says exactly what it returns.

pub mod commands;
pub mod encoding;
pub mod host;
pub mod label;
pub mod laws;
pub mod request;
pub mod theme;

pub use commands::{
    broadcast_to_session_windows, close_session_window, create_session_window, emit_to_window,
    focus_session_window, session_window_opened, CreateStep,
};
pub use host::{OpenReply, WindowReply};
pub use label::{
    is_session_window, list_session_windows, session_window_label, SESSION_WINDOW_PREFIX,
};
pub use request::{
    new_session_window, session_window_url, CreateSessionWindowParams, NewWindow,
    WindowCreationResult, SESSION_WINDOW_HEIGHT, SESSION_WINDOW_MIN_HEIGHT,
    SESSION_WINDOW_MIN_WIDTH, SESSION_WINDOW_WIDTH,
};
pub use theme::{
    set_titlebar_theme, titlebar_color, TitlebarUpdate, DARK_TITLEBAR_COLOR,
    LIGHT_TITLEBAR_COLOR,
};
