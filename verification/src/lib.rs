//! Editors for audio plugins: the decisions of their windows, proved.
//!
//! A plugin's editor lives in a window that the host owns. The modules here hold what such an
//! editor decides: which events reach its document, which resizes it accepts and whom it tells of
//! them, when a frame is laid out and rendered, how its surface is configured, and which resources
//! it serves. Carrying the decisions out is left to the caller.

pub mod cursor;
pub mod document;
pub mod editor;
pub mod egl;
pub mod egui_editor;
pub mod events;
pub mod iced_editor;
pub mod keyboard;
pub mod net;
pub mod resizable_window;
pub mod resize_hint;
pub mod scalar;
pub mod size;
pub mod surface;
pub mod text;
pub mod timed;
pub mod window;
