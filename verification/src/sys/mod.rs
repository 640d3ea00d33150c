//! What the app learns from macOS, as plain values: the enabled layouts, installed
//! apps, the selection and the pasteboard. Talking to macOS is the app's business.

pub mod app_icons;
pub mod input_source;
pub mod pasteboard;
pub mod text_access;
