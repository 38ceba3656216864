//! State model of a desktop shell's tweak pages: each page mirrors a handful
//! of scalar and boolean fields from named configuration stores, updates them
//! in response to interaction messages, and hands every store write back to
//! its caller as an explicit request, so that the pure update logic stands
//! apart from the file-backed stores.

pub mod button_config;
pub mod color_schemes;
pub mod dock;
pub mod layouts;
pub mod message;
pub mod panel;
pub mod panel_config;
pub mod theme_pack;
