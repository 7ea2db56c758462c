//! Menu model and activation-event dispatch for a desktop application shell.
//!
//! The crate has two halves. `menu` declares the application's menu tree:
//! an immutable, ordered tree of groups, items and separators, where every
//! interactive item carries a stable string identifier. `dispatch` routes an
//! activation event, carrying such an identifier, to what the application
//! should do: broadcast a debug-action notification, log a placeholder line,
//! or log an unexpected-identifier warning. Both halves are pure; the host
//! shell that renders the menu, raises the events, and owns the event bus
//! lives outside this crate.

pub mod dispatch;
pub mod menu;
pub mod text;
