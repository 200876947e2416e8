//! Register routing, operator pending-state classification, and action-replay
//! recording for a modal text-editing mode.
//!
//! The crate decides where yanked, deleted and changed text is stored (named,
//! special and numbered registers, and the system clipboard), where a paste
//! reads from, whether an operator blocks waiting for a further keystroke, and
//! how a stream of user actions is captured and replayed for dot-repeat and
//! keyboard macros. Host concerns (motion resolution, text mutation, the
//! actual clipboard device) stay outside: the host hands in plain values and
//! a clipboard model, and dispatches replayed actions itself.

pub mod clipboard;
pub mod globals;
pub mod laws;
pub mod mode;
pub mod register;
pub mod replay;
pub mod search;
pub mod store;

pub use clipboard::SystemClipboard;
pub use clipboard::UseSystemClipboard;
pub use globals::VimGlobals;
pub use mode::Mode;
pub use mode::Object;
pub use mode::Operator;
pub use mode::SurroundsType;
pub use register::ClipboardItem;
pub use register::ClipboardSelection;
pub use register::Register;
pub use replay::CommandInvocation;
pub use replay::RecordedSelection;
pub use replay::ReplayableAction;
pub use replay::Replayer;
pub use replay::Utf16Range;
pub use search::Direction;
pub use search::SearchState;
pub use search::SelectionRange;
pub use store::CharMap;
