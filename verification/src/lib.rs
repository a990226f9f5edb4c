//! Runtime GTK loader: the decisions behind the thin GTK wrappers.

pub mod behaviour;
pub mod calls;
pub mod error;
pub mod laws;
pub mod signals;
pub mod symbols;
pub mod wrappers;

pub use calls::{CallSpec, FfiCall};
pub use error::Error;
pub use symbols::{all_symbols, LibraryKind, SymbolId, Symbols};
pub use wrappers::{Application, BoxWidget, Button, Label, Orientation, Window};
