//! Core engine of a terminal video-search application.
//!
//! The library holds everything with real state and sequencing logic: the
//! modal input editor, the clamped list-selection model, the result store,
//! the mode/tab state machine that routes input events, and the search
//! orchestration that commits a collaborator's results into the state.
//! Terminal rendering, the remote search client and the external player are
//! collaborators driven by a thin unverified shell around this crate.

pub mod app;
pub mod editor;
pub mod query;
pub mod results;
pub mod search;
pub mod selection;

pub use app::{App, Action, InputEvent, Mode, Tab};
pub use editor::InputBuffer;
pub use results::{ResultItem, ResultStore};
pub use search::{DetailRecord, SearchFailure, SearchHit};
pub use selection::SelectionModel;
