//! Core of a two-pane terminal chat mockup: a selectable item list on the
//! left, a message log with a text-input box on the right.
//!
//! This crate holds the verified parts: the application state machine
//! (selection cursor, input buffer, message history) and the pure render
//! computation that turns a state into draw instructions. Terminal setup,
//! raw input and the actual drawing live outside the library.

pub mod render;
pub mod state;

pub use render::ListRow;
pub use render::RenderPlan;
pub use render::decimal_string;
pub use render::list_rows;
pub use render::message_lines;
pub use render::render_plan;
pub use render::split_chat_rows;
pub use render::split_columns;
pub use state::App;
pub use state::AppView;
pub use state::Event;
pub use state::Key;
