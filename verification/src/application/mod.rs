pub mod app;
pub mod clipboard;
pub mod events;
pub mod file_operations;
pub mod input;
pub mod invariants;
pub mod model;
pub mod modes;
pub mod query_execution;
pub mod state;

pub use app::App;
pub use state::AppAction;
pub use state::AppMessage;
pub use state::AppMode;
pub use state::StartupResult;
