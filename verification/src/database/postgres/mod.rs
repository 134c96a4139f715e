pub mod formatting;

pub use formatting::PostgresFormatter;
