pub mod fk;
pub mod lookup;
pub mod manager;
pub mod postgres;
pub mod query_result;

pub use manager::DatabaseManager;
pub use manager::SchemaCache;
pub use query_result::ForeignKeyInfo;
pub use query_result::QueryResult;
pub use fk::ForeignKeyAnalyzer;
