pub mod db;
pub mod fk;
pub mod loader;
pub mod matrix;
pub mod parser;
pub mod settings;

pub use db::DatabaseConfig;
pub use db::DatabaseType;
pub use fk::ForeignKeyConfig;
pub use loader::ConfigLoader;
pub use matrix::MatrixConfig;
pub use settings::Config;
