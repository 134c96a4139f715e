pub mod analyzer;
pub mod block;
pub mod parser;
pub mod pattern;
pub mod safety;
pub mod utils;

pub use block::QueryBlock;
pub use parser::QueryParser;
pub use safety::SafetyChecker;
pub use analyzer::QueryAnalyzer;
