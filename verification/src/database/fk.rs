use crate::database::manager::SchemaCache;
use vstd::prelude::*;

verus! {

/// A source of the foreign keys of a schema.
pub trait ForeignKeyAnalyzer {
    fn analyze_foreign_keys(&self) -> Result<SchemaCache, String>;
}

} // verus!
