use vstd::prelude::*;

verus! {

/// What the user asks for on the command line.
#[derive(Debug)]
pub struct Args {
    /// The path of the SQL file to open.
    pub file: Option<String>,
    /// The path of the environment file.
    pub env: String,
    /// Whether the loading animation is switched off.
    pub no_matrix: bool,
    /// The level of the notifications.
    pub toast_level: String,
    /// A query to execute at once.
    pub query: Option<String>,
}

} // verus!
