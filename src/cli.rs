//! The options a caller chooses a generation run with.
use vstd::prelude::*;

verus! {

/// The test ecosystem to generate for.
#[derive(Debug, Clone, Copy, PartialEq, Eq, Structural)]
pub enum TestFramework {
    /// Rust tests using reqwest and tokio.
    Reqwest,
    /// Python tests using pytest and requests.
    Pytest,
    /// JavaScript tests using Jest and axios.
    Jest,
    /// A Postman collection.
    Postman,
}

/// The options of one generation run.
pub struct Args {
    /// Path of the Swagger/OpenAPI document.
    pub input: String,
    /// Directory the generated files go to.
    pub output_dir: String,
    pub framework: TestFramework,
    /// Base URL the generated tests call.
    pub base_url: String,
    /// Whether to report progress in detail.
    pub verbose: bool,
}

} // verus!
