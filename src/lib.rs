//! Generates API test suites from Swagger 2.0 and OpenAPI 3.x documents: the
//! document is normalized into one model, and each of four backends derives
//! its tests from that model with the same status and fixture rules.
use vstd::prelude::*;

pub mod text;
pub mod helpers;
pub mod json;
pub mod ir;
pub mod parser;
pub mod rules;
pub mod emit_reqwest;
pub mod emit_pytest;
pub mod emit_jest;
pub mod emit_postman;
pub mod generator;
pub mod cli;
pub mod swagger_doc;

use crate::cli::TestFramework;
use crate::generator::{create_generator, files_view, framework_files, GeneratedFile, GeneratorError};
use crate::json::{get_spec, json_decode};
use crate::parser::{parse_swagger_string, parsed_from, version_of, ParserError};
use crate::ir::SpecModel;

verus! {

/// Why a generation run failed.
#[derive(Debug)]
pub enum AppError {
    ParserError(ParserError),
    GeneratorError(GeneratorError),
    /// Reading the document or writing the output failed.
    IoError(String),
}

/// Generates the test files for `framework` from the text of a
/// Swagger/OpenAPI document; the caller writes them to the output directory.
pub fn generate_tests_from_spec(content: &str, framework: TestFramework, base_url: &str) -> (r: Result<Vec<GeneratedFile>, AppError>)
    ensures
        r is Ok <==> exists|m: SpecModel| #[trigger] parsed_from(content@, m),
        r matches Ok(files) ==> exists|m: SpecModel|
            #[trigger] parsed_from(content@, m) && framework_files(framework, m, base_url@, files_view(files@)),
        r matches Err(e) ==> e is ParserError,
        r matches Err(AppError::ParserError(ParserError::JsonError(_))) ==> json_decode(content@) is None,
        r matches Err(AppError::ParserError(ParserError::UnsupportedVersion)) ==> json_decode(content@) is Some
            && version_of(json_decode(content@)->0) is None,
        r matches Err(AppError::ParserError(ParserError::InvalidSpec(_))) ==> json_decode(content@) is Some
            && version_of(json_decode(content@)->0) is Some && get_spec(json_decode(content@)->0, "paths"@) is None,
        !(r matches Err(AppError::ParserError(ParserError::IoError(_)))),
{
    let spec = match parse_swagger_string(content) {
        Ok(s) => s,
        Err(e) => {
            proof {
                assert forall|m: SpecModel| !parsed_from(content@, m) by {}
            }
            return Err(AppError::ParserError(e));
        },
    };
    let generator = match create_generator(framework) {
        Ok(g) => g,
        Err(e) => return Err(AppError::GeneratorError(e)),
    };
    let files = generator.generate_tests(&spec, base_url);
    assert(parsed_from(content@, spec@));
    Ok(files)
}

} // verus!
