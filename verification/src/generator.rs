//! Validated generation of the three ABI artifacts, and the comparison of a
//! checked-in artifact with freshly generated text.

use vstd::prelude::*;
use crate::reference::{reference_source, render_reference};
use crate::render_c::{c_source, render_c};
use crate::render_rust::{render_rust, rust_source};
use crate::schema::AbiSchema;
use crate::text::str_eq;
use crate::validate::{reports, schema_diagnostic, schema_valid, validate, Error};

verus! {

/// Repository path of the generated Rust definitions.
pub const GENERATED_RUST: &'static str = "src/generated.rs";

/// Repository path of the generated C header.
pub const GENERATED_C: &'static str = "include/hyper/native.h";

/// Repository path of the generated Markdown reference.
pub const GENERATED_REFERENCE: &'static str = "docs/native.md";

/// The three rendered artifacts of one schema.
#[derive(Debug)]
pub struct GeneratedFiles {
    pub rust: String,
    pub c: String,
    pub reference: String,
}

/// Validates `schema` and renders its Rust, C and Markdown artifacts.
pub fn generate(schema: &AbiSchema) -> (r: Result<GeneratedFiles, Error>)
    ensures
        r is Ok <==> schema_valid(*schema),
        r matches Ok(files) ==> {
            &&& files.rust@ == rust_source(*schema)
            &&& files.c@ == c_source(*schema)
            &&& files.reference@ == reference_source(*schema)
        },
        r matches Err(e) ==> e is InvalidSchema,
        reports(r, schema_diagnostic(*schema)),
{
    match validate(schema) {
        Ok(()) => Ok(
            GeneratedFiles {
                rust: render_rust(schema),
                c: render_c(schema),
                reference: render_reference(schema),
            },
        ),
        Err(e) => Err(e),
    }
}

/// Compares a checked-in artifact with the expected text: equal text is
/// current, anything else is drift at `path`.
pub fn check_output_text(path: &str, actual: &str, expected: &str) -> (r: Result<(), Error>)
    ensures
        r is Ok <==> actual@ == expected@,
        r matches Err(e) ==> e matches Error::Drift { path: p } && p@ == path@,
{
    if str_eq(actual, expected) {
        Ok(())
    } else {
        Err(Error::Drift { path: String::from_str(path) })
    }
}

/// Checks the checked-in artifacts against those generated from `schema`:
/// an invalid schema is rejected first; then the Rust definitions, the C
/// header and the reference are compared in that order, and the first that
/// differs is reported as drift at its repository path.
pub fn check_repository_outputs(
    schema: &AbiSchema,
    actual_rust: &str,
    actual_c: &str,
    actual_reference: &str,
) -> (r: Result<(), Error>)
    ensures
        !schema_valid(*schema) ==> (r matches Err(Error::InvalidSchema(m)) && schema_diagnostic(
            *schema,
        ) == Some(m@)),
        schema_valid(*schema) ==> {
            &&& (r is Ok <==> actual_rust@ == rust_source(*schema) && actual_c@ == c_source(*schema)
                && actual_reference@ == reference_source(*schema))
            &&& (actual_rust@ != rust_source(*schema) ==> (r matches Err(Error::Drift { path })
                && path@ == GENERATED_RUST@))
            &&& (actual_rust@ == rust_source(*schema) && actual_c@ != c_source(*schema) ==> (r matches Err(
                Error::Drift { path },
            ) && path@ == GENERATED_C@))
            &&& (actual_rust@ == rust_source(*schema) && actual_c@ == c_source(*schema)
                && actual_reference@ != reference_source(*schema) ==> (r matches Err(
                Error::Drift { path },
            ) && path@ == GENERATED_REFERENCE@))
        },
{
    let generated = match generate(schema) {
        Ok(files) => files,
        Err(e) => {
            return Err(e);
        },
    };
    let checked = check_output_text(GENERATED_RUST, actual_rust, generated.rust.as_str());
    if let Err(e) = checked {
        return Err(e);
    }
    let checked = check_output_text(GENERATED_C, actual_c, generated.c.as_str());
    if let Err(e) = checked {
        return Err(e);
    }
    check_output_text(GENERATED_REFERENCE, actual_reference, generated.reference.as_str())
}

} // verus!
