//! Analysis pipeline: runs the external WGSL parser and validator over a
//! source text and classifies the outcome as a validated module summary, a
//! parse failure, or a validation failure, each failure carrying the byte span
//! the external capability reported.

use vstd::prelude::*;

verus! {

/// Summary of a successfully validated module: the externally visible entry
/// point names. Downstream features needing more read the module again.
#[derive(Clone, Debug)]
pub struct ModuleSummary {
    pub entry_points: Vec<String>,
}

/// A classified analysis failure: the reporter's message and the half-open
/// byte span `[span_start, span_end)` in the analyzed text. A failure with no
/// recorded span is carried as the empty span at offset zero.
#[derive(Clone, Debug)]
pub struct ErrorInfo {
    pub message: String,
    pub span_start: usize,
    pub span_end: usize,
}

/// The outcome of analyzing one source text. Parsing and validation
/// short-circuit, so at most one failure is reported per run.
#[derive(Clone, Debug)]
pub enum AnalysisResult {
    Valid(ModuleSummary),
    ParseFailed(ErrorInfo),
    ValidationFailed(ErrorInfo),
}

#[verifier::external_type_specification]
#[verifier::external_body]
pub struct ExModule(naga::Module);

#[verifier::external_type_specification]
#[verifier::external_body]
pub struct ExParseError(naga::front::wgsl::ParseError);

#[verifier::external_type_specification]
#[verifier::external_body]
pub struct ExValidator(naga::valid::Validator);

#[verifier::external_type_specification]
#[verifier::external_body]
pub struct ExModuleInfo(naga::valid::ModuleInfo);

#[verifier::external_type_specification]
#[verifier::external_body]
pub struct ExValidationError(naga::valid::ValidationError);

#[verifier::external_type_specification]
#[verifier::external_body]
#[verifier::reject_recursive_types(E)]
pub struct ExWithSpan<E>(naga::WithSpan<E>);

/// Whether the WGSL parser accepts this source text. Parsing is a function of
/// the text alone, so the outcome may be given a name without being written
/// out.
pub uninterp spec fn wgsl_parse_ok(source: Seq<char>) -> bool;

/// Relies on naga::front::wgsl::parse_str: it returns `Ok` with the lowered
/// module exactly when the source parses, and the outcome depends on the
/// source text alone.
#[verifier::external_body]
fn parse_wgsl(source: &str) -> (r: Result<naga::Module, naga::front::wgsl::ParseError>)
    ensures
        r is Ok <==> wgsl_parse_ok(source@),
{
    naga::front::wgsl::parse_str(source)
}

/// Relies on naga::front::wgsl::ParseError::message: the error's
/// human-readable message.
#[verifier::external_body]
fn parse_error_message(e: &naga::front::wgsl::ParseError) -> (r: String) {
    e.message().to_string()
}

/// Relies on naga::front::wgsl::ParseError::labels and naga::Span::to_range:
/// the first label is the primary one and its span is a half-open byte range
/// into the source; an undefined span comes out as the empty span at zero.
#[verifier::external_body]
fn parse_error_span(e: &naga::front::wgsl::ParseError) -> (r: (usize, usize)) {
    match e.labels().next().and_then(|(span, _)| span.to_range()) {
        Some(range) => (range.start, range.end),
        None => (0, 0),
    }
}

/// Relies on naga::valid::Validator::new, built as the engine always builds
/// it: all validation flags on, default capabilities.
#[verifier::external_body]
fn new_validator() -> (r: naga::valid::Validator) {
    naga::valid::Validator::new(
        naga::valid::ValidationFlags::all(),
        naga::valid::Capabilities::default(),
    )
}

/// Relies on naga::valid::Validator::validate. Its outcome depends on the
/// validator's accumulated state and the opaque module, so nothing is claimed
/// of it; callers handle both cases.
#[verifier::external_body]
fn validate_module(v: &mut naga::valid::Validator, module: &naga::Module) -> (r: Result<
    naga::valid::ModuleInfo,
    naga::WithSpan<naga::valid::ValidationError>,
>) {
    v.validate(module)
}

/// Relies on the Display form of naga::valid::ValidationError, reached through
/// naga::WithSpan::as_inner: the error's human-readable message.
#[verifier::external_body]
fn validation_error_message(e: &naga::WithSpan<naga::valid::ValidationError>) -> (r: String) {
    format!("{}", e.as_inner())
}

/// Relies on naga::WithSpan::spans and naga::Span::to_range: the first
/// recorded span context locates the error as a half-open byte range into the
/// source; an error without spans comes out as the empty span at zero.
#[verifier::external_body]
fn validation_error_span(e: &naga::WithSpan<naga::valid::ValidationError>) -> (r: (usize, usize)) {
    match e.spans().next().and_then(|sc| sc.0.to_range()) {
        Some(range) => (range.start, range.end),
        None => (0, 0),
    }
}

/// Relies on the public `entry_points` field of naga::Module: the names of the
/// module's entry points.
#[verifier::external_body]
fn module_entry_points(module: &naga::Module) -> (r: Vec<String>) {
    module.entry_points.iter().map(|ep| ep.name.clone()).collect()
}

/// Classifies the validator's outcome for an already parsed module: `Ok`
/// becomes `Valid` with the module's summary, `Err` becomes
/// `ValidationFailed` with the reported message and span.
pub fn classify_validation(
    outcome: Result<naga::valid::ModuleInfo, naga::WithSpan<naga::valid::ValidationError>>,
    module: &naga::Module,
) -> (r: AnalysisResult)
    ensures
        r is Valid <==> outcome is Ok,
        r is ValidationFailed <==> outcome is Err,
        !(r is ParseFailed),
{
    match outcome {
        Ok(_info) => AnalysisResult::Valid(
            ModuleSummary { entry_points: module_entry_points(module) },
        ),
        Err(e) => {
            let (span_start, span_end) = validation_error_span(&e);
            AnalysisResult::ValidationFailed(
                ErrorInfo { message: validation_error_message(&e), span_start, span_end },
            )
        },
    }
}

/// Analyzes one source text: parse, and on success validate. A pure function
/// of its input text, with no dependency on prior engine state; it fails with
/// `ParseFailed` exactly on the sources the parser rejects, and otherwise
/// returns `Valid` or `ValidationFailed` as the validator decides.
pub fn analyze(source: &str) -> (r: AnalysisResult)
    ensures
        r is ParseFailed <==> !wgsl_parse_ok(source@),
        (r is Valid || r is ValidationFailed) <==> wgsl_parse_ok(source@),
{
    match parse_wgsl(source) {
        Err(e) => {
            let (span_start, span_end) = parse_error_span(&e);
            AnalysisResult::ParseFailed(
                ErrorInfo { message: parse_error_message(&e), span_start, span_end },
            )
        },
        Ok(module) => {
            let mut validator = new_validator();
            let outcome = validate_module(&mut validator, &module);
            classify_validation(outcome, &module)
        },
    }
}

} // verus!
