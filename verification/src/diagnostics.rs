//! Diagnostic publishing: turns an analysis result and the text it is being
//! reported against into zero or one diagnostics with a translated position
//! range. The pipeline short-circuits on the first failure, so a result never
//! yields more than one diagnostic.

use vstd::prelude::*;

use crate::analysis::AnalysisResult;
use crate::analysis::ErrorInfo;
use crate::position::TextRange;
use crate::position::range_of_span;
use crate::position::span_to_range;

verus! {

/// Diagnostic severity, in the editor protocol's order of gravity. This
/// pipeline only ever reports errors, but the publisher's output type carries
/// the protocol's full scale.
#[derive(Clone, Copy, Debug, PartialEq, Eq, Structural)]
pub enum Severity {
    Error,
    Warning,
    Information,
    Hint,
}

/// Which stage of the pipeline reported the failure; the editor shows it as
/// the diagnostic's source tag.
#[derive(Clone, Copy, Debug, PartialEq, Eq, Structural)]
pub enum DiagnosticSource {
    Parser,
    Validator,
}

/// One renderable diagnostic: a position range in the text it was published
/// against, a severity, a source tag, and the reporter's message.
#[derive(Clone, Debug)]
pub struct Diagnostic {
    pub range: TextRange,
    pub severity: Severity,
    pub source: DiagnosticSource,
    pub message: String,
}

/// The diagnostic that a failure `e` from stage `src` denotes in `text`: an
/// error whose range is the failure's byte span translated and clamped.
pub open spec fn diag_of_error(src: DiagnosticSource, e: ErrorInfo, text: Seq<u8>) -> Diagnostic {
    Diagnostic {
        range: range_of_span(text, e.span_start as int, e.span_end as int),
        severity: Severity::Error,
        source: src,
        message: e.message,
    }
}

/// The diagnostics an analysis result publishes against `text`: none for a
/// valid module, exactly one for either kind of failure.
pub open spec fn published_diags(r: AnalysisResult, text: Seq<u8>) -> Seq<Diagnostic> {
    match r {
        AnalysisResult::Valid(_) => Seq::empty(),
        AnalysisResult::ParseFailed(e) => seq![diag_of_error(DiagnosticSource::Parser, e, text)],
        AnalysisResult::ValidationFailed(e) => seq![
            diag_of_error(DiagnosticSource::Validator, e, text),
        ],
    }
}

/// Publishes a result against the text it is being reported on: zero
/// diagnostics for a valid module, exactly one for a failure, its span
/// translated into a line/column range and clamped into the text.
pub fn diagnostics_for(result: &AnalysisResult, text: &[u8]) -> (d: Vec<Diagnostic>)
    requires
        text@.len() <= usize::MAX / 2,
    ensures
        d@ == published_diags(*result, text@),
{
    let mut out: Vec<Diagnostic> = Vec::new();
    match result {
        AnalysisResult::Valid(_) => {},
        AnalysisResult::ParseFailed(e) => {
            let range = span_to_range(text, e.span_start, e.span_end);
            out.push(
                Diagnostic {
                    range,
                    severity: Severity::Error,
                    source: DiagnosticSource::Parser,
                    message: e.message.clone(),
                },
            );
        },
        AnalysisResult::ValidationFailed(e) => {
            let range = span_to_range(text, e.span_start, e.span_end);
            out.push(
                Diagnostic {
                    range,
                    severity: Severity::Error,
                    source: DiagnosticSource::Validator,
                    message: e.message.clone(),
                },
            );
        },
    }
    proof {
        assert(out@ =~= published_diags(*result, text@));
    }
    out
}

} // verus!
