//! The analysis of one exchange, after it was handed off: the request and the
//! two responses are decoded, each on its own, into one comparison record.

use vstd::prelude::*;
use vstd::string::*;
use crate::error::{HttpError, ServerError, ServerErrorView};
use crate::request::{request_of, DecodedHttpRequest, RawHttpRequest, RequestView};
use crate::response::{response_of, DecodedHttpResponse, RawHttpResponse, ResponseView};

verus! {

/// What a connection hands off: the request as it was read and the primary's
/// response as it was written to the client.
pub type PipelineItem = (RawHttpRequest, RawHttpResponse);

/// What the analysis of one exchange found: the decoded request, the decoded
/// response of the primary and that of the shadow. A slot whose bytes could
/// not be decoded holds the reason.
#[derive(Debug)]
pub struct ComparisonRecord {
    pub request: Result<DecodedHttpRequest, HttpError>,
    pub primary: Result<DecodedHttpResponse, HttpError>,
    pub shadow: Result<DecodedHttpResponse, HttpError>,
}

/// A `ComparisonRecord` as plain values.
pub struct RecordView {
    pub request: Result<RequestView, HttpError>,
    pub primary: Result<ResponseView, HttpError>,
    pub shadow: Result<ResponseView, HttpError>,
}

impl View for ComparisonRecord {
    type V = RecordView;

    open spec fn view(&self) -> RecordView {
        RecordView {
            request: match self.request {
                Ok(decoded) => Ok(decoded@),
                Err(e) => Err(e),
            },
            primary: match self.primary {
                Ok(decoded) => Ok(decoded@),
                Err(e) => Err(e),
            },
            shadow: match self.shadow {
                Ok(decoded) => Ok(decoded@),
                Err(e) => Err(e),
            },
        }
    }
}

/// The record of an exchange whose shadow answered: each slot is what its
/// bytes decode to.
pub open spec fn record_of(request: Seq<u8>, primary: Seq<u8>, shadow: Seq<u8>) -> RecordView {
    RecordView {
        request: request_of(request),
        primary: response_of(primary),
        shadow: response_of(shadow),
    }
}

/// The lines for the operator that a record gives rise to: one for each slot
/// that could not be decoded, in the order request, primary, shadow.
pub open spec fn failure_lines(record: RecordView) -> Seq<Seq<char>> {
    (match record.request {
        Ok(_) => Seq::<Seq<char>>::empty(),
        Err(e) => seq!["error parsing request: "@ + e.spec_message()],
    }) + (match record.primary {
        Ok(_) => Seq::<Seq<char>>::empty(),
        Err(e) => seq!["error parsing main response: "@ + e.spec_message()],
    }) + (match record.shadow {
        Ok(_) => Seq::<Seq<char>>::empty(),
        Err(e) => seq!["error parsing shadow response: "@ + e.spec_message()],
    })
}

/// The texts of a list of lines.
pub open spec fn lines_view(lines: Seq<String>) -> Seq<Seq<char>> {
    Seq::new(lines.len(), |i: int| lines[i]@)
}

/// Analyses one exchange with what the call to the shadow gave. Where that
/// call failed there is no record, and the error of the call comes back for
/// the log. Otherwise there is exactly one record, whatever the bytes hold: a
/// slot that does not decode does not keep the others from being decoded.
pub fn analyze(exchange: PipelineItem, shadow: Result<RawHttpResponse, ServerError>) -> (outcome:
    Result<ComparisonRecord, ServerError>)
    ensures
        match shadow {
            Ok(answer) => outcome is Ok && outcome.unwrap()@ == record_of(
                exchange.0@,
                exchange.1@,
                answer@,
            ),
            Err(error) => outcome is Err && outcome.unwrap_err()@ == error@,
        },
{
    match shadow {
        Ok(answer) => {
            let request = exchange.0.decode();
            let primary = exchange.1.decode();
            let shadow = answer.decode();
            Ok(ComparisonRecord { request, primary, shadow })
        },
        Err(error) => Err(error),
    }
}

impl ComparisonRecord {
    /// Whether both responses were decoded, so that they can be compared.
    pub fn is_comparable(&self) -> (both: bool)
        ensures
            both == (self@.primary is Ok && self@.shadow is Ok),
    {
        self.primary.is_ok() && self.shadow.is_ok()
    }

    /// The lines for the operator: one for each slot that could not be
    /// decoded.
    pub fn failures(&self) -> (lines: Vec<String>)
        ensures
            lines_view(lines@) == failure_lines(self@),
    {
        let mut lines: Vec<String> = Vec::new();
        if let Err(e) = &self.request {
            let mut line = String::from_str("error parsing request: ");
            line.append(e.message().as_str());
            lines.push(line);
        }
        if let Err(e) = &self.primary {
            let mut line = String::from_str("error parsing main response: ");
            line.append(e.message().as_str());
            lines.push(line);
        }
        if let Err(e) = &self.shadow {
            let mut line = String::from_str("error parsing shadow response: ");
            line.append(e.message().as_str());
            lines.push(line);
        }
        assert(lines_view(lines@) =~= failure_lines(self@));
        lines
    }
}

} // verus!
