//! Classification of the Open Meteo API's replies.

use vstd::prelude::*;
use vstd::string::StringExecFns;
use crate::text::{decimal_text, spec_decimal};

verus! {

/// A reply of the Open Meteo API: its HTTP status code and the reply itself.
pub struct FetchedResponse<R> {
    pub status: u16,
    pub response: R,
}

/// Why a request to the Open Meteo API brought no reply.
pub enum TransportError {
    /// The request timed out.
    Timeout,
    /// Any other failure, with its text.
    Other(String),
}

/// Why a request to the Open Meteo API failed for good.
pub enum FetchError {
    /// The request brought no reply; the text of its failure.
    Transport(String),
    /// The API answered with a status that is neither success nor transient.
    HttpStatus { context: String, status: u16 },
}

/// Statuses that mean the API is temporarily unable to answer:
/// 408 (Request Timeout) and 503 (Service Unavailable).
pub open spec fn is_transient_status(status: u16) -> bool {
    status == 408 || status == 503
}

impl FetchError {
    /// The text of the error.
    pub open spec fn spec_message(&self) -> Seq<char> {
        match self {
            FetchError::Transport(m) => m@,
            FetchError::HttpStatus { context, status } => "Failed to fetch '"@ + context@
                + "' from Open Meteo API: HTTP "@ + spec_decimal(*status as nat),
        }
    }

    /// Returns the text of the error.
    pub fn message(&self) -> (text: String)
        ensures
            text@ == self.spec_message(),
    {
        match self {
            FetchError::Transport(m) => m.clone(),
            FetchError::HttpStatus { context, status } => {
                let text = String::from_str("Failed to fetch '");
                let text = text.concat(context.as_str());
                let text = text.concat("' from Open Meteo API: HTTP ");
                let code = decimal_text(*status as u64);
                text.concat(code.as_str())
            },
        }
    }
}

/// The outcome of a request, as `handle_errors` classifies it.
pub open spec fn spec_handle_errors<R>(
    context: Seq<char>,
    response: Result<FetchedResponse<R>, TransportError>,
    r: Result<Option<FetchedResponse<R>>, FetchError>,
) -> bool {
    match response {
        Ok(reply) => if reply.status == 200 {
            r == Ok::<Option<FetchedResponse<R>>, FetchError>(Some(reply))
        } else if is_transient_status(reply.status) {
            r == Ok::<Option<FetchedResponse<R>>, FetchError>(None)
        } else {
            &&& r matches Err(FetchError::HttpStatus { context: c, status: s })
            &&& c@ == context
            &&& s == reply.status
        },
        Err(TransportError::Timeout) => r == Ok::<Option<FetchedResponse<R>>, FetchError>(None),
        Err(TransportError::Other(m)) => r == Err::<Option<FetchedResponse<R>>, FetchError>(FetchError::Transport(m)),
    }
}

/// Classifies the outcome of a request to the Open Meteo API: a successful
/// reply (status 200) is kept, a known transient failure (a timeout, or a
/// status 408 or 503) gives `Ok(None)`, anything else is an error.
pub fn handle_errors<R>(context: &str, response: Result<FetchedResponse<R>, TransportError>) -> (r: Result<
    Option<FetchedResponse<R>>,
    FetchError,
>)
    ensures
        spec_handle_errors(context@, response, r),
        (response is Ok && response->Ok_0.status != 200 && response->Ok_0.status != 408 && response->Ok_0.status != 503) ==> {
            &&& r matches Err(FetchError::HttpStatus { context: c, status: s })
            &&& c@ == context@
            &&& s == response->Ok_0.status
        },
        (response is Ok && (response->Ok_0.status == 408 || response->Ok_0.status == 503)) ==> (r matches Ok(None)),
{
    match response {
        Ok(reply) => {
            if reply.status == 200 {
                Ok(Some(reply))
            } else {
                handle_fail(context, reply)
            }
        },
        Err(TransportError::Timeout) => Ok(None),
        Err(TransportError::Other(m)) => Err(FetchError::Transport(m)),
    }
}

/// Classifies an unsuccessful reply: `Ok(None)` for a transient failure,
/// an error otherwise.
fn handle_fail<R>(context: &str, reply: FetchedResponse<R>) -> (r: Result<Option<FetchedResponse<R>>, FetchError>)
    ensures
        is_transient_status(reply.status) ==> r == Ok::<Option<FetchedResponse<R>>, FetchError>(None),
        !is_transient_status(reply.status) ==> {
            &&& r matches Err(FetchError::HttpStatus { context: c, status: s })
            &&& c@ == context@
            &&& s == reply.status
        },
{
    if reply.status == 408 || reply.status == 503 {
        Ok(None)
    } else {
        Err(FetchError::HttpStatus { context: String::from_str(context), status: reply.status })
    }
}

/// A reply with status 200 is kept as it is; only statuses 408 and 503 (and
/// a timeout) are transient failures; a reply with any other status is an
/// error that carries that status and the context.
pub proof fn lemma_status_classification<R>(
    context: Seq<char>,
    response: Result<FetchedResponse<R>, TransportError>,
    r: Result<Option<FetchedResponse<R>>, FetchError>,
)
    requires
        spec_handle_errors(context, response, r),
    ensures
        (response is Ok && response->Ok_0.status == 200) ==> (r matches Ok(Some(kept)) && kept == response->Ok_0),
        (response is Ok && (response->Ok_0.status == 408 || response->Ok_0.status == 503)) ==> (r matches Ok(None)),
        (response is Ok && response->Ok_0.status != 200 && response->Ok_0.status != 408 && response->Ok_0.status != 503) ==> {
            &&& r matches Err(FetchError::HttpStatus { context: c, status: s })
            &&& c@ == context
            &&& s == response->Ok_0.status
        },
        (response matches Err(TransportError::Timeout)) ==> (r matches Ok(None)),
        (response is Err && response->Err_0 is Other) ==> (r matches Err(FetchError::Transport(m2)) && m2 == response->Err_0->Other_0),
{
}

} // verus!
