//! The paste service, as far as it can be judged without a network: what an
//! answer of the service means, and the command that fetches a paste.

use crate::text::{trim, trimmed};
use vstd::prelude::*;
use vstd::string::StringExecFns;

verus! {

/// Why no paste was made.
#[derive(Debug)]
pub enum PastebinError {
    /// The request did not get through; the text describes why.
    Reqwest(String),
    /// The service answered with this status instead of 200.
    FailedResponse(u16),
}

/// What a `PastebinError` holds, as mathematical values.
pub enum PastebinErrorView {
    Reqwest(Seq<char>),
    FailedResponse(u16),
}

impl View for PastebinError {
    type V = PastebinErrorView;

    open spec fn view(&self) -> PastebinErrorView {
        match self {
            PastebinError::Reqwest(e) => PastebinErrorView::Reqwest(e@),
            PastebinError::FailedResponse(status) => PastebinErrorView::FailedResponse(*status),
        }
    }
}

/// What came back from the service: the status and the body of its answer,
/// or the description of a request that did not get through.
pub type Response = Result<(u16, String), String>;

/// What a `Response` holds, as mathematical values.
pub type ResponseView = Result<(u16, Seq<char>), Seq<char>>;

/// The view of a response.
pub open spec fn response_view(r: Response) -> ResponseView {
    match r {
        Ok((status, body)) => Ok((status, body@)),
        Err(e) => Err(e@),
    }
}

/// The view of an address or a command, or of the reason why there is none.
pub open spec fn paste_view(r: Result<String, PastebinError>) -> Result<
    Seq<char>,
    PastebinErrorView,
> {
    match r {
        Ok(s) => Ok(s@),
        Err(e) => Err(e@),
    }
}

/// The status with which the service says that a paste was made.
pub const STATUS_OK: u16 = 200;

/// The address of the service.
pub open spec fn endpoint_spec() -> Seq<char> {
    "https://pb.li7g.com"@
}

/// The address of the service.
pub fn endpoint() -> (r: &'static str)
    ensures
        r@ == endpoint_spec(),
{
    "https://pb.li7g.com"
}

/// The name of the form field that carries the content.
pub open spec fn field_spec() -> Seq<char> {
    "c"@
}

/// The name of the form field that carries the content.
pub fn field() -> (r: &'static str)
    ensures
        r@ == field_spec(),
{
    "c"
}

/// The address of a paste: the body of an answer with status 200, without
/// the white space around it. Any other answer is a failure.
pub open spec fn url_spec(response: ResponseView) -> Result<Seq<char>, PastebinErrorView> {
    match response {
        Ok((status, body)) => if status == STATUS_OK {
            Ok(trim(body))
        } else {
            Err(PastebinErrorView::FailedResponse(status))
        },
        Err(e) => Err(PastebinErrorView::Reqwest(e)),
    }
}

/// The command that fetches a paste from its address.
pub open spec fn fetch_spec(url: Seq<char>) -> Seq<char> {
    "curl "@ + url
}

/// The command that fetches the paste which an answer announces.
pub open spec fn curl_command_spec(response: ResponseView) -> Result<
    Seq<char>,
    PastebinErrorView,
> {
    match url_spec(response) {
        Ok(url) => Ok(fetch_spec(url)),
        Err(e) => Err(e),
    }
}

/// The address of the paste which an answer of the service announces.
pub fn url(response: Response) -> (r: Result<String, PastebinError>)
    ensures
        paste_view(r) == url_spec(response_view(response)),
{
    match response {
        Ok((status, body)) => {
            if status == STATUS_OK {
                Ok(trimmed(body.as_str()))
            } else {
                Err(PastebinError::FailedResponse(status))
            }
        },
        Err(e) => Err(PastebinError::Reqwest(e)),
    }
}

/// The command that fetches the paste which an answer of the service
/// announces.
pub fn curl_command(response: Response) -> (r: Result<String, PastebinError>)
    ensures
        paste_view(r) == curl_command_spec(response_view(response)),
{
    match url(response) {
        Ok(address) => Ok(String::from_str("curl ").concat(address.as_str())),
        Err(e) => Err(e),
    }
}

/// What is recorded for an upload: the command that fetches the paste, or
/// nothing where no paste was made. A failed upload is no failure of the
/// request.
pub fn paste_command(response: Response) -> (r: Option<String>)
    ensures
        crate::text::option_view(r) == (match curl_command_spec(response_view(response)) {
            Ok(command) => Some(command),
            Err(_) => None,
        }),
{
    match curl_command(response) {
        Ok(command) => Some(command),
        Err(_) => None,
    }
}

} // verus!
