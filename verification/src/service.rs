//! The two ways into the renderer: the handler behind the HTTP endpoint and
//! the command of the desktop shell. Both validate first and render with the
//! same function.

use crate::error::{AppErrorView, AppResult};
use crate::extractors::ValidatedJson;
use crate::render::{
    core_generate_design, debug_list_text, lemma_document_begins_with_title, rendered, title_line,
};
use crate::request::{DesignRequest, DesignRequestView};
use crate::text::{contains, starts_with};
use crate::validation::{
    lemma_message_names_exceeding_field, lemma_no_violation_iff_all_within,
    validate_design_request, violations_message,
};
use vstd::prelude::*;

verus! {

/// The body of a successful response.
#[derive(Debug)]
pub struct DesignResponse {
    pub markdown: String,
}

/// What the desktop command answers for a request: its document, or the
/// message that lists its violations.
pub open spec fn command_outcome(request: DesignRequestView) -> Result<Seq<char>, Seq<char>> {
    if request.within_limits() {
        Ok(rendered(request))
    } else {
        Err(violations_message(request.violations()))
    }
}

/// What the HTTP endpoint answers for the outcome of decoding a body: the
/// document of a valid request, a bad request where decoding failed, a
/// validation error where a rule is broken.
pub open spec fn http_outcome(decoded: Result<DesignRequestView, Seq<char>>) -> Result<
    Seq<char>,
    AppErrorView,
> {
    match decoded {
        Err(words) => Err(AppErrorView::BadRequest(words)),
        Ok(request) => if request.within_limits() {
            Ok(rendered(request))
        } else {
            Err(AppErrorView::Validation(violations_message(request.violations())))
        },
    }
}

/// The view of a decoding outcome.
pub open spec fn decoded_view(decoded: Result<DesignRequest, String>) -> Result<
    DesignRequestView,
    Seq<char>,
> {
    match decoded {
        Ok(request) => Ok(request@),
        Err(words) => Err(words@),
    }
}

/// The view of a handling outcome.
pub open spec fn response_view(outcome: AppResult<DesignResponse>) -> Result<
    Seq<char>,
    AppErrorView,
> {
    match outcome {
        Ok(response) => Ok(response.markdown@),
        Err(error) => Err(error@),
    }
}

/// Renders a validated request into the body of a response. Cannot fail.
pub fn generate_design(payload: ValidatedJson<DesignRequest>) -> (outcome: AppResult<
    DesignResponse,
>)
    ensures
        outcome matches Ok(response) && response.markdown@ == rendered(payload.0@),
{
    let markdown = core_generate_design(&payload.0);
    Ok(DesignResponse { markdown })
}

/// Handles one request to the endpoint, from the outcome of decoding its body
/// to the response: validates, then renders.
pub fn handle_generate(decoded: Result<DesignRequest, String>) -> (outcome: AppResult<
    DesignResponse,
>)
    ensures
        response_view(outcome) == http_outcome(decoded_view(decoded)),
{
    proof {
        if decoded.is_ok() {
            lemma_no_violation_iff_all_within(decoded.unwrap()@.checks());
        }
    }
    match ValidatedJson::from_request(decoded) {
        Ok(valid) => generate_design(valid),
        Err(error) => Err(error),
    }
}

/// The command of the desktop shell: validates the request and renders it, or
/// answers with the message that lists its violations.
pub fn generate_design_command(payload: DesignRequest) -> (outcome: Result<String, String>)
    ensures
        match outcome {
            Ok(markdown) => command_outcome(payload@) == Ok::<Seq<char>, Seq<char>>(markdown@),
            Err(message) => command_outcome(payload@) == Err::<Seq<char>, Seq<char>>(message@),
        },
{
    match validate_design_request(&payload) {
        Ok(()) => Ok(core_generate_design(&payload)),
        Err(message) => Err(message),
    }
}

/// The command and the endpoint answer alike: for every request, both
/// succeed or both fail, a success of either is the same document, and a
/// failure of either carries the same message.
pub proof fn lemma_command_and_endpoint_agree(request: DesignRequestView)
    ensures
        command_outcome(request).is_ok() <==> http_outcome(Ok(request)).is_ok(),
        command_outcome(request) matches Ok(markdown) ==> http_outcome(Ok(request)) == Ok::<
            Seq<char>,
            AppErrorView,
        >(markdown),
        command_outcome(request) matches Err(message) ==> http_outcome(Ok(request)) == Err::<
            Seq<char>,
            AppErrorView,
        >(AppErrorView::Validation(message)),
{
}

/// A request within its limits has no violation and is answered with its
/// document, by the command and by the endpoint; and that document holds the
/// title line with the request's use case, at its very beginning.
pub proof fn lemma_valid_request_is_rendered(request: DesignRequestView)
    requires
        request.within_limits(),
    ensures
        request.violations().len() == 0,
        command_outcome(request) == Ok::<Seq<char>, Seq<char>>(rendered(request)),
        http_outcome(Ok(request)) == Ok::<Seq<char>, AppErrorView>(rendered(request)),
        starts_with(rendered(request), title_line(request.purpose.use_case)),
        contains(rendered(request), title_line(request.purpose.use_case)),
{
    lemma_no_violation_iff_all_within(request.checks());
    lemma_document_begins_with_title(
        request,
        debug_list_text(request.tools.apis),
        debug_list_text(request.tools.mcp_servers),
        debug_list_text(request.testing.unit_tests),
    );
}

/// A request with a field over its limit is refused with status 422, and the
/// message that the client sees holds the name of that field.
pub proof fn lemma_over_limit_is_unprocessable(request: DesignRequestView, i: int)
    requires
        0 <= i < request.checks().len(),
        request.checks()[i].length > request.checks()[i].max,
    ensures
        http_outcome(Ok(request)) matches Err(error) && error.status() == 422 && contains(
            error.client_message(),
            request.checks()[i].name,
        ),
        command_outcome(request) matches Err(message) && contains(
            message,
            request.checks()[i].name,
        ),
{
    lemma_message_names_exceeding_field(request, i);
}

/// A body that cannot be decoded is refused with status 400 and the code
/// `BAD_REQUEST`, whatever the decoder said.
pub proof fn lemma_undecodable_is_bad_request(words: Seq<char>)
    ensures
        http_outcome(Err(words)) matches Err(error) && error.status() == 400 && error.code()
            == "BAD_REQUEST"@,
{
}

} // verus!
