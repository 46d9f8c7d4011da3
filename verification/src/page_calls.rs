//! Requests for a homeserver's pages: its login flows and its capabilities.

use vstd::prelude::*;
use vstd::string::*;

use crate::daemon;
use crate::daemon::{Action, Resume, Step};
use crate::fetch;
use crate::fetch::{Endpoint, FetchReply, FetchResult};
use crate::rpc;
use crate::rpc::RpcError;

verus! {

/// Whether the step is the one that [`page_start`] takes.
pub open spec fn page_start_step(
    homeserver: String,
    endpoint: Endpoint,
    s: Step,
) -> bool {
    s matches Step::Perform(
        Action::ResolveHomeserver { homeserver: h },
        Resume::PageResolved { endpoint: e },
    ) && h@ == homeserver@ && e == endpoint
}

/// Starts to read a page: the homeserver is looked up.
pub fn page_start(homeserver: String, endpoint: Endpoint) -> (s: Step)
    ensures
        page_start_step(homeserver, endpoint, s),
{
    Step::Perform(Action::ResolveHomeserver { homeserver }, Resume::PageResolved { endpoint })
}

/// Whether the step is the one that [`page_resolved`] takes.
pub open spec fn page_resolved_step(
    endpoint: Endpoint,
    found: Result<String, String>,
    s: Step,
) -> bool {
    match found {
        Err(err) => daemon::refuses(s, rpc::internal_error_view(err@)),
        Ok(homeserver) => {
            &&& s matches Step::Perform(
                Action::Get { url },
                Resume::PageFetched { endpoint: e, homeserver: h },
            )
            &&& url@ == fetch::endpoint_url(homeserver@, endpoint)
            &&& e == endpoint
            &&& h@ == homeserver@
        },
    }
}

/// Goes on once the homeserver is known: the page is asked for.
pub fn page_resolved(endpoint: Endpoint, found: Result<String, String>) -> (s: Step)
    ensures
        page_resolved_step(endpoint, found, s),
{
    match found {
        Err(err) => daemon::failed(err.as_str()),
        Ok(homeserver) => {
            let url: String = fetch::url(homeserver.as_str(), endpoint);
            Step::Perform(Action::Get { url }, Resume::PageFetched { endpoint, homeserver })
        },
    }
}

/// The answer with a page.
pub open spec fn page_answered(
    s: Step,
    endpoint: Endpoint,
    homeserver: Seq<char>,
    page: Result<fetch::PageView, rpc::ErrorView>,
) -> bool {
    match page {
        Err(error) => daemon::refuses(s, error),
        Ok(p) => daemon::replies(s, fetch::page_json(homeserver, endpoint, p)),
    }
}

/// Ends the request with the page, or with the error in its place.
pub fn page_known(
    endpoint: Endpoint,
    homeserver: &str,
    page: Result<FetchResult, RpcError>,
) -> (s: Step)
    ensures
        page_answered(s, endpoint, homeserver@, fetch::page_outcome(page)),
{
    match page {
        Err(error) => Step::Reply(Err(error)),
        Ok(p) => Step::Reply(Ok(fetch::matrix_response(homeserver, endpoint, p))),
    }
}

/// Ends the request once the homeserver has answered.
pub fn page_fetched(endpoint: Endpoint, homeserver: &str, reply: FetchReply) -> (s: Step)
    requires
        reply.valid(),
    ensures
        page_answered(s, endpoint, homeserver@, fetch::reply_meaning(reply, endpoint)),
{
    page_known(endpoint, homeserver, fetch::interpret(reply, endpoint))
}

} // verus!
