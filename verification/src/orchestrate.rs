use vstd::prelude::*;

use crate::assemble::{assemble, feed_of, render_feed, rss_document};
use crate::error::{error_obeys_rule, SourceError};
use crate::extract::{extract, extracted_items, extraction_succeeds};
use crate::html::parse_document;
use crate::rule::{RuleView, SourceRule};

verus! {

/// An HTTP status code counts as success exactly when it lies in the 2xx
/// range.
pub fn status_is_success(status: u16) -> (r: bool)
    ensures
        r == (200 <= status < 300),
{
    200 <= status && status < 300
}

/// The serialized feed document one source's response processes to, when it
/// does: the rule's extracted items assembled under its title and rendered.
pub open spec fn processed_document(html: Seq<char>, rule: RuleView) -> Seq<u8> {
    rss_document(feed_of(rule.title, extracted_items(html, rule)))
}

/// Everything that happens to one source after its page was fetched: reject a
/// non-success status, parse the body as HTML, extract the rule's items,
/// assemble them into a feed under the rule's title, and serialize it.
/// Succeeds exactly when the status is a success and extraction succeeds, and
/// then the bytes are the document that this body and rule determine; each
/// failure names its step.
pub fn process_response(rule: &SourceRule, status: u16, body: &str) -> (r: Result<
    Vec<u8>,
    SourceError,
>)
    ensures
        r is Ok <==> (200 <= status < 300) && extraction_succeeds(body@, rule@),
        r matches Ok(b) ==> b@ == processed_document(body@, rule@),
        !(200 <= status < 300) ==> (r matches Err(SourceError::Http { status: s }) && s == status),
        r matches Err(SourceError::Http { status: s }) ==> s == status && !(200 <= status < 300),
        r matches Err(SourceError::Extract { error }) ==> (200 <= status < 300)
            && !extraction_succeeds(body@, rule@) && error_obeys_rule(error, rule@),
{
    if !status_is_success(status) {
        return Err(SourceError::Http { status });
    }
    let doc = parse_document(body);
    let items = match extract(&doc, rule) {
        Ok(items) => items,
        Err(error) => {
            return Err(SourceError::Extract { error });
        },
    };
    let feed = assemble(rule.title.as_str(), items);
    let bytes = render_feed(&feed);
    proof {
        assert(feed@ == feed_of(rule.title@, extracted_items(body@, rule@)));
    }
    Ok(bytes)
}

/// Processing is pure: equal rules, statuses and bodies extract the same
/// items and serialize to byte-identical feed documents — running a source
/// twice on the same response cannot differ.
pub proof fn lemma_processing_deterministic(
    html1: Seq<char>,
    rule1: RuleView,
    html2: Seq<char>,
    rule2: RuleView,
)
    requires
        html1 == html2,
        rule1 == rule2,
    ensures
        extraction_succeeds(html1, rule1) == extraction_succeeds(html2, rule2),
        processed_document(html1, rule1) == processed_document(html2, rule2),
{
}

/// The run's overall outcome: success exactly when every source succeeded.
pub fn overall_success(outcomes: &Vec<bool>) -> (ok: bool)
    ensures
        ok == (forall|k: int| 0 <= k < outcomes@.len() ==> outcomes@[k]),
{
    let n = outcomes.len();
    let mut i: usize = 0;
    while i < n
        invariant
            i <= n,
            n == outcomes@.len(),
            forall|k: int| 0 <= k < i ==> outcomes@[k],
        decreases n - i,
    {
        if !outcomes[i] {
            return false;
        }
        i += 1;
    }
    true
}

/// The canonical reason phrase of a status code, for diagnostics: the common
/// codes by name, anything else as the unknown-status text.
pub open spec fn status_text_spec(status: u16) -> Seq<char> {
    if status == 200 {
        "OK"@
    } else if status == 201 {
        "Created"@
    } else if status == 204 {
        "No Content"@
    } else if status == 301 {
        "Moved Permanently"@
    } else if status == 302 {
        "Found"@
    } else if status == 304 {
        "Not Modified"@
    } else if status == 400 {
        "Bad Request"@
    } else if status == 401 {
        "Unauthorized"@
    } else if status == 403 {
        "Forbidden"@
    } else if status == 404 {
        "Not Found"@
    } else if status == 408 {
        "Request Timeout"@
    } else if status == 410 {
        "Gone"@
    } else if status == 429 {
        "Too Many Requests"@
    } else if status == 500 {
        "Internal Server Error"@
    } else if status == 502 {
        "Bad Gateway"@
    } else if status == 503 {
        "Service Unavailable"@
    } else if status == 504 {
        "Gateway Timeout"@
    } else {
        "Unknown Status"@
    }
}

/// The canonical reason phrase of a status code, for failure diagnostics.
pub fn status_text(status: u16) -> (r: &'static str)
    ensures
        r@ == status_text_spec(status),
{
    if status == 200 {
        "OK"
    } else if status == 201 {
        "Created"
    } else if status == 204 {
        "No Content"
    } else if status == 301 {
        "Moved Permanently"
    } else if status == 302 {
        "Found"
    } else if status == 304 {
        "Not Modified"
    } else if status == 400 {
        "Bad Request"
    } else if status == 401 {
        "Unauthorized"
    } else if status == 403 {
        "Forbidden"
    } else if status == 404 {
        "Not Found"
    } else if status == 408 {
        "Request Timeout"
    } else if status == 410 {
        "Gone"
    } else if status == 429 {
        "Too Many Requests"
    } else if status == 500 {
        "Internal Server Error"
    } else if status == 502 {
        "Bad Gateway"
    } else if status == 503 {
        "Service Unavailable"
    } else if status == 504 {
        "Gateway Timeout"
    } else {
        "Unknown Status"
    }
}

} // verus!
