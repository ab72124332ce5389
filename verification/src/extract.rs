use vstd::prelude::*;

use crate::dates::{normalize_date, opt_normalized};
use crate::error::{error_obeys_rule, ExtractionError, SelectorRole};
use crate::html::{
    date_of, heading_of, parse_document, raw_items, scopes_of, selector_ok, summary_of, Document,
    Scope,
};
use crate::rule::{
    items_view, opt_view, ExtractedItem, HeadingRaw, ItemView, RawItemView, RuleView, SourceRule,
};
use crate::url::{lemma_resolved_link_nonempty, resolve_link, resolved_link};

verus! {

/// A scope's raw observation yields an item: the heading selector matched,
/// and the heading carries a non-empty `href`.
pub open spec fn raw_ok(raw: RawItemView) -> bool {
    raw.heading matches Some(h) && (h.href matches Some(href) && href.len() > 0)
}

/// Every summary or date selector the rule configures compiles.
pub open spec fn aux_selectors_ok(rule: RuleView) -> bool {
    &&& rule.summary_selector matches Some(s) ==> selector_ok(s)
    &&& rule.date_selector matches Some(s) ==> selector_ok(s)
}

/// One scope extracts cleanly: the heading selector and every configured
/// summary/date selector compile, and the scope's raw observation yields an
/// item.
pub open spec fn scope_ok(rule: RuleView, raw: RawItemView) -> bool {
    selector_ok(rule.heading_selector) && aux_selectors_ok(rule) && raw_ok(raw)
}

/// The item one scope's raw observation builds, when `scope_ok` holds of it:
/// the heading's text as the title, its `href` resolved against the rule's
/// URL as the link, the summary text as observed, and the date text
/// normalized — with summary and date absent whenever the rule configures no
/// selector for them.
pub open spec fn item_of_raw(rule: RuleView, raw: RawItemView) -> ItemView {
    ItemView {
        title: raw.heading->Some_0.title,
        link: resolved_link(rule.url, raw.heading->Some_0.href->Some_0),
        summary: if rule.summary_selector is Some {
            raw.summary
        } else {
            None
        },
        date: if rule.date_selector is Some {
            opt_normalized(raw.date)
        } else {
            None
        },
    }
}

/// The items a rule extracts from a document text: one per raw scope record,
/// in document order.
pub open spec fn extracted_items(html: Seq<char>, rule: RuleView) -> Seq<ItemView> {
    raw_items(html, rule).map(|i: int, raw: RawItemView| item_of_raw(rule, raw))
}

/// When extraction succeeds: the item selector compiles and every scope it
/// matches extracts cleanly. A document with no matching scopes extracts to
/// the empty sequence, never an error.
pub open spec fn extraction_succeeds(html: Seq<char>, rule: RuleView) -> bool {
    &&& selector_ok(rule.item_selector)
    &&& forall|i: int|
        0 <= i < raw_items(html, rule).len() ==> scope_ok(
            rule,
            #[trigger] raw_items(html, rule)[i],
        )
}

/// Decide one item's fate from the raw query results alone. A missing
/// heading fails the item with `MissingHeading`; a heading whose `href` is
/// absent or empty fails it with `MissingLink` — the link must end up a
/// non-empty string; otherwise the item is built from the heading's text, the
/// `href` resolved against the base URL, the summary text exactly as
/// observed, and the date text normalized. An absent summary or date is not
/// an error.
pub fn build_item(
    base_url: &str,
    heading: Option<HeadingRaw>,
    summary: Option<String>,
    date: Option<String>,
) -> (r: Result<ExtractedItem, ExtractionError>)
    ensures
        heading is None ==> r matches Err(ExtractionError::MissingHeading),
        heading matches Some(h) ==> (h.href is None ==> r matches Err(
            ExtractionError::MissingLink,
        )),
        heading matches Some(h) ==> (h.href matches Some(href) ==> ((href@.len() == 0
            ==> r matches Err(ExtractionError::MissingLink)) && (href@.len() > 0 ==> (r matches Ok(
            it,
        ) && it@.title == h.title_text@ && it@.link == resolved_link(base_url@, href@)
            && it@.link.len() > 0 && it@.summary == opt_view(summary) && it@.date == opt_normalized(
            opt_view(date),
        ))))),
{
    match heading {
        None => Err(ExtractionError::MissingHeading),
        Some(h) => match h.href {
            None => Err(ExtractionError::MissingLink),
            Some(href) => {
                if href.as_str().is_empty() {
                    Err(ExtractionError::MissingLink)
                } else {
                    proof {
                        lemma_resolved_link_nonempty(base_url@, href@);
                    }
                    let date_text = match date {
                        None => None,
                        Some(d) => Some(normalize_date(d.as_str())),
                    };
                    Ok(
                        ExtractedItem {
                            title_text: h.title_text,
                            link: resolve_link(base_url, href.as_str()),
                            summary_text: summary,
                            date_text,
                        },
                    )
                }
            },
        },
    }
}

/// Run the heading, summary and date queries inside one item's scope and
/// decide the item's fate: success exactly when the scope extracts cleanly,
/// and then the item is the one its raw observation determines. Fails with
/// `InvalidSelector` when a configured selector does not compile, with
/// `MissingHeading` when the heading selector matches nothing here, and with
/// `MissingLink` when the heading's `href` is absent or empty — before any
/// optional selector is consulted.
pub fn extract_one(scope: &Scope, rule: &SourceRule) -> (r: Result<ExtractedItem, ExtractionError>)
    requires
        scope@.rule == rule@,
        0 <= scope@.index < raw_items(scope@.source, scope@.rule).len(),
    ensures
        ({
            let raw = raw_items(scope@.source, scope@.rule)[scope@.index];
            &&& (r is Ok <==> scope_ok(rule@, raw))
            &&& (r matches Ok(it) ==> it@ == item_of_raw(rule@, raw))
            &&& (r matches Err(e) ==> error_obeys_rule(e, rule@))
            &&& (selector_ok(rule.heading_selector@) && raw.heading is None ==> r matches Err(
                ExtractionError::MissingHeading,
            ))
            &&& (selector_ok(rule.heading_selector@) && raw.heading is Some && !raw_ok(raw)
                ==> r matches Err(ExtractionError::MissingLink))
        }),
{
    let heading: Option<HeadingRaw> = match heading_of(scope, rule) {
        Err(()) => {
            return Err(
                ExtractionError::InvalidSelector {
                    selector: rule.heading_selector.clone(),
                    role: SelectorRole::Heading,
                },
            );
        },
        Ok(h) => h,
    };
    match heading {
        None => build_item(rule.url.as_str(), None, None, None),
        Some(h) => {
            let link_ok = match &h.href {
                Some(href) => !href.as_str().is_empty(),
                None => false,
            };
            if !link_ok {
                return build_item(rule.url.as_str(), Some(h), None, None);
            }
            let summary: Option<String> = match &rule.summary_selector {
                None => None,
                Some(sel) => match summary_of(scope, sel.as_str()) {
                    Err(()) => {
                        return Err(
                            ExtractionError::InvalidSelector {
                                selector: sel.clone(),
                                role: SelectorRole::Summary,
                            },
                        );
                    },
                    Ok(t) => t,
                },
            };
            let date: Option<String> = match &rule.date_selector {
                None => None,
                Some(sel) => match date_of(scope, sel.as_str()) {
                    Err(()) => {
                        return Err(
                            ExtractionError::InvalidSelector {
                                selector: sel.clone(),
                                role: SelectorRole::Date,
                            },
                        );
                    },
                    Ok(t) => t,
                },
            };
            build_item(rule.url.as_str(), Some(h), summary, date)
        },
    }
}

/// Extract all items a rule finds in a parsed document: every node matching
/// the item selector opens one item's scope, in document order, and the
/// result is exactly one item per scope — or the first failing scope's error,
/// so no partial sequence is ever returned.
pub fn extract(doc: &Document, rule: &SourceRule) -> (r: Result<
    Vec<ExtractedItem>,
    ExtractionError,
>)
    ensures
        r is Ok <==> extraction_succeeds(doc@, rule@),
        r matches Ok(items) ==> items@.len() == raw_items(doc@, rule@).len() && items_view(
            items@,
        ) == extracted_items(doc@, rule@),
        r matches Err(e) ==> error_obeys_rule(e, rule@),
        !selector_ok(rule.item_selector@) ==> (r matches Err(e) && e is InvalidSelector),
{
    let scopes = match scopes_of(doc, rule) {
        Err(()) => {
            return Err(
                ExtractionError::InvalidSelector {
                    selector: rule.item_selector.clone(),
                    role: SelectorRole::Item,
                },
            );
        },
        Ok(v) => v,
    };
    let mut items: Vec<ExtractedItem> = Vec::new();
    let n = scopes.len();
    let mut i: usize = 0;
    while i < n
        invariant
            i <= n,
            n == scopes@.len(),
            scopes@.len() == raw_items(doc@, rule@).len(),
            selector_ok(rule@.item_selector),
            forall|k: int|
                0 <= k < n ==> (#[trigger] scopes@[k])@.source == doc@ && scopes@[k]@.rule
                    == rule@ && scopes@[k]@.index == k,
            items@.len() == i,
            forall|k: int|
                0 <= k < i ==> scope_ok(rule@, #[trigger] raw_items(doc@, rule@)[k]),
            forall|k: int|
                0 <= k < i ==> (#[trigger] items@[k])@ == item_of_raw(
                    rule@,
                    raw_items(doc@, rule@)[k],
                ),
        decreases n - i,
    {
        match extract_one(&scopes[i], rule) {
            Ok(it) => items.push(it),
            Err(e) => {
                proof {
                    assert(!scope_ok(rule@, raw_items(doc@, rule@)[i as int]));
                }
                return Err(e);
            },
        }
        i += 1;
    }
    proof {
        assert(items_view(items@) =~= extracted_items(doc@, rule@));
    }
    Ok(items)
}

/// Parse the fetched body as HTML and extract the rule's items from it.
pub fn extract_from_html(html: &str, rule: &SourceRule) -> (r: Result<
    Vec<ExtractedItem>,
    ExtractionError,
>)
    ensures
        r is Ok <==> extraction_succeeds(html@, rule@),
        r matches Ok(items) ==> items@.len() == raw_items(html@, rule@).len() && items_view(items@)
            == extracted_items(html@, rule@),
        r matches Err(e) ==> error_obeys_rule(e, rule@),
        !selector_ok(rule.item_selector@) ==> (r matches Err(e) && e is InvalidSelector),
{
    let doc = parse_document(html);
    extract(&doc, rule)
}

/// Extraction is pure: equal document texts and equal rules observe equal raw
/// query results, succeed together, and extract equal item sequences — in
/// particular, re-running extraction on the same document yields identical
/// output.
pub proof fn lemma_extraction_deterministic(
    html1: Seq<char>,
    rule1: RuleView,
    html2: Seq<char>,
    rule2: RuleView,
)
    requires
        html1 == html2,
        rule1 == rule2,
    ensures
        extraction_succeeds(html1, rule1) == extraction_succeeds(html2, rule2),
        extracted_items(html1, rule1) == extracted_items(html2, rule2),
{
}

/// Every successfully extracted item's link is a non-empty string: extraction
/// fails for a scope whose heading has no `href` or an empty one, and
/// resolution never erases a non-empty `href`.
pub proof fn lemma_extracted_links_nonempty(html: Seq<char>, rule: RuleView)
    requires
        extraction_succeeds(html, rule),
    ensures
        forall|i: int|
            0 <= i < extracted_items(html, rule).len() ==> (#[trigger] extracted_items(
                html,
                rule,
            )[i]).link.len() > 0,
{
    assert forall|i: int| 0 <= i < extracted_items(html, rule).len() implies (
    #[trigger] extracted_items(html, rule)[i]).link.len() > 0 by {
        let raw = raw_items(html, rule)[i];
        assert(scope_ok(rule, raw));
        lemma_resolved_link_nonempty(rule.url, raw.heading->Some_0.href->Some_0);
        assert(extracted_items(html, rule)[i] == item_of_raw(rule, raw));
    }
}

} // verus!
