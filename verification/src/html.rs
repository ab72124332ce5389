use kuchiki::traits::TendrilSink;
use vstd::prelude::*;

use crate::rule::{heading_view, HeadingRaw, RawItemView, RuleView, SourceRule};

verus! {

#[verifier::external_type_specification]
#[verifier::external_body]
pub struct ExNodeRef(kuchiki::NodeRef);

#[verifier::external_type_specification]
#[verifier::external_body]
#[verifier::reject_recursive_types(T)]
pub struct ExNodeDataRef<T>(kuchiki::NodeDataRef<T>);

#[verifier::external_type_specification]
#[verifier::external_body]
pub struct ExElementData(kuchiki::ElementData);

/// Whether the CSS selector string compiles. kuchiki routes every `select`
/// call through `Selectors::compile`, a function of the selector text alone,
/// so all the select wrappers below share this name.
pub uninterp spec fn selector_ok(selector: Seq<char>) -> bool;

/// The raw results of running a rule's selector queries over an HTML
/// document: one record per node matching the item selector, in document
/// order, holding the first heading match (its text and `href`) and the texts
/// of the first summary and date matches inside that scope. kuchiki's
/// parsing, selector matching, text concatenation and attribute lookup are
/// all functions of the HTML text and the selector texts alone, so this is a
/// function of the document text and the rule; the wrappers below each tie
/// their call's result to one part of it.
pub uninterp spec fn raw_items(html: Seq<char>, rule: RuleView) -> Seq<RawItemView>;

/// A parsed HTML document together with the text it was parsed from. The
/// fields are only ever filled by `parse_document`, so the view — the source
/// text — really is the text behind the node.
pub struct Document {
    node: kuchiki::NodeRef,
    source: Ghost<Seq<char>>,
}

impl View for Document {
    type V = Seq<char>;

    closed spec fn view(&self) -> Seq<char> {
        self.source@
    }
}

/// One node matched by a rule's item selector, together with where it came
/// from: the document text, the rule whose item selector matched it, and its
/// position among the matches. The fields are only ever filled by
/// `scopes_of`, so the provenance is genuine.
pub struct Scope {
    el: kuchiki::NodeDataRef<kuchiki::ElementData>,
    source: Ghost<Seq<char>>,
    rule: Ghost<RuleView>,
    index: Ghost<int>,
}

/// Where a scope came from: the document text it was matched in, the rule
/// whose item selector matched it, and its position among the matches.
pub ghost struct ScopeView {
    pub source: Seq<char>,
    pub rule: RuleView,
    pub index: int,
}

impl View for Scope {
    type V = ScopeView;

    closed spec fn view(&self) -> ScopeView {
        ScopeView { source: self.source@, rule: self.rule@, index: self.index@ }
    }
}

/// Relies on `kuchiki::parse_html` (an html5ever sink): parses the string as
/// an HTML document and returns its root node. html5ever recovers from
/// malformed markup, so parsing never fails, and the resulting tree is a
/// function of the text alone.
#[verifier::external_body]
fn parse_node(html: &str) -> kuchiki::NodeRef {
    kuchiki::parse_html().one(html)
}

/// Parse the fetched body as an HTML document, remembering its text.
pub(crate) fn parse_document(html: &str) -> (d: Document)
    ensures
        d@ == html@,
{
    Document { node: parse_node(html), source: Ghost(html@) }
}

/// Relies on `kuchiki::NodeRef::select`: it returns `Err(())` exactly when
/// the item selector does not compile, and otherwise the matching elements in
/// document order — one per record of `raw_items(doc.source, rule)`, in the
/// same order.
#[verifier::external_body]
fn scope_nodes(doc: &Document, rule: &SourceRule) -> (r: Result<
    Vec<kuchiki::NodeDataRef<kuchiki::ElementData>>,
    (),
>)
    ensures
        r is Ok <==> selector_ok(rule.item_selector@),
        r matches Ok(v) ==> v@.len() == raw_items(doc@, rule@).len(),
{
    doc.node.select(rule.item_selector.as_str()).map(|iter| iter.collect())
}

/// Match the rule's item selector over the document and open one scope per
/// matching node, each remembering the document text, the rule, and its
/// position among the matches.
pub(crate) fn scopes_of(doc: &Document, rule: &SourceRule) -> (r: Result<Vec<Scope>, ()>)
    ensures
        r is Ok <==> selector_ok(rule.item_selector@),
        r matches Ok(v) ==> v@.len() == raw_items(doc@, rule@).len(),
        r matches Ok(v) ==> forall|i: int|
            0 <= i < v@.len() ==> (#[trigger] v@[i])@.source == doc@ && v@[i]@.rule == rule@
                && v@[i]@.index == i,
{
    let mut nodes = match scope_nodes(doc, rule) {
        Err(()) => {
            return Err(());
        },
        Ok(v) => v,
    };
    let ghost total = nodes@.len();
    let mut scopes: Vec<Scope> = Vec::new();
    while nodes.len() > 0
        invariant
            scopes@.len() + nodes@.len() == total,
            forall|i: int|
                0 <= i < scopes@.len() ==> (#[trigger] scopes@[i])@.source == doc@
                    && scopes@[i]@.rule == rule@ && scopes@[i]@.index == i,
        decreases nodes@.len(),
    {
        let el = nodes.remove(0);
        let ghost idx = scopes@.len() as int;
        scopes.push(Scope { el, source: doc.source, rule: Ghost(rule@), index: Ghost(idx) });
    }
    Ok(scopes)
}

/// Relies on `kuchiki::NodeRef::select` within the scope element, plus
/// kuchiki's `text_contents` and `Attributes::get`: `Err(())` exactly when
/// the heading selector does not compile; otherwise the first match's
/// concatenated text and `href` attribute, or `None` when nothing matches —
/// which is this scope's record in `raw_items`.
#[verifier::external_body]
pub(crate) fn heading_of(scope: &Scope, rule: &SourceRule) -> (r: Result<Option<HeadingRaw>, ()>)
    requires
        scope@.rule == rule@,
        0 <= scope@.index < raw_items(scope@.source, scope@.rule).len(),
    ensures
        r is Ok <==> selector_ok(rule.heading_selector@),
        r matches Ok(h) ==> heading_view(h) == raw_items(scope@.source, scope@.rule)[scope@.index].heading,
{
    let mut matches = scope.el.as_node().select(rule.heading_selector.as_str())?;
    Ok(
        matches.next().map(
            |el|
                HeadingRaw {
                    title_text: el.text_contents(),
                    href: el.attributes.borrow().get("href").map(|v| v.to_owned()),
                },
        ),
    )
}

/// Relies on `kuchiki::NodeRef::select` within the scope element and
/// kuchiki's `text_contents`: `Err(())` exactly when the summary selector
/// does not compile; otherwise the first match's concatenated text, or `None`
/// when nothing matches — which is this scope's record in `raw_items`.
#[verifier::external_body]
pub(crate) fn summary_of(scope: &Scope, selector: &str) -> (r: Result<Option<String>, ()>)
    requires
        scope@.rule.summary_selector == Some(selector@),
        0 <= scope@.index < raw_items(scope@.source, scope@.rule).len(),
    ensures
        r is Ok <==> selector_ok(selector@),
        r matches Ok(t) ==> crate::rule::opt_view(t) == raw_items(
            scope@.source,
            scope@.rule,
        )[scope@.index].summary,
{
    let mut matches = scope.el.as_node().select(selector)?;
    Ok(matches.next().map(|el| el.text_contents()))
}

/// Relies on `kuchiki::NodeRef::select` within the scope element and
/// kuchiki's `text_contents`: `Err(())` exactly when the date selector does
/// not compile; otherwise the first match's concatenated text, or `None` when
/// nothing matches — which is this scope's record in `raw_items`.
#[verifier::external_body]
pub(crate) fn date_of(scope: &Scope, selector: &str) -> (r: Result<Option<String>, ()>)
    requires
        scope@.rule.date_selector == Some(selector@),
        0 <= scope@.index < raw_items(scope@.source, scope@.rule).len(),
    ensures
        r is Ok <==> selector_ok(selector@),
        r matches Ok(t) ==> crate::rule::opt_view(t) == raw_items(
            scope@.source,
            scope@.rule,
        )[scope@.index].date,
{
    let mut matches = scope.el.as_node().select(selector)?;
    Ok(matches.next().map(|el| el.text_contents()))
}

} // verus!
