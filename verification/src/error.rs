use vstd::prelude::*;

use crate::html::selector_ok;
use crate::rule::RuleView;

verus! {

/// The logical role a CSS selector was used for, carried with a selector
/// error so the caller can produce an actionable message.
#[derive(Debug, Clone, Copy, PartialEq, Eq, Structural)]
pub enum SelectorRole {
    Item,
    Heading,
    Summary,
    Date,
}

/// Why extraction failed for a source. All variants are fatal to that source:
/// no partial sequence of items is ever produced alongside one of these.
#[derive(Debug)]
pub enum ExtractionError {
    /// The selector string does not compile; `selector` is the offending text
    /// and `role` says where the configuration used it.
    InvalidSelector { selector: String, role: SelectorRole },
    /// The heading selector matched nothing inside some item's scope.
    MissingHeading,
    /// The heading element has no `href` attribute.
    MissingLink,
}

/// Why processing a fetched response failed for a source.
#[derive(Debug)]
pub enum SourceError {
    /// The HTTP response status was not a success status.
    Http { status: u16 },
    /// Extraction failed; see `ExtractionError`.
    Extract { error: ExtractionError },
}

/// The selector carried by an `InvalidSelector` error is the one the rule
/// configured for the reported role.
pub open spec fn role_selector_of_rule(sel: Seq<char>, role: SelectorRole, rule: RuleView) -> bool {
    match role {
        SelectorRole::Item => sel == rule.item_selector,
        SelectorRole::Heading => sel == rule.heading_selector,
        SelectorRole::Summary => rule.summary_selector == Some(sel),
        SelectorRole::Date => rule.date_selector == Some(sel),
    }
}

/// What every extraction error says about the rule it arose from: an invalid
/// selector error names a selector the rule really configured, for the role
/// it was used in, and that selector really does not compile.
pub open spec fn error_obeys_rule(e: ExtractionError, rule: RuleView) -> bool {
    match e {
        ExtractionError::InvalidSelector { selector, role } => !selector_ok(selector@)
            && role_selector_of_rule(selector@, role, rule),
        ExtractionError::MissingHeading => true,
        ExtractionError::MissingLink => true,
    }
}

} // verus!
