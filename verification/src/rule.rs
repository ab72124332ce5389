use vstd::prelude::*;

verus! {

/// One configured page-to-feed mapping: a display title, the page URL, and the
/// CSS selectors that drive extraction. The item selector picks the repeated
/// item nodes; the heading selector is resolved within each item's scope; the
/// summary and date selectors are optional and may miss per item.
pub struct SourceRule {
    pub title: String,
    pub url: String,
    pub item_selector: String,
    pub heading_selector: String,
    pub summary_selector: Option<String>,
    pub date_selector: Option<String>,
}

/// Mathematical model of a `SourceRule`: each selector as a character sequence.
pub ghost struct RuleView {
    pub title: Seq<char>,
    pub url: Seq<char>,
    pub item_selector: Seq<char>,
    pub heading_selector: Seq<char>,
    pub summary_selector: Option<Seq<char>>,
    pub date_selector: Option<Seq<char>>,
}

/// The characters of an optional string, when it is present.
pub open spec fn opt_view(o: Option<String>) -> Option<Seq<char>> {
    match o {
        Some(s) => Some(s@),
        None => None,
    }
}

impl View for SourceRule {
    type V = RuleView;

    open spec fn view(&self) -> RuleView {
        RuleView {
            title: self.title@,
            url: self.url@,
            item_selector: self.item_selector@,
            heading_selector: self.heading_selector@,
            summary_selector: match self.summary_selector {
                Some(s) => Some(s@),
                None => None,
            },
            date_selector: match self.date_selector {
                Some(s) => Some(s@),
                None => None,
            },
        }
    }
}

/// What the heading query observed inside one item's scope: the heading's
/// concatenated text and its `href` attribute, when the element carries one.
pub struct HeadingRaw {
    pub title_text: String,
    pub href: Option<String>,
}

/// Mathematical model of a `HeadingRaw`.
pub ghost struct HeadingView {
    pub title: Seq<char>,
    pub href: Option<Seq<char>>,
}

impl View for HeadingRaw {
    type V = HeadingView;

    open spec fn view(&self) -> HeadingView {
        HeadingView {
            title: self.title_text@,
            href: match self.href {
                Some(ref s) => Some(s@),
                None => None,
            },
        }
    }
}

/// The models of an optional heading observation.
pub open spec fn heading_view(h: Option<HeadingRaw>) -> Option<HeadingView> {
    match h {
        Some(hr) => Some(hr@),
        None => None,
    }
}

/// Everything the selector queries observe inside one item's scope, as plain
/// values: the first heading match (absent when the heading selector matched
/// nothing there), and the texts of the first summary and date matches (absent
/// when the selector matched nothing, and unconstrained when the rule
/// configures none).
pub ghost struct RawItemView {
    pub heading: Option<HeadingView>,
    pub summary: Option<Seq<char>>,
    pub date: Option<Seq<char>>,
}

/// One item extracted from the page: the heading's text, the link it points
/// to (already resolved against the source's base URL), and the optional
/// summary and date texts.
#[derive(Debug)]
pub struct ExtractedItem {
    pub title_text: String,
    pub link: String,
    pub summary_text: Option<String>,
    pub date_text: Option<String>,
}

/// Mathematical model of an `ExtractedItem`.
pub ghost struct ItemView {
    pub title: Seq<char>,
    pub link: Seq<char>,
    pub summary: Option<Seq<char>>,
    pub date: Option<Seq<char>>,
}

impl View for ExtractedItem {
    type V = ItemView;

    open spec fn view(&self) -> ItemView {
        ItemView {
            title: self.title_text@,
            link: self.link@,
            summary: match self.summary_text {
                Some(ref s) => Some(s@),
                None => None,
            },
            date: match self.date_text {
                Some(ref s) => Some(s@),
                None => None,
            },
        }
    }
}

/// A syndication feed ready for serialization: channel title, the fixed
/// generator tag, and the entries in the order the items were extracted.
#[derive(Debug)]
pub struct Feed {
    pub title: String,
    pub generator: String,
    pub entries: Vec<ExtractedItem>,
}

/// Mathematical model of a `Feed`.
pub ghost struct FeedView {
    pub title: Seq<char>,
    pub generator: Seq<char>,
    pub entries: Seq<ItemView>,
}

/// The models of a sequence of extracted items, in order.
pub open spec fn items_view(items: Seq<ExtractedItem>) -> Seq<ItemView> {
    items.map_values(|it: ExtractedItem| it@)
}

impl View for Feed {
    type V = FeedView;

    open spec fn view(&self) -> FeedView {
        FeedView {
            title: self.title@,
            generator: self.generator@,
            entries: items_view(self.entries@),
        }
    }
}

} // verus!
