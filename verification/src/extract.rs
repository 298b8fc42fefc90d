//! Finding the headlines in a page.
//!
//! The page is parsed and searched by the `scraper` crate. What it finds is
//! handed over as plain text, one [`MatchedElement`] for each element, and
//! the rest is decided here: what the headline of an element is, and what
//! stands for a link without an address.

use vstd::prelude::*;
use crate::article::{ArticleContent, ArticleView, article_views};
use crate::error::ScrapeError;
use crate::text::{is_trim_range, is_white_space, lemma_trimmed_has_bare_ends, trim, trimmed};

verus! {

/// The selector for a headline: a link directly inside a level-3 heading.
pub const ARTICLE_SELECTOR: &'static str = "h3 > a";

/// The attribute of a link that holds its address.
pub const LINK_ATTRIBUTE: &'static str = "href";

/// What stands for the address of a link that has none.
pub const MISSING_URL: &'static str = "no url found";

/// An element that a selector matched, as text: what the logic reads of it.
#[derive(Debug, Clone, PartialEq, Eq)]
pub struct MatchedElement {
    /// The text inside the element: its text nodes, nested ones included, in
    /// order and joined without a separator.
    pub text: String,
    /// The value of the attribute that was asked for, if the element has it.
    pub attribute: Option<String>,
}

/// What a [`MatchedElement`] holds, as sequences of characters.
pub ghost struct MatchedView {
    pub text: Seq<char>,
    pub attribute: Option<Seq<char>>,
}

impl View for MatchedElement {
    type V = MatchedView;

    open spec fn view(&self) -> MatchedView {
        MatchedView {
            text: self.text@,
            attribute: match self.attribute {
                Some(value) => Some(value@),
                None => None,
            },
        }
    }
}

/// The views of a list of matched elements, in the list's order.
pub open spec fn matched_views(list: Seq<MatchedElement>) -> Seq<MatchedView> {
    list.map_values(|element: MatchedElement| element@)
}

/// Whether `scraper::Selector::parse` accepts `selector`.
pub uninterp spec fn selector_accepted(selector: Seq<char>) -> bool;

/// The elements that `scraper::Html::select` yields for the document that
/// `scraper::Html::parse_document` makes of `html` and for the selector that
/// `scraper::Selector::parse` makes of `selector`, in the order in which it
/// yields them; of each element its text and the value of its attribute
/// `attribute`. Meaningful where the selector is accepted.
pub uninterp spec fn selected_elements(
    html: Seq<char>,
    selector: Seq<char>,
    attribute: Seq<char>,
) -> Seq<MatchedView>;

/// Parses `selector` with `scraper::Selector::parse` and `html` with
/// `scraper::Html::parse_document`, and lists what `scraper::Html::select`
/// yields: for each element the text that `scraper::ElementRef::text`
/// gives and the value that `scraper::node::Element::attr` gives for
/// `attribute`.
///
/// Not proved, but taken from `scraper`: that the selector alone decides
/// whether there is a result, and that the result depends on the three
/// texts and on nothing else. Parsing a page does not fail: markup that
/// breaks the rules of HTML is repaired as the HTML standard lays down.
#[verifier::external_body]
fn select_elements(html: &str, selector: &str, attribute: &str) -> (found: Option<
    Vec<MatchedElement>,
>)
    ensures
        found is Some <==> selector_accepted(selector@),
        found matches Some(list) ==> matched_views(list@) == selected_elements(
            html@,
            selector@,
            attribute@,
        ),
{
    let parsed = scraper::Selector::parse(selector).ok()?;
    let document = scraper::Html::parse_document(html);
    let found = document.select(&parsed).map(
        |element| MatchedElement {
            text: element.text().collect(),
            attribute: element.value().attr(attribute).map(String::from),
        },
    ).collect();
    Some(found)
}

/// The headline that a matched element stands for: its text without the
/// white space around it, and its address, or [`MISSING_URL`] where it has
/// none.
pub open spec fn article_of(element: MatchedView) -> ArticleView {
    ArticleView {
        title: trimmed(element.text),
        url: match element.attribute {
            Some(address) => address,
            None => MISSING_URL@,
        },
    }
}

/// The headlines that a list of matched elements stands for: one for each
/// element, in the same order.
pub open spec fn articles_of(elements: Seq<MatchedView>) -> Seq<ArticleView> {
    elements.map_values(|element: MatchedView| article_of(element))
}

/// The headlines of the page `html` under `selector`.
pub open spec fn extraction(html: Seq<char>, selector: Seq<char>) -> Seq<ArticleView> {
    articles_of(selected_elements(html, selector, LINK_ATTRIBUTE@))
}

/// Each matched element gives one headline, and the headlines stand in
/// the order of the elements: the title is the element's text without the
/// white space around it, the address is the element's own where it has
/// one and [`MISSING_URL`] where it has none.
pub proof fn lemma_articles_follow_elements(elements: Seq<MatchedView>)
    ensures
        articles_of(elements).len() == elements.len(),
        forall|k: int|
            0 <= k < elements.len() ==> {
                &&& (#[trigger] articles_of(elements)[k]).title == trimmed(elements[k].text)
                &&& elements[k].attribute matches Some(address) ==> articles_of(elements)[k].url
                    == address
                &&& elements[k].attribute is None ==> articles_of(elements)[k].url == MISSING_URL@
            },
{
}

/// A link without an address gets the placeholder, letter for letter.
pub proof fn lemma_missing_address(element: MatchedView)
    requires
        element.attribute is None,
    ensures
        article_of(element).url == "no url found"@,
        article_of(element).url.len() == 12,
{
    reveal_strlit("no url found");
}

/// A title neither begins nor ends with white space, and is a run of the
/// element's text of which only white space was cut off.
pub proof fn lemma_title_is_bare(element: MatchedView)
    ensures
        ({
            let title = article_of(element).title;
            title.len() > 0 ==> !is_white_space(title.first()) && !is_white_space(title.last())
        }),
        exists|start: int, end: int|
            #![trigger element.text.subrange(start, end)]
            is_trim_range(element.text, start, end) && article_of(element).title
                == element.text.subrange(start, end),
{
    lemma_trimmed_has_bare_ends(element.text);
}

/// Makes the headline of one matched element.
pub fn article_from_match(element: &MatchedElement) -> (article: ArticleContent)
    ensures
        article@ == article_of(element@),
{
    let title = trim(element.text.as_str());
    let url_link = match &element.attribute {
        Some(address) => address.clone(),
        None => String::from_str(MISSING_URL),
    };
    ArticleContent { article_title: String::from_str(title), url_link }
}

/// Makes the headlines of a list of matched elements.
pub fn articles_from_matches(elements: &[MatchedElement]) -> (articles: Vec<ArticleContent>)
    ensures
        article_views(articles@) == articles_of(matched_views(elements@)),
{
    let mut articles: Vec<ArticleContent> = Vec::new();
    let mut index: usize = 0;
    while index < elements.len()
        invariant
            index <= elements.len(),
            articles.len() == index,
            forall|k: int| 0 <= k < index ==> (#[trigger] articles[k])@ == article_of(elements[k]@),
        decreases elements.len() - index,
    {
        articles.push(article_from_match(&elements[index]));
        index = index + 1;
    }
    assert(article_views(articles@) =~= articles_of(matched_views(elements@)));
    articles
}

/// Finds the headlines of the page `html`: the elements that `selector`
/// matches. Fails where `selector` is not a selector, and only there.
pub fn extract_with(html: &str, selector: &str) -> (found: Result<Vec<ArticleContent>, ScrapeError>)
    ensures
        found is Ok <==> selector_accepted(selector@),
        found matches Ok(articles) ==> article_views(articles@) == extraction(html@, selector@),
        found matches Err(error) ==> error == ScrapeError::InvalidSelector,
{
    match select_elements(html, selector, LINK_ATTRIBUTE) {
        Some(elements) => Ok(articles_from_matches(elements.as_slice())),
        None => Err(ScrapeError::InvalidSelector),
    }
}

/// Finds the headlines of the page `html`: the links directly inside its
/// level-3 headings.
pub fn extract(html: &str) -> (found: Result<Vec<ArticleContent>, ScrapeError>)
    ensures
        found is Ok <==> selector_accepted(ARTICLE_SELECTOR@),
        found matches Ok(articles) ==> article_views(articles@) == extraction(
            html@,
            ARTICLE_SELECTOR@,
        ),
        found matches Err(error) ==> error == ScrapeError::InvalidSelector,
{
    extract_with(html, ARTICLE_SELECTOR)
}

} // verus!
