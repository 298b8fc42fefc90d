//! One headline found on a page.

use vstd::prelude::*;

verus! {

/// A headline and the address it links to.
#[derive(Debug, Clone, PartialEq, Eq)]
pub struct ArticleContent {
    /// The text of the link, without the white space around it. Empty where
    /// the link holds no text.
    pub article_title: String,
    /// The address the link points to, as the page gives it, or
    /// [`MISSING_URL`](crate::extract::MISSING_URL) where the link has none.
    pub url_link: String,
}

/// What an [`ArticleContent`] holds, as sequences of characters.
pub ghost struct ArticleView {
    pub title: Seq<char>,
    pub url: Seq<char>,
}

impl View for ArticleContent {
    type V = ArticleView;

    open spec fn view(&self) -> ArticleView {
        ArticleView { title: self.article_title@, url: self.url_link@ }
    }
}

/// The views of a list of articles, in the list's order.
pub open spec fn article_views(list: Seq<ArticleContent>) -> Seq<ArticleView> {
    list.map_values(|article: ArticleContent| article@)
}

} // verus!
