//! The list of headlines as JSON text.
//!
//! The text is an array with one object for each headline, in the list's
//! order and without white space between the tokens. Each object has two
//! members, the title and the address, both strings. How a string is
//! written, with its quotes and escapes, is left to `serde_json`.

use vstd::prelude::*;
use crate::article::{ArticleContent, ArticleView, article_views};

verus! {

/// How `serde_json::to_string` writes the string `text`: the JSON string
/// literal, quotes included.
pub uninterp spec fn json_string_literal(text: Seq<char>) -> Seq<char>;

/// Writes `text` as a JSON string literal with `serde_json::to_string`.
///
/// Not proved, but taken from `serde_json`: that the literal depends on
/// `text` alone, and that writing a string does not fail. The serializer
/// fails only where the value's own `Serialize` fails or where a map has
/// a key that is not a string, and a `str` is neither.
#[verifier::external_body]
fn json_string(text: &str) -> (literal: String)
    ensures
        literal@ == json_string_literal(text@),
{
    serde_json::to_string(text).unwrap()
}

/// One headline as a JSON object.
pub open spec fn json_object(article: ArticleView) -> Seq<char> {
    "{\"article_title\":"@ + json_string_literal(article.title) + ",\"url_link\":"@
        + json_string_literal(article.url) + "}"@
}

/// The objects of a list of headlines, with a comma between each two.
pub open spec fn json_members(articles: Seq<ArticleView>) -> Seq<char>
    decreases articles.len(),
{
    if articles.len() == 0 {
        Seq::empty()
    } else if articles.len() == 1 {
        json_object(articles[0])
    } else {
        json_members(articles.drop_last()) + ","@ + json_object(articles.last())
    }
}

/// A list of headlines as a JSON array.
pub open spec fn json_array(articles: Seq<ArticleView>) -> Seq<char> {
    "["@ + json_members(articles) + "]"@
}

/// The empty list is written as a pair of brackets with nothing between.
pub proof fn lemma_empty_array()
    ensures
        json_array(Seq::empty()) == "[]"@,
{
    reveal_strlit("[");
    reveal_strlit("]");
    reveal_strlit("[]");
    assert(json_array(Seq::empty()) =~= "[]"@);
}

/// Appends one headline as a JSON object to `out`.
pub fn push_json_object(out: &mut String, article: &ArticleContent)
    ensures
        final(out)@ == old(out)@ + json_object(article@),
{
    out.append("{\"article_title\":");
    out.append(json_string(article.article_title.as_str()).as_str());
    out.append(",\"url_link\":");
    out.append(json_string(article.url_link.as_str()).as_str());
    out.append("}");
    assert(out@ =~= old(out)@ + json_object(article@));
}

/// Writes a list of headlines as JSON text.
pub fn to_json(articles: &[ArticleContent]) -> (text: String)
    ensures
        text@ == json_array(article_views(articles@)),
{
    let ghost views = article_views(articles@);
    let mut text = String::from_str("[");
    let mut index: usize = 0;
    while index < articles.len()
        invariant
            index <= articles.len(),
            views == article_views(articles@),
            text@ == "["@ + json_members(views.take(index as int)),
        decreases articles.len() - index,
    {
        if index > 0 {
            text.append(",");
        }
        push_json_object(&mut text, &articles[index]);
        proof {
            let before = views.take(index as int);
            let after = views.take(index + 1);
            assert(after.drop_last() =~= before);
            assert(after.last() == articles[index as int]@);
            assert(text@ =~= "["@ + json_members(after));
        }
        index = index + 1;
    }
    text.append("]");
    proof {
        assert(views.take(index as int) =~= views);
        assert(text@ =~= json_array(views));
    }
    text
}

} // verus!
