//! The file that records a list of headlines: its name and its contents.

use vstd::prelude::*;
use crate::article::{ArticleContent, article_views};
use crate::extract::{MatchedView, articles_of};
use crate::json::{json_array, lemma_empty_array, to_json};
use crate::stamp::{
    MinuteStamp, has_stamp_shape, lemma_stamp_text_shape, local_now, push_stamp, stamp_text,
};

verus! {

/// The name of the file for the site `domain` written at `stamp`: the
/// domain, an underscore, the stamp and the extension `.json`.
pub open spec fn file_name_text(domain: Seq<char>, stamp: MinuteStamp) -> Seq<char> {
    domain + seq!['_'] + stamp_text(stamp) + ".json"@
}

/// Makes the name of the file for the site `domain` written at `stamp`.
pub fn file_name(domain: &str, stamp: &MinuteStamp) -> (name: String)
    ensures
        name@ == file_name_text(domain@, *stamp),
{
    let mut name = String::from_str(domain);
    name.append("_");
    push_stamp(&mut name, stamp);
    name.append(".json");
    proof {
        reveal_strlit("_");
        assert(name@ =~= file_name_text(domain@, *stamp));
    }
    name
}

/// A file to be written: where, and what.
#[derive(Debug, Clone, PartialEq, Eq)]
pub struct OutputFile {
    pub name: String,
    pub contents: String,
}

/// Makes the file that records `article_list`, found on the site
/// `domain_name` and written at `stamp`.
pub fn article_file_at(
    article_list: &[ArticleContent],
    domain_name: &str,
    stamp: &MinuteStamp,
) -> (file: OutputFile)
    ensures
        file.name@ == file_name_text(domain_name@, *stamp),
        file.contents@ == json_array(article_views(article_list@)),
{
    OutputFile { name: file_name(domain_name, stamp), contents: to_json(article_list) }
}

/// Makes the file that records `article_list`, found on the site
/// `domain_name` and written now. The name carries the current minute of
/// local time, whichever that is; the contents do not depend on it.
pub fn article_file(article_list: &[ArticleContent], domain_name: &str) -> (file: OutputFile)
    ensures
        exists|stamp: MinuteStamp|
            stamp.in_range() && file.name@ == #[trigger] file_name_text(domain_name@, stamp),
        file.contents@ == json_array(article_views(article_list@)),
{
    let stamp = local_now();
    article_file_at(article_list, domain_name, &stamp)
}

/// Where the stamp's parts lie in their ranges and its year is from 0 to
/// 9999, the name of a file is the domain, an underscore, sixteen
/// characters in the shape `YYYY-MM-DD_HH.MM` and the extension `.json`.
pub proof fn lemma_file_name_shape(domain: Seq<char>, stamp: MinuteStamp)
    requires
        stamp.in_range(),
        0 <= stamp.year <= 9999,
    ensures
        file_name_text(domain, stamp) == domain + seq!['_'] + stamp_text(stamp) + ".json"@,
        has_stamp_shape(stamp_text(stamp)),
        ".json"@ == seq!['.', 'j', 's', 'o', 'n'],
        file_name_text(domain, stamp).len() == domain.len() + 22,
{
    reveal_strlit(".json");
    lemma_stamp_text_shape(stamp);
    assert(".json"@ =~= seq!['.', 'j', 's', 'o', 'n']);
}

/// Where no element matched there are no headlines, and the file that
/// records them holds an empty array.
pub proof fn lemma_nothing_found(elements: Seq<MatchedView>)
    requires
        elements.len() == 0,
    ensures
        articles_of(elements).len() == 0,
        json_array(articles_of(elements)) == "[]"@,
{
    lemma_empty_array();
    assert(articles_of(elements) =~= Seq::empty());
}

} // verus!
