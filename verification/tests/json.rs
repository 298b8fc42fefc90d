use news_scraper::article::ArticleContent;
use news_scraper::json::{push_json_object, to_json};

fn article(title: &str, url: &str) -> ArticleContent {
    ArticleContent { article_title: title.to_string(), url_link: url.to_string() }
}

fn as_value(list: &[ArticleContent]) -> serde_json::Value {
    let mut objects = Vec::new();
    for entry in list {
        let mut object = serde_json::Map::new();
        object.insert(
            "article_title".to_string(),
            serde_json::Value::String(entry.article_title.clone()),
        );
        object.insert("url_link".to_string(), serde_json::Value::String(entry.url_link.clone()));
        objects.push(serde_json::Value::Object(object));
    }
    serde_json::Value::Array(objects)
}

fn read_back(text: &str) -> Vec<ArticleContent> {
    let value: serde_json::Value = serde_json::from_str(text).unwrap();
    let mut list = Vec::new();
    for object in value.as_array().unwrap() {
        let object = object.as_object().unwrap();
        assert_eq!(object.len(), 2);
        list.push(article(
            object["article_title"].as_str().unwrap(),
            object["url_link"].as_str().unwrap(),
        ));
    }
    list
}

#[test]
fn empty_list_is_a_pair_of_brackets() {
    assert_eq!(to_json(&[]), "[]");
}

#[test]
fn one_entry_is_one_object() {
    assert_eq!(
        to_json(&[article("Story One", "/a1")]),
        "[{\"article_title\":\"Story One\",\"url_link\":\"/a1\"}]"
    );
}

#[test]
fn two_entries_are_written_in_order_with_a_comma_between() {
    let list = [article("Story One", "/a1"), article("Story Two", "no url found")];
    assert_eq!(
        to_json(&list),
        "[{\"article_title\":\"Story One\",\"url_link\":\"/a1\"},{\"article_title\":\"Story Two\",\"url_link\":\"no url found\"}]"
    );
}

#[test]
fn strings_are_escaped_as_json_asks() {
    assert_eq!(
        to_json(&[article("say \"hi\"\\now\n", "/tab\there")]),
        "[{\"article_title\":\"say \\\"hi\\\"\\\\now\\n\",\"url_link\":\"/tab\\there\"}]"
    );
    assert_eq!(
        to_json(&[article("\u{1}\u{8}\u{c}\r\u{1f}", "é✓\u{1F600}/")]),
        "[{\"article_title\":\"\\u0001\\b\\f\\r\\u001f\",\"url_link\":\"é✓\u{1F600}/\"}]"
    );
}

#[test]
fn empty_strings_are_empty_literals() {
    assert_eq!(to_json(&[article("", "")]), "[{\"article_title\":\"\",\"url_link\":\"\"}]");
}

#[test]
fn two_entries_read_back_unchanged() {
    let list = vec![
        article("He said \"no\" \\ twice", "https://example.com/a?b=\"c\"&d=\\e"),
        article("Ünïcödé ✓ 日本語 \u{1F600} \u{0} \t\r\n \u{7f} \u{2028}", "/päth/\u{10FFFF}"),
    ];
    let text = to_json(&list);
    let back = read_back(&text);
    assert_eq!(back.len(), 2);
    assert_eq!(back, list);
}

#[test]
fn many_entries_read_back_in_order() {
    let mut list = Vec::new();
    for n in 0..100 {
        list.push(article(&format!("title {n} \"q\""), &format!("/u/{n}\\")));
    }
    assert_eq!(read_back(&to_json(&list)), list);
}

#[test]
fn text_is_what_serde_json_writes_for_the_same_value() {
    let lists = vec![
        vec![],
        vec![article("a", "b")],
        vec![article("x \"y\" z", "\\"), article("", "no url found"), article("\n", "\u{0}")],
    ];
    for list in lists {
        assert_eq!(to_json(&list), serde_json::to_string(&as_value(&list)).unwrap());
    }
}

#[test]
fn push_json_object_appends_one_object() {
    let mut out = String::from("x");
    push_json_object(&mut out, &article("t", "u"));
    assert_eq!(out, "x{\"article_title\":\"t\",\"url_link\":\"u\"}");
}
