use news_scraper::article::ArticleContent;
use news_scraper::output::{article_file, article_file_at, file_name};
use news_scraper::stamp::MinuteStamp;

fn article(title: &str, url: &str) -> ArticleContent {
    ArticleContent { article_title: title.to_string(), url_link: url.to_string() }
}

fn has_name_shape(name: &str, domain: &str) -> bool {
    let Some(rest) = name.strip_prefix(domain) else { return false };
    let Some(rest) = rest.strip_prefix('_') else { return false };
    let Some(stamp) = rest.strip_suffix(".json") else { return false };
    let shape = "dddd-dd-dd_dd.dd";
    stamp.len() == shape.len()
        && stamp.chars().zip(shape.chars()).all(|(c, s)| if s == 'd' { c.is_ascii_digit() } else { c == s })
}

#[test]
fn file_name_is_domain_stamp_and_extension() {
    let stamp = MinuteStamp { year: 2024, month: 3, day: 9, hour: 7, minute: 5 };
    assert_eq!(file_name("newsnationnow.com", &stamp), "newsnationnow.com_2024-03-09_07.05.json");
    assert_eq!(file_name("", &stamp), "_2024-03-09_07.05.json");
    assert_eq!(file_name("a_b.c", &stamp), "a_b.c_2024-03-09_07.05.json");
}

#[test]
fn file_name_has_the_shape_of_a_minute() {
    let stamp = MinuteStamp { year: 2031, month: 11, day: 30, hour: 0, minute: 0 };
    let name = file_name("example.org", &stamp);
    assert!(has_name_shape(&name, "example.org"));
    assert_eq!(name.len(), "example.org".len() + 22);
}

#[test]
fn two_files_of_one_minute_have_one_name() {
    let stamp = MinuteStamp { year: 2024, month: 3, day: 9, hour: 7, minute: 5 };
    let first = article_file_at(&[article("a", "/a")], "site.com", &stamp);
    let second = article_file_at(&[article("b", "/b")], "site.com", &stamp);
    assert_eq!(first.name, second.name);
    assert_ne!(first.contents, second.contents);
}

#[test]
fn article_file_at_gives_name_and_contents() {
    let stamp = MinuteStamp { year: 2024, month: 12, day: 25, hour: 18, minute: 30 };
    let list = [article("Story One", "/a1"), article("Story Two", "no url found")];
    let file = article_file_at(&list, "newsnationnow.com", &stamp);
    assert_eq!(file.name, "newsnationnow.com_2024-12-25_18.30.json");
    assert_eq!(
        file.contents,
        "[{\"article_title\":\"Story One\",\"url_link\":\"/a1\"},{\"article_title\":\"Story Two\",\"url_link\":\"no url found\"}]"
    );
}

#[test]
fn article_file_at_of_no_articles_holds_an_empty_array() {
    let stamp = MinuteStamp { year: 2024, month: 12, day: 25, hour: 18, minute: 30 };
    let file = article_file_at(&[], "newsnationnow.com", &stamp);
    assert_eq!(file.contents, "[]");
}

#[test]
fn article_file_is_named_after_the_current_minute() {
    let format = "newsnationnow.com_%Y-%m-%d_%H.%M.json";
    let before = chrono::Local::now().format(format).to_string();
    let file = article_file(&[article("Story One", "/a1")], "newsnationnow.com");
    let after = chrono::Local::now().format(format).to_string();
    assert!(file.name == before || file.name == after);
    assert!(has_name_shape(&file.name, "newsnationnow.com"));
    assert_eq!(file.contents, "[{\"article_title\":\"Story One\",\"url_link\":\"/a1\"}]");
}
