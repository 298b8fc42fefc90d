use news_scraper::extract::extract;
use news_scraper::output::article_file_at;
use news_scraper::report::count_line;
use news_scraper::request::{check_status, site_url, user_agent};
use news_scraper::stamp::MinuteStamp;

#[test]
fn a_whole_run_on_a_small_page() {
    assert_eq!(site_url("newsnationnow.com"), "https://newsnationnow.com");
    assert_eq!(user_agent("scraper", "1.2.3"), "scraper/1.2.3");
    assert!(check_status(200).is_ok());

    let html = "<html><body><h3><a href=\"/a1\">Story One</a></h3><h3><a>Story Two</a></h3></body></html>";
    let articles = extract(html).unwrap();
    assert_eq!(articles.len(), 2);
    assert_eq!(articles[0].article_title, "Story One");
    assert_eq!(articles[0].url_link, "/a1");
    assert_eq!(articles[1].article_title, "Story Two");
    assert_eq!(articles[1].url_link, "no url found");

    assert_eq!(count_line(articles.len()), "Number of articles scraped: 2");

    let stamp = MinuteStamp { year: 2025, month: 1, day: 2, hour: 3, minute: 4 };
    let file = article_file_at(&articles, "newsnationnow.com", &stamp);
    assert_eq!(file.name, "newsnationnow.com_2025-01-02_03.04.json");
    assert_eq!(
        file.contents,
        "[{\"article_title\":\"Story One\",\"url_link\":\"/a1\"},{\"article_title\":\"Story Two\",\"url_link\":\"no url found\"}]"
    );
}

#[test]
fn a_page_without_headlines_gives_an_empty_array() {
    let articles = extract("<html><body><h1>Nothing today</h1></body></html>").unwrap();
    assert!(articles.is_empty());
    assert_eq!(count_line(articles.len()), "Number of articles scraped: 0");
    let stamp = MinuteStamp { year: 2025, month: 1, day: 2, hour: 3, minute: 4 };
    assert_eq!(article_file_at(&articles, "newsnationnow.com", &stamp).contents, "[]");
}
