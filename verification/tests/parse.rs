use tumblr::digits::format_u64;
use tumblr::digits::parse_u64;
use tumblr::urls::media_file_name;
use tumblr::urls::metadata_file_name;
use tumblr::urls::parse_url;
use tumblr::urls::permalink_url;
use tumblr::urls::post_directory;
use tumblr::urls::tmp_file_name;
use tumblr::Error;

#[test]
fn parse_url_accepts_permalink() {
    let (blog, id) = parse_url("https://www.tumblr.com/justcatposts/748474744137007104").unwrap();
    assert_eq!(blog, "justcatposts");
    assert_eq!(id, 748474744137007104u64);
}

#[test]
fn parse_url_ignores_trailing_slug() {
    let (blog, id) =
        parse_url("https://www.tumblr.com/justcatposts/748474744137007104/some-slug").unwrap();
    assert_eq!(blog, "justcatposts");
    assert_eq!(id, 748474744137007104u64);
}

#[test]
fn parse_url_rejects_other_host() {
    assert_eq!(
        parse_url("https://example.com/justcatposts/748474744137007104"),
        Err(Error::UnexpectedHost)
    );
}

#[test]
fn parse_url_rejects_other_scheme() {
    assert_eq!(
        parse_url("http://www.tumblr.com/justcatposts/748474744137007104"),
        Err(Error::UnexpectedHost)
    );
}

#[test]
fn parse_url_rejects_missing_blog() {
    assert_eq!(parse_url("https://www.tumblr.com/"), Err(Error::MissingBlogIdentifier));
    assert_eq!(
        parse_url("https://www.tumblr.com//748474744137007104"),
        Err(Error::MissingBlogIdentifier)
    );
}

#[test]
fn parse_url_rejects_missing_id() {
    assert_eq!(parse_url("https://www.tumblr.com/justcatposts"), Err(Error::MissingPostId));
}

#[test]
fn parse_url_rejects_non_numeric_id() {
    assert_eq!(
        parse_url("https://www.tumblr.com/justcatposts/not-a-number"),
        Err(Error::InvalidPostId)
    );
    assert_eq!(parse_url("https://www.tumblr.com/justcatposts/"), Err(Error::InvalidPostId));
    assert_eq!(
        parse_url("https://www.tumblr.com/justcatposts/99999999999999999999"),
        Err(Error::InvalidPostId)
    );
}

#[test]
fn permalink_url_builds_and_parses_back() {
    let url = permalink_url("toss-a-coin-to-your-stan-account", 746546342405537792);
    assert_eq!(url, "https://www.tumblr.com/toss-a-coin-to-your-stan-account/746546342405537792");
    let (blog, id) = parse_url(url.as_str()).unwrap();
    assert_eq!(blog, "toss-a-coin-to-your-stan-account");
    assert_eq!(id, 746546342405537792u64);
}

#[test]
fn format_u64_renders_decimal() {
    assert_eq!(format_u64(0), "0");
    assert_eq!(format_u64(7), "7");
    assert_eq!(format_u64(10), "10");
    assert_eq!(format_u64(748474744137007104), "748474744137007104");
    assert_eq!(format_u64(u64::MAX), "18446744073709551615");
}

#[test]
fn parse_u64_accepts_digits_only() {
    assert_eq!(parse_u64("0"), Some(0));
    assert_eq!(parse_u64("748474744137007104"), Some(748474744137007104));
    assert_eq!(parse_u64("18446744073709551615"), Some(u64::MAX));
    assert_eq!(parse_u64(""), None);
    assert_eq!(parse_u64("12a"), None);
    assert_eq!(parse_u64("-1"), None);
    assert_eq!(parse_u64("+1"), None);
    assert_eq!(parse_u64("18446744073709551616"), None);
}

#[test]
fn media_file_name_takes_last_segment() {
    assert_eq!(media_file_name("https://64.media.tumblr.com/abc123/b.jpg").unwrap(), "b.jpg");
    assert_eq!(media_file_name("http://example.com/a/b/c.png").unwrap(), "c.png");
}

#[test]
fn media_file_name_rejects_unusable_urls() {
    assert_eq!(media_file_name("https://64.media.tumblr.com/abc/"), Err(Error::MissingFileName));
    assert_eq!(media_file_name("https://example.com"), Err(Error::MissingFileName));
    assert_eq!(media_file_name("ftp://example.com/a.jpg"), Err(Error::MissingFileName));
}

#[test]
fn commit_names() {
    assert_eq!(metadata_file_name(), "metadata.json");
    let tmp = tmp_file_name("metadata.json");
    assert_eq!(tmp, "metadata.json.tmp");
    assert_ne!(tmp, "metadata.json");
    assert_eq!(post_directory("justcatposts", 748474744137007104), "justcatposts/748474744137007104");
}
