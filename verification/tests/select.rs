use tumblr::model::Media;
use tumblr::select::select_original_media;
use tumblr::select::video_url;
use tumblr::Error;

fn media(url: &str, original: Option<bool>) -> Media {
    Media {
        url: url.to_owned(),
        kind: None,
        width: None,
        height: None,
        original_dimensions_missing: None,
        cropped: None,
        has_original_dimensions: original,
    }
}

#[test]
fn selection_returns_the_sole_original() {
    let seq = vec![
        media("https://64.media.tumblr.com/x/a.jpg", Some(false)),
        media("https://64.media.tumblr.com/x/b.jpg", Some(true)),
        media("https://64.media.tumblr.com/x/c.jpg", None),
    ];
    let i = select_original_media(&seq).unwrap();
    assert_eq!(i, 1);
    assert_eq!(seq[i].url, "https://64.media.tumblr.com/x/b.jpg");
}

#[test]
fn selection_rejects_zero_originals() {
    let seq = vec![
        media("https://64.media.tumblr.com/x/a.jpg", Some(false)),
        media("https://64.media.tumblr.com/x/c.jpg", None),
    ];
    assert_eq!(select_original_media(&seq), Err(Error::MissingOriginalMedia));
    let empty: Vec<Media> = vec![];
    assert_eq!(select_original_media(&empty), Err(Error::MissingOriginalMedia));
}

#[test]
fn selection_rejects_two_originals() {
    let seq = vec![
        media("https://64.media.tumblr.com/x/a.jpg", Some(true)),
        media("https://64.media.tumblr.com/x/b.jpg", Some(true)),
    ];
    assert_eq!(select_original_media(&seq), Err(Error::MultipleOriginalMedia));
}

#[test]
fn video_url_prefers_media_object() {
    let m = Some(media("https://va.media.tumblr.com/v.mp4", None));
    let u = Some("https://example.com/other.mp4".to_owned());
    assert_eq!(video_url(&m, &u).unwrap(), "https://va.media.tumblr.com/v.mp4");
    assert_eq!(video_url(&None, &u).unwrap(), "https://example.com/other.mp4");
    assert_eq!(video_url(&None, &None), Err(Error::MissingVideoUrl));
}
