use tumblr::model::ApiFetchStore;
use tumblr::model::Blog;
use tumblr::model::ContentBlock;
use tumblr::model::InitialState;
use tumblr::model::InitialTimeline;
use tumblr::model::Media;
use tumblr::model::PeeprRoute;
use tumblr::model::Post;
use tumblr::model::TimelineObject;
use tumblr::plan::plan_downloads;
use tumblr::resolve::resolve_post;
use tumblr::urls::metadata_file_name;
use tumblr::urls::parse_url;
use tumblr::urls::post_directory;
use tumblr::Error;

fn media(url: &str, original: bool) -> Media {
    Media {
        url: url.to_owned(),
        kind: Some("image/jpeg".to_owned()),
        width: Some(640),
        height: Some(480),
        original_dimensions_missing: None,
        cropped: Some(!original),
        has_original_dimensions: Some(original),
    }
}

fn image(media: Vec<Media>) -> ContentBlock {
    ContentBlock::Image { media, alt_text: None, caption: None, exif: None }
}

fn catpost(content: Vec<ContentBlock>) -> Post {
    Post {
        kind: "blocks".to_owned(),
        id: 748474744137007104,
        content,
        layout: vec![],
        state: "published".to_owned(),
        date: "2024-04-21 12:00:00 GMT".to_owned(),
        tags: vec![],
        slug: "".to_owned(),
        short_url: "https://tmblr.co/x".to_owned(),
        summary: "a cat".to_owned(),
        note_count: 0,
        like_count: 0,
        is_nsfw: false,
        blog_name: "justcatposts".to_owned(),
        blog: Blog {
            name: "justcatposts".to_owned(),
            avatar: vec![],
            title: "Just Cat Posts".to_owned(),
            url: "https://justcatposts.tumblr.com/".to_owned(),
            blog_view_url: "https://www.tumblr.com/justcatposts".to_owned(),
            is_adult: false,
            description_npf: vec![],
            uuid: "t:justcatposts".to_owned(),
        },
    }
}

#[test]
fn whole_post_is_resolved_and_planned() {
    let (blog, id) = parse_url("https://www.tumblr.com/justcatposts/748474744137007104").unwrap();
    assert_eq!(blog, "justcatposts");
    assert_eq!(id, 748474744137007104);

    let content = vec![
        ContentBlock::Text {
            text: "look at this cat".to_owned(),
            subtype: None,
            indent_level: None,
            formatting: None,
        },
        image(vec![
            media("https://64.media.tumblr.com/x/a.jpg", false),
            media("https://64.media.tumblr.com/x/b.jpg", true),
        ]),
    ];
    let state = InitialState {
        api_fetch_store: ApiFetchStore { api_token: "example-api-token".to_owned() },
        peepr_route: Some(PeeprRoute {
            initial_timeline: InitialTimeline {
                objects: vec![TimelineObject::Post(catpost(content))],
            },
        }),
    };

    let post = resolve_post(state, &blog, id).unwrap();
    assert_eq!(post.blog_name, "justcatposts");
    assert_eq!(post.id, 748474744137007104);

    let plan = plan_downloads(&post.content).unwrap();
    assert_eq!(plan.len(), 1);
    assert_eq!(plan[0].url, "https://64.media.tumblr.com/x/b.jpg");
    assert_eq!(plan[0].file_name, "b.jpg");

    assert_eq!(post_directory(blog.as_str(), id), "justcatposts/748474744137007104");
    assert_eq!(metadata_file_name(), "metadata.json");
}

#[test]
fn planning_fails_fast_on_an_inconsistent_block() {
    let content = vec![
        image(vec![media("https://64.media.tumblr.com/x/ok.jpg", true)]),
        image(vec![
            media("https://64.media.tumblr.com/x/a.jpg", true),
            media("https://64.media.tumblr.com/x/b.jpg", true),
        ]),
    ];
    assert_eq!(plan_downloads(&content), Err(Error::MultipleOriginalMedia));
}

#[test]
fn planning_covers_video_blocks() {
    let content = vec![ContentBlock::Video {
        url: Some("https://va.media.tumblr.com/clip.mp4".to_owned()),
        media: None,
        provider: Some("tumblr".to_owned()),
        embed_html: None,
        embed_iframe: None,
        embed_url: None,
        poster: None,
        metadata: None,
        attribution: None,
        can_autoplay_on_cellular: None,
        filmstrip: None,
    }];
    let plan = plan_downloads(&content).unwrap();
    assert_eq!(plan.len(), 1);
    assert_eq!(plan[0].url, "https://va.media.tumblr.com/clip.mp4");
    assert_eq!(plan[0].file_name, "clip.mp4");
}
