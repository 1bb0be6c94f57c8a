use tumblr::model::ApiFetchStore;
use tumblr::model::Blog;
use tumblr::model::ContentBlock;
use tumblr::model::InitialState;
use tumblr::model::InitialTimeline;
use tumblr::model::PeeprRoute;
use tumblr::model::Post;
use tumblr::model::TimelineObject;
use tumblr::resolve::resolve_post;
use tumblr::Error;

fn blog(name: &str) -> Blog {
    Blog {
        name: name.to_owned(),
        avatar: vec![],
        title: name.to_owned(),
        url: format!("https://{name}.tumblr.com/"),
        blog_view_url: format!("https://www.tumblr.com/{name}"),
        is_adult: false,
        description_npf: vec![],
        uuid: format!("t:{name}"),
    }
}

fn post(blog_name: &str, id: u64, content: Vec<ContentBlock>) -> Post {
    Post {
        kind: "blocks".to_owned(),
        id,
        content,
        layout: vec![],
        state: "published".to_owned(),
        date: "2024-04-21 12:00:00 GMT".to_owned(),
        tags: vec!["cats".to_owned()],
        slug: "".to_owned(),
        short_url: "https://tmblr.co/x".to_owned(),
        summary: "".to_owned(),
        note_count: 3,
        like_count: 2,
        is_nsfw: false,
        blog_name: blog_name.to_owned(),
        blog: blog(blog_name),
    }
}

fn state_of(objects: Vec<TimelineObject>) -> InitialState {
    InitialState {
        api_fetch_store: ApiFetchStore { api_token: "example-api-token".to_owned() },
        peepr_route: Some(PeeprRoute { initial_timeline: InitialTimeline { objects } }),
    }
}

#[test]
fn resolution_returns_the_sole_match() {
    let state = state_of(vec![
        TimelineObject::Post(post("otherblog", 748474744137007104, vec![])),
        TimelineObject::Post(post("justcatposts", 748474744137007104, vec![])),
        TimelineObject::Post(post("justcatposts", 1, vec![])),
    ]);
    let p = resolve_post(state, &"justcatposts".to_owned(), 748474744137007104).unwrap();
    assert_eq!(p.blog_name, "justcatposts");
    assert_eq!(p.id, 748474744137007104);
}

#[test]
fn resolution_takes_the_first_of_several_matches() {
    let mut first = post("justcatposts", 5, vec![]);
    first.summary = "first".to_owned();
    let mut second = post("justcatposts", 5, vec![]);
    second.summary = "second".to_owned();
    let state = state_of(vec![TimelineObject::Post(first), TimelineObject::Post(second)]);
    let p = resolve_post(state, &"justcatposts".to_owned(), 5).unwrap();
    assert_eq!(p.summary, "first");
}

#[test]
fn resolution_errors_on_zero_matches() {
    let state = state_of(vec![TimelineObject::Post(post("otherblog", 7, vec![]))]);
    assert_eq!(
        resolve_post(state, &"justcatposts".to_owned(), 7),
        Err(Error::MissingScrapedPost)
    );
}

#[test]
fn resolution_errors_without_route_payload() {
    let state = InitialState {
        api_fetch_store: ApiFetchStore { api_token: "example-api-token".to_owned() },
        peepr_route: None,
    };
    assert_eq!(
        resolve_post(state, &"justcatposts".to_owned(), 7),
        Err(Error::MissingScrapedPost)
    );
}

#[test]
fn api_token_is_exposed() {
    let state = state_of(vec![]);
    assert_eq!(state.api_token(), "example-api-token");
}
