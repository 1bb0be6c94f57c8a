use tumblr::extract::initial_state_text;
use tumblr::Error;

#[test]
fn state_text_is_found_by_its_element_id() {
    let html = "<html><head><title>a post</title></head><body><script id=\"___INITIAL_STATE___\">{\"apiFetchStore\":{\"API_TOKEN\":\"t\"}}</script></body></html>";
    let text = initial_state_text(html).unwrap();
    assert_eq!(text, "{\"apiFetchStore\":{\"API_TOKEN\":\"t\"}}");
}

#[test]
fn state_text_is_missing_without_the_element() {
    let html = "<html><body><p>log in to see this post</p></body></html>";
    assert_eq!(initial_state_text(html), Err(Error::MissingInitialState));
}

#[test]
fn state_text_is_missing_when_the_element_is_empty() {
    let html = "<html><body><script id=\"___INITIAL_STATE___\"></script></body></html>";
    assert_eq!(initial_state_text(html), Err(Error::MissingInitialState));
}
