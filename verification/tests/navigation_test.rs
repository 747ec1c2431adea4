//! Tests for the navigation handoff channel, the resolver's target
//! selection, and the boundary entry points' input validation.

use frontier_blitz::boundary::{prepare_navigate_session, prepare_static_session};
use frontier_blitz::content::{decode_navigation_response, decode_palette_content};
use frontier_blitz::nav::NavigationState;
use frontier_blitz::resolve::{
    effective_target, stage_navigation_response, DocumentResource, FormEntry, NavigationOptions,
};
use frontier_blitz::shell::FrontierApplication;

#[test]
fn new_state_has_nothing_pending() {
    let state = NavigationState::new("<html></html>".to_owned(), "about:blank".to_owned());
    assert!(!state.has_pending());
    assert_eq!(state.current_html(), "<html></html>");
    assert_eq!(state.current_url(), "about:blank");
}

#[test]
fn staging_twice_keeps_only_the_second() {
    // Last write wins: stage two navigations without an intervening
    // cycle start; only the second's content and location appear.
    let mut state = NavigationState::new("<p>start</p>".to_owned(), "about:blank".to_owned());
    state.stage_pending("<p>first</p>".to_owned(), "http://one.test/".to_owned());
    state.stage_pending("<p>second</p>".to_owned(), "http://two.test/".to_owned());
    let taken = state.take_pending();
    assert_eq!(
        taken,
        Some(("<p>second</p>".to_owned(), "http://two.test/".to_owned()))
    );
    // The slot was cleared: the same pair is never observed twice.
    assert_eq!(state.take_pending(), None);
}

#[test]
fn cycle_start_applies_pending_navigation() {
    let mut app = FrontierApplication::new();
    let mut state = NavigationState::new("<p>start</p>".to_owned(), "about:blank".to_owned());
    state.stage_pending("<p>next</p>".to_owned(), "http://next.test/".to_owned());
    if let Some((html, url)) = state.take_pending() {
        app.update_document(&mut state, &html, &url);
    }
    assert_eq!(state.current_html(), "<p>next</p>");
    assert_eq!(state.current_url(), "http://next.test/");
    assert_eq!(app.last_rendered_url(), "http://next.test/");
    assert!(!state.has_pending());
}

#[test]
fn form_url_field_overrides_nominal_target() {
    // A form submission carrying a field named "url" navigates to that
    // field's value, not to the nominal target, even where they differ.
    let options = NavigationOptions {
        url: "http://nominal.test/".to_owned(),
        document_resource: DocumentResource::Form(vec![
            FormEntry { name: "query".to_owned(), value: "ignored".to_owned() },
            FormEntry { name: "url".to_owned(), value: "https://example.test".to_owned() },
        ]),
    };
    assert_eq!(effective_target(&options), "https://example.test");
}

#[test]
fn form_without_url_field_uses_nominal_target() {
    let options = NavigationOptions {
        url: "http://nominal.test/".to_owned(),
        document_resource: DocumentResource::Form(vec![FormEntry {
            name: "query".to_owned(),
            value: "something".to_owned(),
        }]),
    };
    assert_eq!(effective_target(&options), "http://nominal.test/");

    let plain = NavigationOptions {
        url: "http://plain.test/".to_owned(),
        document_resource: DocumentResource::Other,
    };
    assert_eq!(effective_target(&plain), "http://plain.test/");
}

#[test]
fn first_url_field_wins_over_later_ones() {
    let options = NavigationOptions {
        url: "http://nominal.test/".to_owned(),
        document_resource: DocumentResource::Form(vec![
            FormEntry { name: "url".to_owned(), value: "http://first.test/".to_owned() },
            FormEntry { name: "url".to_owned(), value: "http://second.test/".to_owned() },
        ]),
    };
    assert_eq!(effective_target(&options), "http://first.test/");
}

#[test]
fn invalid_resolver_response_stages_placeholder() {
    // A resolver response that is not valid UTF-8 stages the diagnostic
    // placeholder; the operation itself never fails.
    let mut state = NavigationState::new("<p>start</p>".to_owned(), "about:blank".to_owned());
    stage_navigation_response(&mut state, &[0xff, 0xfe], "http://bad.test/".to_owned());
    let taken = state.take_pending();
    assert_eq!(
        taken,
        Some((
            "<html><body><h1>Invalid UTF-8 in navigation response</h1></body></html>".to_owned(),
            "http://bad.test/".to_owned()
        ))
    );
}

#[test]
fn valid_resolver_response_staged_verbatim() {
    let mut state = NavigationState::new("<p>start</p>".to_owned(), "about:blank".to_owned());
    stage_navigation_response(&mut state, b"<p>fresh</p>", "http://ok.test/".to_owned());
    assert_eq!(
        state.take_pending(),
        Some(("<p>fresh</p>".to_owned(), "http://ok.test/".to_owned()))
    );
}

#[test]
fn decode_helpers_substitute_placeholders() {
    assert_eq!(decode_navigation_response(b"<p>ok</p>"), "<p>ok</p>");
    assert_eq!(
        decode_navigation_response(&[0x80]),
        "<html><body><h1>Invalid UTF-8 in navigation response</h1></body></html>"
    );
    assert_eq!(decode_palette_content(b"<div>palette</div>"), "<div>palette</div>");
    assert_eq!(decode_palette_content(&[0xc3, 0x28]), "<html><body>Invalid UTF-8</body></html>");
}

#[test]
fn null_content_fails_without_starting() {
    assert!(prepare_static_session(None).is_none());
    assert!(prepare_navigate_session(None, Some(b"http://a.test/".to_vec())).is_none());
    assert!(prepare_navigate_session(Some(b"<p>x</p>".to_vec()), None).is_none());
}

#[test]
fn invalid_utf8_content_fails() {
    // A lone continuation byte is not valid UTF-8.
    assert!(prepare_static_session(Some(vec![0x80])).is_none());
    assert!(
        prepare_navigate_session(Some(vec![0x80]), Some(b"http://a.test/".to_vec())).is_none()
    );
    assert!(
        prepare_navigate_session(Some(b"<p>x</p>".to_vec()), Some(vec![0x80])).is_none()
    );
}

#[test]
fn empty_content_is_valid() {
    // An empty buffer decodes to the empty document; only a missing or
    // undecodable buffer fails.
    let state = prepare_static_session(Some(Vec::new())).unwrap();
    assert_eq!(state.current_html(), "");
    assert_eq!(state.current_url(), "http://localhost/");
}

#[test]
fn valid_buffers_seed_the_session() {
    let state = prepare_static_session(Some(b"<h1>hello</h1>".to_vec())).unwrap();
    assert_eq!(state.current_html(), "<h1>hello</h1>");
    assert_eq!(state.current_url(), "http://localhost/");
    assert!(!state.has_pending());

    let state = prepare_navigate_session(
        Some(b"<h1>page</h1>".to_vec()),
        Some(b"http://site.test/".to_vec()),
    )
    .unwrap();
    assert_eq!(state.current_html(), "<h1>page</h1>");
    assert_eq!(state.current_url(), "http://site.test/");
}
