use ruffle_android::navigator::{movie_url, AndroidNavigatorInterface};

#[test]
fn movies_run_under_one_address() {
    assert_eq!(movie_url(), Some("file://movie.swf/".to_string()));
}

#[test]
fn every_page_is_refused() {
    let navigator = AndroidNavigatorInterface;
    let refused = navigator.navigate_to_website("https://ruffle.rs/");
    assert_eq!(refused.notice, "Blocked navigation to https://ruffle.rs/");
    assert_eq!(navigator.navigate_to_website("").notice, "Blocked navigation to ");
}

#[test]
fn every_socket_is_allowed() {
    assert!(AndroidNavigatorInterface.confirm_socket("example.org", 843));
    assert!(AndroidNavigatorInterface.confirm_socket("", 0));
}
