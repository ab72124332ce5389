use rsspls::url::resolve_link;

#[test]
fn absolute_href_stands_as_it_is() {
    assert_eq!(
        resolve_link("https://example.com/blog/", "https://other.net/a"),
        "https://other.net/a"
    );
    assert_eq!(resolve_link("https://example.com/", "http://plain.org/x"), "http://plain.org/x");
}

#[test]
fn scheme_relative_href_takes_the_base_scheme() {
    assert_eq!(resolve_link("https://example.com/blog/", "//cdn.net/a.js"), "https://cdn.net/a.js");
    assert_eq!(resolve_link("http://example.com/", "//cdn.net/a.js"), "http://cdn.net/a.js");
}

#[test]
fn root_relative_href_joins_the_origin() {
    assert_eq!(resolve_link("https://example.com/blog/post.html", "/p/1"), "https://example.com/p/1");
    assert_eq!(resolve_link("http://example.com", "/p/1"), "http://example.com/p/1");
}

#[test]
fn relative_href_replaces_the_last_segment() {
    assert_eq!(
        resolve_link("https://example.com/blog/index.html", "p/2"),
        "https://example.com/blog/p/2"
    );
    assert_eq!(resolve_link("https://example.com/blog/", "p/2"), "https://example.com/blog/p/2");
}

#[test]
fn relative_href_against_bare_origin_gets_a_slash() {
    assert_eq!(resolve_link("https://example.com", "p/2"), "https://example.com/p/2");
}

#[test]
fn non_http_base_leaves_the_href_alone() {
    assert_eq!(resolve_link("ftp://example.com/dir/", "p/2"), "p/2");
    assert_eq!(resolve_link("not a url", "/p/1"), "/p/1");
}

#[test]
fn scheme_bearing_href_stands_as_it_is() {
    assert_eq!(resolve_link("https://example.com/blog/", "mailto:someone@example.org"), "mailto:someone@example.org");
    assert_eq!(resolve_link("https://example.com/blog/", "ftp://files.example.org/a"), "ftp://files.example.org/a");
}
