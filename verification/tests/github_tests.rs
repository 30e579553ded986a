use qa_lab_launcher::github::{
    api_reply, install_manifest_meta_url, latest_release_url, manifest_meta_url, next_page,
    repos_page_url, ApiReply,
};

#[test]
fn page_addresses() {
    assert_eq!(
        repos_page_url(1),
        "https://api.github.com/user/repos?visibility=all&affiliation=owner,collaborator,organization_member&sort=full_name&per_page=100&page=1"
    );
    assert!(repos_page_url(20).ends_with("&page=20"));
    assert!(repos_page_url(4294967295).ends_with("&page=4294967295"));
    assert!(repos_page_url(0).ends_with("&page=0"));
}

#[test]
fn paging_stops() {
    assert_eq!(next_page(1, 100), Some(2));
    assert_eq!(next_page(1, 99), None);
    assert_eq!(next_page(19, 100), Some(20));
    assert_eq!(next_page(20, 100), None);
    assert_eq!(next_page(3, 0), None);
}

#[test]
fn at_most_two_thousand_repositories() {
    let mut page = 1;
    let mut pages = 1;
    while let Some(p) = next_page(page, 100) {
        page = p;
        pages += 1;
    }
    assert_eq!(pages, 20);
}

#[test]
fn repository_addresses() {
    assert_eq!(
        manifest_meta_url("o", "r", "main"),
        "https://api.github.com/repos/o/r/contents/launcher.json?ref=main"
    );
    assert_eq!(install_manifest_meta_url("o", "r"), "https://api.github.com/repos/o/r/contents/launcher.json");
    assert_eq!(latest_release_url("o", "r"), "https://api.github.com/repos/o/r/releases/latest");
}

#[test]
fn reply_statuses() {
    assert!(matches!(api_reply(404, "404 Not Found", "u"), ApiReply::NotFound));
    assert!(matches!(api_reply(200, "200 OK", "u"), ApiReply::Body));
    assert!(matches!(api_reply(204, "204 No Content", "u"), ApiReply::Body));
    match api_reply(500, "500 Internal Server Error", "https://x") {
        ApiReply::Failed(m) => assert_eq!(m, "GitHub API: 500 Internal Server Error per https://x"),
        _ => panic!("expected a failure"),
    }
    assert!(matches!(api_reply(304, "304 Not Modified", "u"), ApiReply::Failed(_)));
}
