//! The GitHub REST endpoints the launcher calls, and how their replies are read.

use vstd::prelude::*;

verus! {

/// The base of the GitHub REST API.
pub open spec fn api_base() -> Seq<char> {
    "https://api.github.com"@
}

/// The decimal digit of a value below ten.
pub open spec fn digit_char(d: nat) -> char {
    if d == 0 { '0' }
    else if d == 1 { '1' }
    else if d == 2 { '2' }
    else if d == 3 { '3' }
    else if d == 4 { '4' }
    else if d == 5 { '5' }
    else if d == 6 { '6' }
    else if d == 7 { '7' }
    else if d == 8 { '8' }
    else { '9' }
}

/// The decimal text of `n`, without leading zeros.
pub open spec fn decimal(n: nat) -> Seq<char>
    decreases n,
{
    if n < 10 {
        seq![digit_char(n)]
    } else {
        decimal(n / 10).push(digit_char(n % 10))
    }
}

fn digit_text(d: u32) -> (r: &'static str)
    requires
        d < 10,
    ensures
        r@ == seq![digit_char(d as nat)],
{
    proof {
        reveal_strlit("0");
        reveal_strlit("1");
        reveal_strlit("2");
        reveal_strlit("3");
        reveal_strlit("4");
        reveal_strlit("5");
        reveal_strlit("6");
        reveal_strlit("7");
        reveal_strlit("8");
        reveal_strlit("9");
    }
    if d == 0 { "0" }
    else if d == 1 { "1" }
    else if d == 2 { "2" }
    else if d == 3 { "3" }
    else if d == 4 { "4" }
    else if d == 5 { "5" }
    else if d == 6 { "6" }
    else if d == 7 { "7" }
    else if d == 8 { "8" }
    else { "9" }
}

/// Appends the decimal text of `n`.
pub fn append_decimal(s: &mut String, n: u32)
    ensures
        final(s)@ == old(s)@ + decimal(n as nat),
    decreases n,
{
    if n >= 10 {
        append_decimal(s, n / 10);
    }
    s.append(digit_text(n % 10));
    assert(decimal(n as nat) =~= if n < 10 {
        seq![digit_char(n as nat)]
    } else {
        decimal((n / 10) as nat).push(digit_char((n % 10) as nat))
    });
}

/// The page of the user's repositories to list: all of them that the user
/// can see, sorted by full name, a hundred per page.
pub open spec fn repos_page_url_text(page: u32) -> Seq<char> {
    api_base()
        + "/user/repos?visibility=all&affiliation=owner,collaborator,organization_member&sort=full_name&per_page=100&page="@
        + decimal(page as nat)
}

/// Builds `repos_page_url_text`.
pub fn repos_page_url(page: u32) -> (r: String)
    ensures
        r@ == repos_page_url_text(page),
{
    let mut u = String::from_str("https://api.github.com");
    u.append(
        "/user/repos?visibility=all&affiliation=owner,collaborator,organization_member&sort=full_name&per_page=100&page=",
    );
    append_decimal(&mut u, page);
    u
}

/// The most pages of repositories the catalog reads.
pub open spec fn max_pages() -> u32 {
    20
}

/// How many repositories a page holds at most.
pub open spec fn page_size() -> usize {
    100
}

/// The page after `page`, or nothing when the last page read was not full
/// or when `page` was the last one allowed.
pub fn next_page(page: u32, batch_len: usize) -> (r: Option<u32>)
    requires
        1 <= page <= max_pages(),
    ensures
        r == if batch_len < page_size() || page >= max_pages() {
            None::<u32>
        } else {
            Some((page + 1) as u32)
        },
        r matches Some(p) ==> 1 <= p <= max_pages(),
{
    if batch_len < 100 || page >= 20 {
        None
    } else {
        Some(page + 1)
    }
}

/// The API address of a repository.
pub open spec fn repo_base_text(owner: Seq<char>, repo: Seq<char>) -> Seq<char> {
    api_base() + "/repos/"@ + owner + "/"@ + repo
}

fn repo_base(owner: &str, repo: &str) -> (r: String)
    ensures
        r@ == repo_base_text(owner@, repo@),
{
    let mut u = String::from_str("https://api.github.com");
    u.append("/repos/");
    u.append(owner);
    u.append("/");
    u.append(repo);
    u
}

/// Where the catalog reads a repository's `launcher.json`: on its default branch.
pub fn manifest_meta_url(owner: &str, repo: &str, branch: &str) -> (r: String)
    ensures
        r@ == repo_base_text(owner@, repo@) + "/contents/launcher.json?ref="@ + branch@,
{
    let mut u = repo_base(owner, repo);
    u.append("/contents/launcher.json?ref=");
    u.append(branch);
    u
}

/// Where an install reads a repository's `launcher.json` (the default branch
/// that GitHub picks).
pub fn install_manifest_meta_url(owner: &str, repo: &str) -> (r: String)
    ensures
        r@ == repo_base_text(owner@, repo@) + "/contents/launcher.json"@,
{
    let mut u = repo_base(owner, repo);
    u.append("/contents/launcher.json");
    u
}

/// The latest release of a repository.
pub fn latest_release_url(owner: &str, repo: &str) -> (r: String)
    ensures
        r@ == repo_base_text(owner@, repo@) + "/releases/latest"@,
{
    let mut u = repo_base(owner, repo);
    u.append("/releases/latest");
    u
}

/// How a reply of the API is read.
pub enum ApiReply {
    /// 404: the thing asked for does not exist.
    NotFound,
    /// Any other failure; the text says which and where.
    Failed(String),
    /// A success: the body holds the JSON asked for.
    Body,
}

/// Reads the status of an API reply: 404 means "not there", another status
/// outside 2xx is an error naming the status (as displayed, `500 Internal
/// Server Error`) and the address.
pub fn api_reply(status: u16, status_text: &str, url: &str) -> (r: ApiReply)
    ensures
        status == 404 ==> r is NotFound,
        status != 404 && 200 <= status <= 299 ==> r is Body,
        status != 404 && !(200 <= status <= 299) ==> (r matches ApiReply::Failed(m) && m@
            == "GitHub API: "@ + status_text@ + " per "@ + url@),
{
    if status == 404 {
        ApiReply::NotFound
    } else if 200 <= status && status <= 299 {
        ApiReply::Body
    } else {
        let mut m = String::from_str("GitHub API: ");
        m.append(status_text);
        m.append(" per ");
        m.append(url);
        ApiReply::Failed(m)
    }
}

} // verus!
