//! Checks made on what is downloaded and what is launched: the SHA-256 of a
//! package, the program that opens an entry point, the addresses the
//! launcher agrees to open, and the entries of a ZIP archive.

use vstd::prelude::*;
use crate::external::{
    hex_encode, hex_lower, lowercase, parse_url, sha256, sha256_digest, unicode_lowercase,
    url_parse_outcome, url_parts_view,
};
use crate::text::{chars_of, is_unicode_whitespace, is_whitespace_char, same_text};

verus! {

/// The first position at or after `i` that holds no white space.
pub open spec fn skip_space(s: Seq<char>, i: int) -> int
    decreases s.len() - i,
{
    if i < 0 || i >= s.len() {
        i
    } else if is_unicode_whitespace(s[i]) {
        skip_space(s, i + 1)
    } else {
        i
    }
}

/// The first position at or after `i` that holds white space (or the end).
pub open spec fn word_end(s: Seq<char>, i: int) -> int
    decreases s.len() - i,
{
    if i < 0 || i >= s.len() {
        i
    } else if is_unicode_whitespace(s[i]) {
        i
    } else {
        word_end(s, i + 1)
    }
}

/// The first white-space-separated word of `s`, or nothing when `s` is
/// blank: what `split_whitespace().next().unwrap_or("")` gives.
pub open spec fn first_word(s: Seq<char>) -> Seq<char> {
    let a = skip_space(s, 0);
    s.subrange(a, word_end(s, a))
}

/// The first white-space-separated word of `s` (empty when there is none).
pub fn first_word_of(s: &str) -> (r: &str)
    ensures
        r@ == first_word(s@),
{
    let cs = chars_of(s);
    let n = cs.len();
    let mut a: usize = 0;
    while a < n && is_whitespace_char(cs[a])
        invariant
            n == cs@.len(),
            cs@ == s@,
            a <= n,
            skip_space(s@, 0) == skip_space(s@, a as int),
        decreases n - a,
    {
        a = a + 1;
    }
    let mut b: usize = a;
    while b < n && !is_whitespace_char(cs[b])
        invariant
            n == cs@.len(),
            cs@ == s@,
            a <= b <= n,
            skip_space(s@, 0) == a,
            word_end(s@, a as int) == word_end(s@, b as int),
        decreases n - b,
    {
        b = b + 1;
    }
    s.substring_char(a, b)
}

/// Whether `expected` (already lowercase) is the hexadecimal text of `digest`.
pub fn digest_matches(expected: &str, digest: &[u8]) -> (r: bool)
    ensures
        r == (expected@ == hex_lower(digest@)),
{
    let actual = hex_encode(digest);
    same_text(expected, actual.as_str())
}

/// A package passes its checksum when the first word of the checksum file
/// (a bare hash, or `hash filename`), lowercased, is the hexadecimal SHA-256
/// of the package.
pub open spec fn checksum_accepted(checksum_text: Seq<char>, package: Seq<u8>) -> bool {
    unicode_lowercase(first_word(checksum_text)) == hex_lower(sha256_digest(package))
}

/// Decides `checksum_accepted`.
pub fn checksum_matches(checksum_text: &str, package: &[u8]) -> (r: bool)
    ensures
        r == checksum_accepted(checksum_text@, package@),
{
    let expected = lowercase(first_word_of(checksum_text));
    let digest = sha256(package);
    digest_matches(expected.as_str(), digest.as_slice())
}

/// `c` is `l` up to ASCII case, for a lowercase `l`.
pub open spec fn char_matches_lower(c: char, l: char) -> bool {
    c == l || ('A' <= c <= 'Z' && (c as u32) + 32 == (l as u32))
}

/// `s` lowercased in ASCII is `lower`.
pub open spec fn matches_ascii_lower(s: Seq<char>, lower: Seq<char>) -> bool {
    &&& s.len() == lower.len()
    &&& forall|i: int| 0 <= i < s.len() ==> char_matches_lower(#[trigger] s[i], lower[i])
}

fn extension_is(ext: &Vec<char>, lower: &Vec<char>) -> (r: bool)
    ensures
        r == matches_ascii_lower(ext@, lower@),
{
    if ext.len() != lower.len() {
        return false;
    }
    let n = ext.len();
    let mut i: usize = 0;
    while i < n
        invariant
            n == ext@.len(),
            n == lower@.len(),
            i <= n,
            forall|j: int| 0 <= j < i ==> char_matches_lower(#[trigger] ext@[j], lower@[j]),
        decreases n - i,
    {
        let c = ext[i];
        let l = lower[i];
        if !(c == l || ('A' <= c && c <= 'Z' && (c as u32) + 32 == (l as u32))) {
            return false;
        }
        i = i + 1;
    }
    true
}

/// How an entry point is started.
pub enum Launcher {
    /// A batch file: `cmd.exe /d /c <entry point>`.
    Cmd,
    /// A PowerShell script: `powershell.exe -NoProfile -File <entry point>`.
    PowerShell,
    /// A program: run the entry point itself.
    Direct,
}

/// The launcher for an entry point with the given extension (compared
/// without ASCII case): `cmd` and `bat` go through `cmd.exe`, `ps1` through
/// PowerShell, anything else (or no extension) runs directly.
pub fn launcher_for(extension: Option<&str>) -> (r: Launcher)
    ensures
        match extension {
            None => r is Direct,
            Some(e) => if matches_ascii_lower(e@, seq!['c', 'm', 'd']) || matches_ascii_lower(
                e@,
                seq!['b', 'a', 't'],
            ) {
                r is Cmd
            } else if matches_ascii_lower(e@, seq!['p', 's', '1']) {
                r is PowerShell
            } else {
                r is Direct
            },
        },
{
    match extension {
        None => Launcher::Direct,
        Some(e) => {
            let ext = chars_of(e);
            let cmd = vec!['c', 'm', 'd'];
            let bat = vec!['b', 'a', 't'];
            let ps1 = vec!['p', 's', '1'];
            assert(cmd@ =~= seq!['c', 'm', 'd']);
            assert(bat@ =~= seq!['b', 'a', 't']);
            assert(ps1@ =~= seq!['p', 's', '1']);
            if extension_is(&ext, &cmd) || extension_is(&ext, &bat) {
                Launcher::Cmd
            } else if extension_is(&ext, &ps1) {
                Launcher::PowerShell
            } else {
                Launcher::Direct
            }
        },
    }
}

/// The program and the arguments that come before the entry point, for a
/// launcher that needs an interpreter.
pub fn interpreter(l: &Launcher) -> (r: Option<(String, Vec<String>)>)
    ensures
        match l {
            Launcher::Cmd => r matches Some((p, a)) && p@ == "cmd.exe"@ && a@.len() == 2 && a@[0]@
                == "/d"@ && a@[1]@ == "/c"@,
            Launcher::PowerShell => r matches Some((p, a)) && p@ == "powershell.exe"@ && a@.len()
                == 2 && a@[0]@ == "-NoProfile"@ && a@[1]@ == "-File"@,
            Launcher::Direct => r is None,
        },
{
    match l {
        Launcher::Cmd => Some(
            (String::from_str("cmd.exe"), vec![String::from_str("/d"), String::from_str("/c")]),
        ),
        Launcher::PowerShell => Some(
            (
                String::from_str("powershell.exe"),
                vec![String::from_str("-NoProfile"), String::from_str("-File")],
            ),
        ),
        Launcher::Direct => None,
    }
}

/// The error when a tool cannot be started.
pub fn launch_error(detail: &str) -> (r: String)
    ensures
        r@ == "Impossibile avviare lo strumento: "@ + detail@,
{
    let mut m = String::from_str("Impossibile avviare lo strumento: ");
    m.append(detail);
    m
}

/// Only `https` addresses on `github.com` may be opened.
pub open spec fn url_verdict(parsed: Result<(Seq<char>, Option<Seq<char>>), Seq<char>>) -> Result<
    (),
    Seq<char>,
> {
    match parsed {
        Err(e) => Err(e),
        Ok((scheme, host)) => if scheme == "https"@ && host == Some("github.com"@) {
            Ok(())
        } else {
            Err("URL esterno non consentito"@)
        },
    }
}

/// The view of a result whose error is a text.
pub open spec fn unit_result_view(r: Result<(), String>) -> Result<(), Seq<char>> {
    match r {
        Ok(()) => Ok(()),
        Err(e) => Err(e@),
    }
}

/// Decides `url_verdict` on a parsed address (scheme and host), or passes
/// the parse error on.
pub fn url_allowed(parsed: Result<(String, Option<String>), String>) -> (r: Result<(), String>)
    ensures
        unit_result_view(r) == url_verdict(url_parts_view(parsed)),
{
    match parsed {
        Err(e) => Err(e),
        Ok((scheme, host)) => {
            let host_ok = match &host {
                Some(h) => same_text(h.as_str(), "github.com"),
                None => false,
            };
            if same_text(scheme.as_str(), "https") && host_ok {
                Ok(())
            } else {
                Err(String::from_str("URL esterno non consentito"))
            }
        },
    }
}

/// Whether the launcher may open `url` in the browser.
pub fn check_external_url(url: &str) -> (r: Result<(), String>)
    ensures
        unit_result_view(r) == url_verdict(url_parse_outcome(url@)),
{
    url_allowed(parse_url(url))
}

/// What to do with one entry of a ZIP archive.
pub enum ZipEntryPlan {
    /// Create the directory.
    CreateDir,
    /// Create the parent directories, then write the file.
    WriteFile,
}

/// An entry whose path would leave the destination stops the extraction.
pub fn zip_entry_plan(has_safe_path: bool, is_dir: bool) -> (r: Result<ZipEntryPlan, String>)
    ensures
        !has_safe_path ==> (r matches Err(e) && e@ == "Archivio non sicuro: percorso non valido"@),
        has_safe_path && is_dir ==> r matches Ok(ZipEntryPlan::CreateDir),
        has_safe_path && !is_dir ==> r matches Ok(ZipEntryPlan::WriteFile),
{
    if !has_safe_path {
        Err(String::from_str("Archivio non sicuro: percorso non valido"))
    } else if is_dir {
        Ok(ZipEntryPlan::CreateDir)
    } else {
        Ok(ZipEntryPlan::WriteFile)
    }
}

proof fn lemma_skip_space(s: Seq<char>, i: int)
    requires
        0 <= i <= s.len(),
    ensures
        i <= skip_space(s, i) <= s.len(),
        forall|j: int| i <= j < skip_space(s, i) ==> is_unicode_whitespace(#[trigger] s[j]),
        skip_space(s, i) == s.len() || !is_unicode_whitespace(s[skip_space(s, i)]),
    decreases s.len() - i,
{
    if i < s.len() && is_unicode_whitespace(s[i]) {
        lemma_skip_space(s, i + 1);
    }
}

proof fn lemma_word_end(s: Seq<char>, i: int)
    requires
        0 <= i <= s.len(),
    ensures
        i <= word_end(s, i) <= s.len(),
        forall|j: int| i <= j < word_end(s, i) ==> !is_unicode_whitespace(#[trigger] s[j]),
        word_end(s, i) == s.len() || is_unicode_whitespace(s[word_end(s, i)]),
    decreases s.len() - i,
{
    if i < s.len() && !is_unicode_whitespace(s[i]) {
        lemma_word_end(s, i + 1);
    }
}

/// The first word of a text is what follows its leading white space up to
/// the next white space or the end: it holds no white space, and it is empty
/// only when the whole text is blank.
pub proof fn law_first_word(s: Seq<char>)
    ensures
        exists|a: int|
            0 <= a && a + first_word(s).len() <= s.len() && (forall|i: int|
                0 <= i < a ==> is_unicode_whitespace(#[trigger] s[i])) && #[trigger] s.subrange(
                a,
                a + first_word(s).len(),
            ) == first_word(s) && (a + first_word(s).len() == s.len() || is_unicode_whitespace(
                s[a + first_word(s).len()],
            )) && (first_word(s).len() == 0 ==> a == s.len()),
        forall|i: int|
            0 <= i < first_word(s).len() ==> !is_unicode_whitespace(#[trigger] first_word(s)[i]),
{
    lemma_skip_space(s, 0);
    let a = skip_space(s, 0);
    lemma_word_end(s, a);
    let e = word_end(s, a);
    let w = first_word(s);
    assert(w == s.subrange(a, e));
    assert(w.len() == e - a);
    assert forall|i: int| 0 <= i < w.len() implies !is_unicode_whitespace(#[trigger] w[i]) by {
        assert(w[i] == s[a + i]);
    }
    assert(s.subrange(a, a + w.len()) == w);
}

} // verus!
