//! The GitHub session: the OAuth client id, the token kept in the system's
//! credential store, and the headers every request carries.

use vstd::prelude::*;
use crate::external::{header_char_ok, header_value_accepts};
use crate::text::{is_blank, is_blank_text};

verus! {

/// Turns any displayable error into its message.
pub fn err<E: std::fmt::Display>(e: E) -> (s: String)
    ensures
        vstd::string::to_string_from_display_ensures::<E>(&e, s),
{
    e.to_string()
}

/// The client id that the build embeds wins over the one in the environment;
/// either is refused when blank.
pub open spec fn client_id_choice(compiled: Option<Seq<char>>, runtime: Option<Seq<char>>) -> Option<
    Seq<char>,
> {
    let candidate = match compiled {
        Some(c) => Some(c),
        None => runtime,
    };
    match candidate {
        Some(c) => if is_blank_text(c) {
            None
        } else {
            Some(c)
        },
        None => None,
    }
}

/// The view of an optional text.
pub open spec fn text_opt(o: Option<String>) -> Option<Seq<char>> {
    match o {
        Some(s) => Some(s@),
        None => None,
    }
}

/// The OAuth client id: the one fixed at build time, else the one in the
/// environment; an error when that one is missing or blank.
pub fn client_id(compiled: Option<String>, runtime: Option<String>) -> (r: Result<String, String>)
    ensures
        match client_id_choice(text_opt(compiled), text_opt(runtime)) {
            Some(c) => r matches Ok(v) && v@ == c,
            None => r matches Err(e) && e@
                == "GitHub OAuth Client ID non configurato. Imposta GITHUB_CLIENT_ID prima della build."@,
        },
{
    let candidate = match compiled {
        Some(c) => Some(c),
        None => runtime,
    };
    match candidate {
        Some(c) => {
            if is_blank(c.as_str()) {
                Err(
                    String::from_str(
                        "GitHub OAuth Client ID non configurato. Imposta GITHUB_CLIENT_ID prima della build.",
                    ),
                )
            } else {
                Ok(c)
            }
        },
        None => Err(
            String::from_str(
                "GitHub OAuth Client ID non configurato. Imposta GITHUB_CLIENT_ID prima della build.",
            ),
        ),
    }
}

/// What reading the stored token gave.
pub enum CredentialRead {
    /// The credential store could not be opened; the text says why.
    NoStore(String),
    /// The store holds no readable token.
    Unreadable,
    /// The token.
    Secret(String),
}

/// The token a read gives, or the error: the store's own, or a request to
/// sign in again.
pub open spec fn token_outcome(read: CredentialRead) -> Result<Seq<char>, Seq<char>> {
    match read {
        CredentialRead::NoStore(e) => Err(e@),
        CredentialRead::Unreadable => Err("Sessione GitHub non disponibile. Accedi di nuovo."@),
        CredentialRead::Secret(t) => Ok(t@),
    }
}

/// The view of a result of texts.
pub open spec fn text_result(r: Result<String, String>) -> Result<Seq<char>, Seq<char>> {
    match r {
        Ok(v) => Ok(v@),
        Err(e) => Err(e@),
    }
}

/// The stored token, or why there is none.
pub fn token(read: CredentialRead) -> (r: Result<String, String>)
    ensures
        text_result(r) == token_outcome(read),
{
    match read {
        CredentialRead::NoStore(e) => Err(e),
        CredentialRead::Unreadable => Err(
            String::from_str("Sessione GitHub non disponibile. Accedi di nuovo."),
        ),
        CredentialRead::Secret(t) => Ok(t),
    }
}

/// Whether a session exists: a token could be read.
pub fn has_session(read: &CredentialRead) -> (r: bool)
    ensures
        r == (read is Secret),
{
    match read {
        CredentialRead::Secret(_) => true,
        _ => false,
    }
}

/// There is a session exactly when the token can be had.
pub proof fn law_session_iff_token(read: CredentialRead)
    ensures
        (read is Secret) <==> (token_outcome(read) is Ok),
{
}

/// What deleting the stored token gave.
pub enum CredentialDelete {
    /// The credential store could not be opened; the text says why.
    NoStore(String),
    /// The token was deleted.
    Deleted,
    /// There was no token.
    NotFound,
    /// Deleting failed; the text says why.
    Failed(String),
}

/// Signing out succeeds when the token is gone, whether or not there was one.
pub fn logout(outcome: CredentialDelete) -> (r: Result<(), String>)
    ensures
        match outcome {
            CredentialDelete::NoStore(e) => r matches Err(m) && m@ == e@,
            CredentialDelete::Failed(e) => r matches Err(m) && m@ == e@,
            _ => r is Ok,
        },
{
    match outcome {
        CredentialDelete::NoStore(e) => Err(e),
        CredentialDelete::Deleted => Ok(()),
        CredentialDelete::NotFound => Ok(()),
        CredentialDelete::Failed(e) => Err(e),
    }
}

/// What storing the token gave.
pub enum CredentialWrite {
    /// The credential store could not be opened; the text says why.
    NoStore(String),
    /// The token is stored.
    Stored,
    /// Storing failed; the text says why.
    Failed(String),
}

/// The end of a sign-in once the token has been handed to the store.
pub fn token_stored(outcome: CredentialWrite) -> (r: Result<(), String>)
    ensures
        match outcome {
            CredentialWrite::NoStore(e) => r matches Err(m) && m@ == e@,
            CredentialWrite::Failed(e) => r matches Err(m) && m@ == e@,
            CredentialWrite::Stored => r is Ok,
        },
{
    match outcome {
        CredentialWrite::NoStore(e) => Err(e),
        CredentialWrite::Stored => Ok(()),
        CredentialWrite::Failed(e) => Err(e),
    }
}

/// The headers of every GitHub request, as (name, value) pairs.
pub open spec fn base_headers() -> Seq<(Seq<char>, Seq<char>)> {
    seq![
        ("user-agent"@, "QA-Lab-Launcher/0.1"@),
        ("accept"@, "application/vnd.github+json"@),
        ("x-github-api-version"@, "2022-11-28"@),
    ]
}

/// The view of header pairs.
pub open spec fn header_pairs(v: Seq<(String, String)>) -> Seq<(Seq<char>, Seq<char>)> {
    v.map_values(|p: (String, String)| (p.0@, p.1@))
}

fn push_header(v: &mut Vec<(String, String)>, name: &str, value: &str)
    ensures
        header_pairs(final(v)@) == header_pairs(old(v)@).push((name@, value@)),
{
    v.push((String::from_str(name), String::from_str(value)));
    assert(header_pairs(v@) =~= header_pairs(old(v)@).push((name@, value@)));
}

/// The headers of the GitHub client: the fixed ones and, with a token,
/// `authorization: Bearer <token>`; an error when the token cannot stand in
/// a header value.
pub fn default_headers(token: Option<&str>) -> (r: Result<Vec<(String, String)>, String>)
    ensures
        match token {
            None => r matches Ok(v) && header_pairs(v@) == base_headers(),
            Some(t) => if forall|i: int| 0 <= i < t@.len() ==> header_char_ok(#[trigger] t@[i]) {
                r matches Ok(v) && header_pairs(v@) == base_headers().push(
                    ("authorization"@, "Bearer "@ + t@),
                )
            } else {
                r matches Err(e) && e@ == "Token non valido"@
            },
        },
{
    let mut v: Vec<(String, String)> = Vec::new();
    assert(header_pairs(v@) =~= Seq::<(Seq<char>, Seq<char>)>::empty());
    push_header(&mut v, "user-agent", "QA-Lab-Launcher/0.1");
    push_header(&mut v, "accept", "application/vnd.github+json");
    push_header(&mut v, "x-github-api-version", "2022-11-28");
    assert(header_pairs(v@) =~= base_headers());
    match token {
        None => Ok(v),
        Some(t) => {
            let mut bearer = String::from_str("Bearer ");
            bearer.append(t);
            let ok = header_value_accepts(bearer.as_str());
            proof {
                reveal_strlit("Bearer ");
                let b = bearer@;
                assert(b == "Bearer "@ + t@);
                assert(ok == (forall|i: int| 0 <= i < t@.len() ==> header_char_ok(#[trigger] t@[i])))
                    by {
                    if ok {
                        assert forall|i: int| 0 <= i < t@.len() implies header_char_ok(
                            #[trigger] t@[i],
                        ) by {
                            assert(b[i + 7] == t@[i]);
                        }
                    } else {
                        let k = choose|k: int| 0 <= k < b.len() && !header_char_ok(#[trigger] b[k]);
                        if k < 7 {
                            assert(b[k] == "Bearer "@[k]);
                        } else {
                            assert(b[k] == t@[k - 7]);
                        }
                    }
                }
            }
            if ok {
                push_header(&mut v, "authorization", bearer.as_str());
                Ok(v)
            } else {
                Err(String::from_str("Token non valido"))
            }
        },
    }
}

} // verus!
