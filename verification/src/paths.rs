//! Where the launcher keeps its files, and which names may become part of a path.

use vstd::prelude::*;
use crate::text::chars_of;

verus! {

/// The directory a path starts from.
#[derive(PartialEq, Eq, Structural, Clone, Copy)]
pub enum PathBase {
    /// The user's local application data directory (`%LOCALAPPDATA%`).
    LocalData,
    /// The process's working directory.
    WorkingDir,
}

/// A path: a base directory and the names below it, in order.
pub struct AppPath {
    pub base: PathBase,
    pub segments: Vec<String>,
}

/// The names of a list of `String`s.
pub open spec fn names(v: Seq<String>) -> Seq<Seq<char>> {
    v.map_values(|s: String| s@)
}

impl View for AppPath {
    type V = (PathBase, Seq<Seq<char>>);

    open spec fn view(&self) -> (PathBase, Seq<Seq<char>>) {
        (self.base, names(self.segments@))
    }
}

impl AppPath {
    /// This path with `name` below it.
    pub fn join(self, name: &str) -> (r: AppPath)
        ensures
            r@ == (self@.0, self@.1.push(name@)),
    {
        let mut segments = self.segments;
        segments.push(String::from_str(name));
        let r = AppPath { base: self.base, segments };
        assert(names(r.segments@) =~= self@.1.push(name@));
        r
    }
}

/// The launcher's data directory, `QALab` in the local data directory; an
/// error when the system has no local data directory.
pub fn root(local_data_found: bool) -> (r: Result<AppPath, String>)
    ensures
        match r {
            Ok(p) => local_data_found && p@ == (PathBase::LocalData, seq!["QALab"@]),
            Err(e) => !local_data_found && e@ == "Impossibile trovare LOCALAPPDATA"@,
        },
{
    if local_data_found {
        let p = AppPath { base: PathBase::LocalData, segments: Vec::new() };
        assert(p@.1 =~= Seq::<Seq<char>>::empty());
        let p = p.join("QALab");
        assert(p@.1 =~= seq!["QALab"@]);
        Ok(p)
    } else {
        Err(String::from_str("Impossibile trovare LOCALAPPDATA"))
    }
}

/// The registry of installed tools: `registry.json` in the data directory.
pub fn registry_path(local_data_found: bool) -> (r: Result<AppPath, String>)
    ensures
        match r {
            Ok(p) => local_data_found && p@ == (PathBase::LocalData, seq!["QALab"@, "registry.json"@]),
            Err(e) => !local_data_found && e@ == "Impossibile trovare LOCALAPPDATA"@,
        },
{
    match root(local_data_found) {
        Ok(p) => {
            let r = p.join("registry.json");
            assert(r@.1 =~= seq!["QALab"@, "registry.json"@]);
            Ok(r)
        },
        Err(e) => Err(e),
    }
}

/// Where the log file goes: `logs` in the data directory, or `./logs` when
/// there is no data directory.
pub fn log_dir(local_data_found: bool) -> (r: AppPath)
    ensures
        local_data_found ==> r@ == (PathBase::LocalData, seq!["QALab"@, "logs"@]),
        !local_data_found ==> r@ == (PathBase::WorkingDir, seq!["logs"@]),
{
    match root(local_data_found) {
        Ok(p) => {
            let r = p.join("logs");
            assert(r@.1 =~= seq!["QALab"@, "logs"@]);
            r
        },
        Err(_) => {
            let p = AppPath { base: PathBase::WorkingDir, segments: Vec::new() };
            assert(p@.1 =~= Seq::<Seq<char>>::empty());
            let r = p.join("logs");
            assert(r@.1 =~= seq!["logs"@]);
            r
        },
    }
}

/// A character that a path name may hold: an ASCII letter or digit, `-`, `_` or `.`.
pub open spec fn segment_char_ok(c: char) -> bool {
    ||| 'a' <= c <= 'z'
    ||| 'A' <= c <= 'Z'
    ||| '0' <= c <= '9'
    ||| c == '-'
    ||| c == '_'
    ||| c == '.'
}

/// A name that is safe as one path segment: not empty, made of allowed
/// characters only, and neither `.` nor `..`.
pub open spec fn is_safe_segment(s: Seq<char>) -> bool {
    &&& s.len() > 0
    &&& forall|i: int| 0 <= i < s.len() ==> segment_char_ok(#[trigger] s[i])
    &&& s != seq!['.']
    &&& s != seq!['.', '.']
}

/// Decides `is_safe_segment`.
pub fn safe_segment(s: &str) -> (r: bool)
    ensures
        r == is_safe_segment(s@),
        r == (s@.len() > 0 && (forall|i: int|
            0 <= i < s@.len() ==> {
                let c = #[trigger] s@[i];
                ||| 'a' <= c <= 'z'
                ||| 'A' <= c <= 'Z'
                ||| '0' <= c <= '9'
                ||| c == '-'
                ||| c == '_'
                ||| c == '.'
            }) && s@ != seq!['.'] && s@ != seq!['.', '.']),
{
    let cs = chars_of(s);
    let n = cs.len();
    if n == 0 {
        return false;
    }
    let mut i: usize = 0;
    while i < n
        invariant
            n == cs@.len(),
            cs@ == s@,
            i <= n,
            forall|j: int| 0 <= j < i ==> segment_char_ok(#[trigger] cs@[j]),
        decreases n - i,
    {
        let c = cs[i];
        let ok = ('a' <= c && c <= 'z') || ('A' <= c && c <= 'Z') || ('0' <= c && c <= '9') || c
            == '-' || c == '_' || c == '.';
        if !ok {
            return false;
        }
        i = i + 1;
    }
    if n == 1 && cs[0] == '.' {
        assert(s@ =~= seq!['.']);
        return false;
    }
    if n == 2 && cs[0] == '.' && cs[1] == '.' {
        assert(s@ =~= seq!['.', '.']);
        return false;
    }
    assert(s@ != seq!['.']) by {
        if s@ == seq!['.'] {
            assert(s@[0] == '.');
        }
    }
    assert(s@ != seq!['.', '.']) by {
        if s@ == seq!['.', '.'] {
            assert(s@[0] == '.' && s@[1] == '.');
        }
    }
    true
}


/// A safe segment names one entry of the directory it is joined to: it holds
/// no path separator or drive colon, and is neither `.` nor `..`.
pub proof fn law_safe_segment_stays_put(s: Seq<char>)
    requires
        is_safe_segment(s),
    ensures
        forall|i: int| 0 <= i < s.len() ==> #[trigger] s[i] != '/' && s[i] != '\\' && s[i] != ':',
        s != seq!['.'],
        s != seq!['.', '.'],
{
}

/// A name is safe exactly when it is not empty, holds only ASCII letters,
/// digits, `-`, `_` and `.`, and is neither `.` nor `..`.
pub proof fn law_safe_segment_exact(s: Seq<char>)
    ensures
        is_safe_segment(s) <==> (s.len() > 0 && (forall|i: int|
            0 <= i < s.len() ==> {
                let c = #[trigger] s[i];
                ||| 'a' <= c <= 'z'
                ||| 'A' <= c <= 'Z'
                ||| '0' <= c <= '9'
                ||| c == '-'
                ||| c == '_'
                ||| c == '.'
            }) && s != seq!['.'] && s != seq!['.', '.']),
{
}

} // verus!
