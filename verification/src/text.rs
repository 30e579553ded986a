//! Character-level helpers on strings, stated over `Seq<char>`.

use vstd::prelude::*;

verus! {

/// The Unicode `White_Space` property, as `char::is_whitespace` tests it.
pub open spec fn is_unicode_whitespace(c: char) -> bool {
    let n = c as u32;
    ||| 0x09 <= n <= 0x0d
    ||| n == 0x20
    ||| n == 0x85
    ||| n == 0xa0
    ||| n == 0x1680
    ||| 0x2000 <= n <= 0x200a
    ||| n == 0x2028
    ||| n == 0x2029
    ||| n == 0x202f
    ||| n == 0x205f
    ||| n == 0x3000
}

/// A text is blank when it holds only white space (so `trim()` leaves nothing).
pub open spec fn is_blank_text(s: Seq<char>) -> bool {
    forall|i: int| 0 <= i < s.len() ==> is_unicode_whitespace(#[trigger] s[i])
}

/// `s` ends with `suffix`.
pub open spec fn ends_with(s: Seq<char>, suffix: Seq<char>) -> bool {
    suffix.len() <= s.len() && s.subrange(s.len() - suffix.len(), s.len() as int) == suffix
}

/// Decides `char::is_whitespace`.
pub fn is_whitespace_char(c: char) -> (r: bool)
    ensures
        r == is_unicode_whitespace(c),
{
    let n = c as u32;
    (0x09 <= n && n <= 0x0d) || n == 0x20 || n == 0x85 || n == 0xa0 || n == 0x1680 || (0x2000
        <= n && n <= 0x200a) || n == 0x2028 || n == 0x2029 || n == 0x202f || n == 0x205f || n
        == 0x3000
}

/// The characters of `s`, in order.
pub fn chars_of(s: &str) -> (v: Vec<char>)
    ensures
        v@ == s@,
{
    let mut v: Vec<char> = Vec::new();
    for c in it: s.chars()
        invariant
            it.seq() == s@,
            v@ == it.seq().take(it.index()),
    {
        v.push(c);
    }
    v
}

/// Whether `s` is blank, as `s.trim().is_empty()` decides.
pub fn is_blank(s: &str) -> (r: bool)
    ensures
        r == is_blank_text(s@),
{
    let cs = chars_of(s);
    let n = cs.len();
    let mut i: usize = 0;
    while i < n
        invariant
            n == cs@.len(),
            cs@ == s@,
            i <= n,
            forall|j: int| 0 <= j < i ==> is_unicode_whitespace(#[trigger] cs@[j]),
        decreases n - i,
    {
        if !is_whitespace_char(cs[i]) {
            return false;
        }
        i = i + 1;
    }
    true
}

/// Whether the characters `s` end with the characters `suffix`.
pub fn ends_with_chars(s: &Vec<char>, suffix: &Vec<char>) -> (r: bool)
    ensures
        r == ends_with(s@, suffix@),
{
    let n = s.len();
    let m = suffix.len();
    if m > n {
        return false;
    }
    let off = n - m;
    let mut i: usize = 0;
    while i < m
        invariant
            n == s@.len(),
            m == suffix@.len(),
            off == n - m,
            i <= m,
            forall|j: int| 0 <= j < i ==> s@[off + j] == suffix@[j],
        decreases m - i,
    {
        if s[off + i] != suffix[i] {
            assert(s@.subrange(off as int, n as int)[i as int] != suffix@[i as int]);
            return false;
        }
        i = i + 1;
    }
    assert(s@.subrange(off as int, n as int) =~= suffix@);
    true
}

/// Whether two texts hold the same characters.
pub fn same_text(a: &str, b: &str) -> (r: bool)
    ensures
        r == (a@ == b@),
{
    let x = String::from_str(a);
    let y = String::from_str(b);
    x == y
}

/// `s` without one leading `v`, as `strip_prefix('v')` would leave it.
pub open spec fn tag_without_v(s: Seq<char>) -> Seq<char> {
    if s.len() > 0 && s[0] == 'v' {
        s.drop_first()
    } else {
        s
    }
}

/// Lexicographic order of texts by code point, as `String`'s `Ord` orders them
/// (UTF-8 byte order and code point order agree).
pub open spec fn text_le(a: Seq<char>, b: Seq<char>) -> bool
    decreases a.len(),
{
    if a.len() == 0 {
        true
    } else if b.len() == 0 {
        false
    } else if a[0] != b[0] {
        a[0] < b[0]
    } else {
        text_le(a.drop_first(), b.drop_first())
    }
}

/// Every text comes before or at itself.
pub proof fn lemma_text_le_reflexive(a: Seq<char>)
    ensures
        text_le(a, a),
    decreases a.len(),
{
    if a.len() > 0 {
        lemma_text_le_reflexive(a.drop_first());
    }
}

/// Any two texts are ordered one way or the other.
pub proof fn lemma_text_le_total(a: Seq<char>, b: Seq<char>)
    ensures
        text_le(a, b) || text_le(b, a),
    decreases a.len(),
{
    if a.len() > 0 && b.len() > 0 {
        if a[0] == b[0] {
            lemma_text_le_total(a.drop_first(), b.drop_first());
        } else {
            assert(a[0] < b[0] || b[0] < a[0]);
        }
    }
}

/// The order is transitive.
pub proof fn lemma_text_le_transitive(a: Seq<char>, b: Seq<char>, c: Seq<char>)
    requires
        text_le(a, b),
        text_le(b, c),
    ensures
        text_le(a, c),
    decreases a.len(),
{
    if a.len() > 0 && b.len() > 0 && c.len() > 0 && a[0] == b[0] && b[0] == c[0] {
        lemma_text_le_transitive(a.drop_first(), b.drop_first(), c.drop_first());
    }
}

/// Decides `text_le`.
pub fn text_le_chars(a: &Vec<char>, b: &Vec<char>) -> (r: bool)
    ensures
        r == text_le(a@, b@),
{
    let n = a.len();
    let m = b.len();
    let mut i: usize = 0;
    assert(a@.skip(0) =~= a@);
    assert(b@.skip(0) =~= b@);
    while i < n && i < m
        invariant
            n == a@.len(),
            m == b@.len(),
            i <= n,
            i <= m,
            text_le(a@, b@) == text_le(a@.skip(i as int), b@.skip(i as int)),
        decreases n - i,
    {
        if a[i] != b[i] {
            return a[i] < b[i];
        }
        assert(a@.skip(i as int).drop_first() =~= a@.skip(i + 1));
        assert(b@.skip(i as int).drop_first() =~= b@.skip(i + 1));
        i = i + 1;
    }
    i == n
}

/// `text_le` is the lexicographic order by code point: `a` comes at or
/// before `b` exactly when `a` is a prefix of `b`, or at the first position
/// where they differ `a` holds the smaller character.
pub proof fn law_text_le_lexicographic(a: Seq<char>, b: Seq<char>)
    ensures
        text_le(a, b) <==> ((a.len() <= b.len() && b.subrange(0, a.len() as int) == a) || exists|k: int|
            0 <= k < a.len() && k < b.len() && a.subrange(0, k) == b.subrange(0, k) && #[trigger] a[k]
                < b[k]),
    decreases a.len(),
{
    if a.len() == 0 {
        assert(b.subrange(0, 0) =~= a);
    } else if b.len() == 0 {
        assert forall|k: int| 0 <= k < a.len() && k < b.len() implies !(a.subrange(0, k) == b.subrange(0, k)
            && #[trigger] a[k] < b[k]) by {}
    } else if a[0] != b[0] {
        if a[0] < b[0] {
            assert(a.subrange(0, 0) =~= b.subrange(0, 0));
            assert(a[0] < b[0]);
        } else {
            if a.len() <= b.len() {
                assert(a[0] != b.subrange(0, a.len() as int)[0]);
            }
            assert forall|k: int| 0 <= k < a.len() && k < b.len() && a.subrange(0, k) == b.subrange(0, k)
                implies !(#[trigger] a[k] < b[k]) by {
                if k > 0 {
                    assert(a.subrange(0, k)[0] == b.subrange(0, k)[0]);
                }
            }
        }
    } else {
        let a1 = a.drop_first();
        let b1 = b.drop_first();
        law_text_le_lexicographic(a1, b1);
        // prefix part
        if a.len() <= b.len() {
            assert(b.subrange(0, a.len() as int) == a <==> b1.subrange(0, a1.len() as int) == a1) by {
                if b.subrange(0, a.len() as int) == a {
                    assert(b1.subrange(0, a1.len() as int) =~= b.subrange(0, a.len() as int).drop_first());
                }
                if b1.subrange(0, a1.len() as int) == a1 {
                    assert forall|x: int| 0 <= x < a.len() implies #[trigger] b.subrange(0, a.len() as int)[x]
                        == a[x] by {
                        if x > 0 {
                            assert(b1.subrange(0, a1.len() as int)[x - 1] == a1[x - 1]);
                        }
                    }
                    assert(b.subrange(0, a.len() as int) =~= a);
                }
            }
        }
        // differing position
        if exists|k: int|
            0 <= k < a.len() && k < b.len() && a.subrange(0, k) == b.subrange(0, k) && #[trigger] a[k] < b[k] {
            let k = choose|k: int|
                0 <= k < a.len() && k < b.len() && a.subrange(0, k) == b.subrange(0, k) && #[trigger] a[k] < b[k];
            assert(k > 0);
            assert(a1.subrange(0, k - 1) =~= a.subrange(0, k).drop_first());
            assert(b1.subrange(0, k - 1) =~= b.subrange(0, k).drop_first());
            assert(a1[k - 1] == a[k]);
        }
        if exists|k: int|
            0 <= k < a1.len() && k < b1.len() && a1.subrange(0, k) == b1.subrange(0, k) && #[trigger] a1[k] < b1[k] {
            let k = choose|k: int|
                0 <= k < a1.len() && k < b1.len() && a1.subrange(0, k) == b1.subrange(0, k) && #[trigger] a1[k] < b1[k];
            assert(a.subrange(0, k + 1) =~= b.subrange(0, k + 1)) by {
                assert forall|x: int| 0 <= x < k + 1 implies #[trigger] a.subrange(0, k + 1)[x] == b.subrange(0, k + 1)[x] by {
                    if x > 0 {
                        assert(a1.subrange(0, k)[x - 1] == b1.subrange(0, k)[x - 1]);
                    }
                }
            }
            assert(a[k + 1] == a1[k]);
        }
    }
}

/// `ends_with(s, t)` holds exactly when the last characters of `s` are those of `t`.
pub proof fn law_ends_with_positions(s: Seq<char>, t: Seq<char>)
    ensures
        ends_with(s, t) <==> (t.len() <= s.len() && forall|i: int|
            0 <= i < t.len() ==> s[s.len() - t.len() + i] == #[trigger] t[i]),
{
    if t.len() <= s.len() {
        if forall|i: int| 0 <= i < t.len() ==> s[s.len() - t.len() + i] == #[trigger] t[i] {
            assert(s.subrange(s.len() - t.len(), s.len() as int) =~= t);
        }
        if ends_with(s, t) {
            assert forall|i: int| 0 <= i < t.len() implies s[s.len() - t.len() + i] == #[trigger] t[i] by {
                assert(s.subrange(s.len() - t.len(), s.len() as int)[i] == t[i]);
            }
        }
    }
}

} // verus!
