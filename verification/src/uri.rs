//! URI normalization for user-entered instance addresses, and the rewriting
//! pass that turns instance-relative or protocol-relative media URLs into
//! absolute ones.

use vstd::prelude::*;
use vstd::string::*;

use crate::strutil::{concat_str, spec_starts_with, str_starts_with};

verus! {

/// The whitespace stripped from the ends of user input: the Unicode
/// `White_Space` characters, the set `str::trim` removes.
pub open spec fn is_space(c: char) -> bool {
    c == '\u{0009}' || c == '\u{000A}' || c == '\u{000B}' || c == '\u{000C}' || c == '\u{000D}'
        || c == '\u{0020}' || c == '\u{0085}' || c == '\u{00A0}' || c == '\u{1680}' || ('\u{2000}'
        <= c && c <= '\u{200A}') || c == '\u{2028}' || c == '\u{2029}' || c == '\u{202F}' || c
        == '\u{205F}' || c == '\u{3000}'
}

/// Whether `c` is one of the Unicode `White_Space` characters.
pub fn is_space_char(c: char) -> (r: bool)
    ensures
        r == is_space(c),
{
    c == '\u{0009}' || c == '\u{000A}' || c == '\u{000B}' || c == '\u{000C}' || c == '\u{000D}'
        || c == '\u{0020}' || c == '\u{0085}' || c == '\u{00A0}' || c == '\u{1680}' || ('\u{2000}'
        <= c && c <= '\u{200A}') || c == '\u{2028}' || c == '\u{2029}' || c == '\u{202F}' || c
        == '\u{205F}' || c == '\u{3000}'
}

/// A character allowed in a URL scheme name.
pub open spec fn is_scheme_char(c: char) -> bool {
    ('a' <= c && c <= 'z') || ('0' <= c && c <= '9')
}

/// `s` without its leading whitespace.
pub open spec fn spec_trim_start(s: Seq<char>) -> Seq<char>
    decreases s.len(),
{
    if s.len() > 0 && is_space(s[0]) {
        spec_trim_start(s.drop_first())
    } else {
        s
    }
}

/// `s` without the trailing characters satisfying `pred`.
pub open spec fn spec_trim_end_by(s: Seq<char>, pred: spec_fn(char) -> bool) -> Seq<char>
    decreases s.len(),
{
    if s.len() > 0 && pred(s.last()) {
        spec_trim_end_by(s.drop_last(), pred)
    } else {
        s
    }
}

/// The input with surrounding whitespace and then trailing slashes removed.
pub open spec fn spec_cleaned_input(s: Seq<char>) -> Seq<char> {
    spec_trim_end_by(
        spec_trim_end_by(spec_trim_start(s), |c: char| is_space(c)),
        |c: char| c == '/',
    )
}

/// The number of leading scheme characters of `s`.
pub open spec fn spec_scheme_run(s: Seq<char>) -> int
    decreases s.len(),
{
    if s.len() > 0 && is_scheme_char(s[0]) {
        1 + spec_scheme_run(s.drop_first())
    } else {
        0
    }
}

/// `s` begins with a `scheme://` prefix: a nonempty run of scheme characters
/// followed directly by `://`.
pub open spec fn spec_has_scheme(s: Seq<char>) -> bool {
    let m = spec_scheme_run(s);
    1 <= m && m + 3 <= s.len() && s[m] == ':' && s[m + 1] == '/' && s[m + 2] == '/'
}

/// What `format_input_uri` returns: the cleaned input, with `https://`
/// prepended when no scheme is present.
pub open spec fn spec_format_input_uri(s: Seq<char>) -> Seq<char> {
    let t = spec_cleaned_input(s);
    if spec_has_scheme(t) {
        t
    } else {
        "https://"@ + t
    }
}

proof fn lemma_trim_start_range(s: Seq<char>, a: int)
    requires
        0 <= a <= s.len(),
        forall|i: int| 0 <= i < a ==> is_space(s[i]),
        a == s.len() || !is_space(s[a]),
    ensures
        spec_trim_start(s) =~= s.subrange(a, s.len() as int),
    decreases a,
{
    if a == 0 {
    } else {
        lemma_trim_start_range(s.drop_first(), a - 1);
        assert(s.drop_first().subrange(a - 1, s.drop_first().len() as int) =~= s.subrange(
            a,
            s.len() as int,
        ));
    }
}

proof fn lemma_trim_end_by_range(s: Seq<char>, pred: spec_fn(char) -> bool, b: int)
    requires
        0 <= b <= s.len(),
        forall|i: int| b <= i < s.len() ==> pred(s[i]),
        b == 0 || !pred(s[b - 1]),
    ensures
        spec_trim_end_by(s, pred) =~= s.subrange(0, b),
    decreases s.len() - b,
{
    if b == s.len() {
        if s.len() > 0 && pred(s.last()) {
            assert(false);
        }
    } else {
        lemma_trim_end_by_range(s.drop_last(), pred, b);
        assert(s.drop_last().subrange(0, b) =~= s.subrange(0, b));
    }
}

proof fn lemma_scheme_run(s: Seq<char>, m: int)
    requires
        0 <= m <= s.len(),
        forall|i: int| 0 <= i < m ==> is_scheme_char(s[i]),
        m == s.len() || !is_scheme_char(s[m]),
    ensures
        spec_scheme_run(s) == m,
    decreases m,
{
    if m == 0 {
    } else {
        lemma_scheme_run(s.drop_first(), m - 1);
    }
}

/// Whether `s` begins with a `scheme://` prefix.
pub fn str_has_scheme(s: &str) -> (r: bool)
    ensures
        r == spec_has_scheme(s@),
{
    let len = s.unicode_len();
    let mut m: usize = 0;
    loop
        invariant
            m <= len,
            len == s@.len(),
            forall|i: int| 0 <= i < m ==> is_scheme_char(s@[i]),
        ensures
            m <= len,
            forall|i: int| 0 <= i < m ==> is_scheme_char(s@[i]),
            m == len || !is_scheme_char(s@[m as int]),
        decreases len - m,
    {
        if m >= len {
            break;
        }
        let c = s.get_char(m);
        if !(('a' <= c && c <= 'z') || ('0' <= c && c <= '9')) {
            break;
        }
        m += 1;
    }
    proof {
        lemma_scheme_run(s@, m as int);
    }
    if m >= 1 && m < len && len - m >= 3 {
        let r = s.get_char(m) == ':' && s.get_char(m + 1) == '/' && s.get_char(m + 2) == '/';
        r
    } else {
        false
    }
}

/// Normalizes user-entered text into an instance base URL: trims surrounding
/// whitespace and trailing slashes, then prepends `https://` when the text
/// carries no scheme prefix.
pub fn format_input_uri(uri: &str) -> (r: String)
    ensures
        r@ == spec_format_input_uri(uri@),
{
    let len = uri.unicode_len();
    let mut a: usize = 0;
    loop
        invariant
            a <= len,
            len == uri@.len(),
            forall|i: int| 0 <= i < a ==> is_space(uri@[i]),
        ensures
            a <= len,
            forall|i: int| 0 <= i < a ==> is_space(uri@[i]),
            a == len || !is_space(uri@[a as int]),
        decreases len - a,
    {
        if a >= len {
            break;
        }
        if !is_space_char(uri.get_char(a)) {
            break;
        }
        a += 1;
    }
    let mut b: usize = len;
    loop
        invariant
            a <= b <= len,
            len == uri@.len(),
            forall|i: int| b <= i < len ==> is_space(uri@[i]),
        ensures
            a <= b <= len,
            forall|i: int| b <= i < len ==> is_space(uri@[i]),
            b == a || !is_space(uri@[b - 1]),
        decreases b,
    {
        if b <= a {
            break;
        }
        if !is_space_char(uri.get_char(b - 1)) {
            break;
        }
        b -= 1;
    }
    let ghost b1 = b as int;
    let mut b2: usize = b;
    loop
        invariant
            a <= b2 <= b1 <= len,
            len == uri@.len(),
            forall|i: int| b2 <= i < b1 ==> uri@[i] == '/',
        ensures
            a <= b2 <= b1 <= len,
            forall|i: int| b2 <= i < b1 ==> uri@[i] == '/',
            b2 == a || uri@[b2 - 1] != '/',
        decreases b2,
    {
        if b2 <= a {
            break;
        }
        let c = uri.get_char(b2 - 1);
        if c != '/' {
            break;
        }
        b2 -= 1;
    }
    proof {
        let s = uri@;
        lemma_trim_start_range(s, a as int);
        let t1 = s.subrange(a as int, len as int);
        lemma_trim_end_by_range(t1, |c: char| is_space(c), b1 - a);
        let t2 = t1.subrange(0, b1 - a);
        assert(t2 =~= s.subrange(a as int, b1));
        lemma_trim_end_by_range(t2, |c: char| c == '/', b2 as int - a);
        assert(t2.subrange(0, b2 as int - a) =~= s.subrange(a as int, b2 as int));
        assert(spec_cleaned_input(s) =~= s.subrange(a as int, b2 as int));
    }
    let cleaned = uri.substring_char(a, b2);
    if str_has_scheme(cleaned) {
        cleaned.to_owned()
    } else {
        concat_str("https://", cleaned)
    }
}

/// What the URL-rewriting pass does to one URL `u` against instance base `base`:
/// an instance-relative media path gains the base, a protocol-relative path
/// gains `https:`, anything else is left alone.
pub open spec fn spec_correct_uri(base: Seq<char>, u: Seq<char>) -> Seq<char> {
    if spec_starts_with(u, "/vi/"@) {
        base + u
    } else if spec_starts_with(u, "//"@) {
        "https:"@ + u
    } else {
        u
    }
}

/// Rewrites one embedded URL against the instance base URL.
pub fn correct_uri(instance_uri: &str, uri: &str) -> (r: String)
    ensures
        r@ == spec_correct_uri(instance_uri@, uri@),
{
    if str_starts_with(uri, "/vi/") {
        concat_str(instance_uri, uri)
    } else if str_starts_with(uri, "//") {
        concat_str("https:", uri)
    } else {
        uri.to_owned()
    }
}

/// Law: rewriting leaves an already-absolute URL (one that is neither
/// instance-relative nor protocol-relative) unchanged.
pub proof fn lemma_correct_uri_absolute(base: Seq<char>, u: Seq<char>)
    requires
        !spec_starts_with(u, "/vi/"@),
        !spec_starts_with(u, "//"@),
    ensures
        spec_correct_uri(base, u) == u,
{
}

/// Law: against a base URL that does not itself begin with a slash, the
/// rewriting pass is idempotent; rewriting its own output changes nothing.
pub proof fn lemma_correct_uri_idempotent(base: Seq<char>, u: Seq<char>)
    requires
        base.len() > 0,
        base[0] != '/',
    ensures
        spec_correct_uri(base, spec_correct_uri(base, u)) == spec_correct_uri(base, u),
{
    reveal_strlit("/vi/");
    reveal_strlit("//");
    reveal_strlit("https:");
    let r = spec_correct_uri(base, u);
    if spec_starts_with(u, "/vi/"@) {
        assert(r[0] == base[0]);
    } else if spec_starts_with(u, "//"@) {
        assert(r[0] == 'h');
    }
}

} // verus!
