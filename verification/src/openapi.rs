//! Helpers for working with HTTP operation descriptions: recognizing the
//! HTTP methods and deriving an operation identifier from a method and a
//! URL path.
//!
//! The identifier is the lowered method and the path joined by an
//! underscore, with brace characters removed, slashes and dashes turned
//! into underscores, leading underscores trimmed and doubled underscores
//! collapsed left to right. Lowering affects ASCII letters.

use vstd::prelude::*;

verus! {

use crate::text::{chars_eq_str, chars_to_string, str_to_chars};

/// An ASCII upper-case letter lowered; any other character unchanged.
pub open spec fn ascii_lower_char(c: char) -> char {
    if 65 <= c as u32 && c as u32 <= 90 {
        ((c as u32 + 32) as u32) as char
    } else {
        c
    }
}

/// Every character lowered.
pub open spec fn lower_all(s: Seq<char>) -> Seq<char>
    decreases s.len(),
{
    if s.len() == 0 {
        seq![]
    } else {
        lower_all(s.drop_last()).push(ascii_lower_char(s.last()))
    }
}

/// Braces removed, path separators and dashes turned into underscores.
pub open spec fn clean_path(s: Seq<char>) -> Seq<char>
    decreases s.len(),
{
    if s.len() == 0 {
        seq![]
    } else {
        let rest = clean_path(s.drop_last());
        let c = s.last();
        if c == '{' || c == '}' {
            rest
        } else if c == '/' || c == '-' {
            rest.push('_')
        } else {
            rest.push(c)
        }
    }
}

/// Leading underscores removed.
pub open spec fn trim_leading_underscores(s: Seq<char>) -> Seq<char>
    decreases s.len(),
{
    if s.len() > 0 && s[0] == '_' {
        trim_leading_underscores(s.drop_first())
    } else {
        s
    }
}

/// Doubled underscores collapsed into one, scanning left to right over
/// non-overlapping pairs.
pub open spec fn collapse_double_underscores(s: Seq<char>) -> Seq<char>
    decreases s.len(),
{
    if s.len() >= 2 && s[0] == '_' && s[1] == '_' {
        seq!['_'] + collapse_double_underscores(s.skip(2))
    } else if s.len() == 0 {
        s
    } else {
        seq![s[0]] + collapse_double_underscores(s.drop_first())
    }
}

/// The operation identifier derived from an HTTP method and a URL path.
pub open spec fn spec_generate_id(method: Seq<char>, path: Seq<char>) -> Seq<char> {
    collapse_double_underscores(
        trim_leading_underscores(lower_all(method) + seq!['_'] + clean_path(path)),
    )
}

/// Trimming removes exactly the leading run of underscores.
proof fn lemma_trim_skip(s: Seq<char>, k: int)
    requires
        0 <= k <= s.len(),
        forall|j: int| 0 <= j < k ==> s[j] == '_',
        k < s.len() ==> s[k] != '_',
    ensures
        trim_leading_underscores(s) == s.skip(k),
    decreases k,
{
    if k == 0 {
        assert(s.skip(0) =~= s);
    } else {
        assert(s[0] == '_');
        assert(forall|j: int|
            0 <= j < k - 1 ==> #[trigger] s.drop_first()[j] == s[j + 1] && s.drop_first()[j]
                == '_');
        lemma_trim_skip(s.drop_first(), k - 1);
        assert(s.drop_first().skip(k - 1) =~= s.skip(k));
    }
}

fn lower_char(c: char) -> (r: char)
    ensures
        r == ascii_lower_char(c),
{
    let d = c as u32;
    if 65 <= d && d <= 90 {
        ((d + 32) as u8) as char
    } else {
        c
    }
}

/// Lowers every character of a text.
fn lower_chars(s: &str) -> (v: Vec<char>)
    ensures
        v@ == lower_all(s@),
{
    let chars = str_to_chars(s);
    let mut v: Vec<char> = Vec::new();
    let mut i: usize = 0;
    proof {
        assert(s@.subrange(0, 0) =~= Seq::<char>::empty());
    }
    while i < chars.len()
        invariant
            chars@ == s@,
            i <= s@.len(),
            v@ == lower_all(s@.subrange(0, i as int)),
        decreases s@.len() - i,
    {
        v.push(lower_char(chars[i]));
        proof {
            assert(s@.subrange(0, i as int + 1).drop_last() =~= s@.subrange(0, i as int));
            assert(s@.subrange(0, i as int + 1).last() == s@[i as int]);
        }
        i += 1;
    }
    proof {
        assert(s@.subrange(0, s@.len() as int) =~= s@);
    }
    v
}

/// Whether the text names an HTTP method, in any letter case.
pub open spec fn spec_is_http_method(s: Seq<char>) -> bool {
    ||| lower_all(s) == "get"@
    ||| lower_all(s) == "post"@
    ||| lower_all(s) == "put"@
    ||| lower_all(s) == "delete"@
    ||| lower_all(s) == "patch"@
    ||| lower_all(s) == "options"@
    ||| lower_all(s) == "head"@
}

/// Recognizes the HTTP methods, in any letter case.
pub fn is_http_method(m: &str) -> (r: bool)
    ensures
        r == spec_is_http_method(m@),
{
    let low = lower_chars(m);
    chars_eq_str(&low, "get") || chars_eq_str(&low, "post") || chars_eq_str(&low, "put")
        || chars_eq_str(&low, "delete") || chars_eq_str(&low, "patch") || chars_eq_str(
        &low,
        "options",
    ) || chars_eq_str(&low, "head")
}

/// Derives an operation identifier for an endpoint that lacks one, from
/// its HTTP method and URL path.
pub fn generate_id(method: &str, path: &str) -> (r: String)
    ensures
        r@ == spec_generate_id(method@, path@),
{
    let p = str_to_chars(path);
    let mut w: Vec<char> = lower_chars(method);
    w.push('_');
    let ghost head = lower_all(method@) + seq!['_'];
    proof {
        assert(w@ =~= head);
        assert(p@.subrange(0, 0) =~= Seq::<char>::empty());
        assert(w@ =~= head + clean_path(p@.subrange(0, 0)));
    }
    let mut j: usize = 0;
    while j < p.len()
        invariant
            p@ == path@,
            j <= p@.len(),
            head == lower_all(method@) + seq!['_'],
            w@ == head + clean_path(p@.subrange(0, j as int)),
        decreases p@.len() - j,
    {
        let c = p[j];
        proof {
            assert(p@.subrange(0, j as int + 1).drop_last() =~= p@.subrange(0, j as int));
            assert(p@.subrange(0, j as int + 1).last() == p@[j as int]);
        }
        if c == '{' || c == '}' {
            // dropped
        } else if c == '/' || c == '-' {
            w.push('_');
            proof {
                assert(w@ =~= head + clean_path(p@.subrange(0, j as int + 1)));
            }
        } else {
            w.push(c);
            proof {
                assert(w@ =~= head + clean_path(p@.subrange(0, j as int + 1)));
            }
        }
        j += 1;
    }
    proof {
        assert(p@.subrange(0, p@.len() as int) =~= p@);
        assert(w@ == lower_all(method@) + seq!['_'] + clean_path(path@)) by {
            assert(head + clean_path(path@) =~= lower_all(method@) + seq!['_'] + clean_path(
                path@,
            ));
        }
    }
    // trim the leading underscores
    let mut k: usize = 0;
    while k < w.len() && w[k] == '_'
        invariant
            k <= w@.len(),
            forall|j2: int| 0 <= j2 < k ==> w@[j2] == '_',
        decreases w@.len() - k,
    {
        k += 1;
    }
    proof {
        lemma_trim_skip(w@, k as int);
    }
    let ghost trimmed = w@.skip(k as int);
    // collapse doubled underscores left to right
    let mut out: Vec<char> = Vec::new();
    let mut i: usize = k;
    proof {
        assert(w@.skip(i as int) =~= trimmed.skip(0));
        assert(trimmed.skip(0) =~= trimmed);
        assert(out@ + collapse_double_underscores(trimmed) =~= collapse_double_underscores(
            trimmed,
        ));
    }
    while i < w.len()
        invariant
            k <= i <= w@.len(),
            trimmed == w@.skip(k as int),
            collapse_double_underscores(trimmed) == out@ + collapse_double_underscores(
                w@.skip(i as int),
            ),
        decreases w@.len() - i,
    {
        let ghost suffix = w@.skip(i as int);
        proof {
            assert(suffix[0] == w@[i as int]);
            if i + 1 < w@.len() {
                assert(suffix[1] == w@[i as int + 1]);
            }
        }
        if i + 1 < w.len() && w[i] == '_' && w[i + 1] == '_' {
            out.push('_');
            proof {
                assert(suffix.skip(2) =~= w@.skip(i as int + 2));
                assert(collapse_double_underscores(suffix) == seq!['_']
                    + collapse_double_underscores(w@.skip(i as int + 2)));
                assert(out@ + collapse_double_underscores(w@.skip(i as int + 2))
                    =~= out@.subrange(0, out@.len() - 1) + (seq!['_']
                    + collapse_double_underscores(w@.skip(i as int + 2))));
            }
            i += 2;
        } else {
            out.push(w[i]);
            proof {
                assert(suffix.drop_first() =~= w@.skip(i as int + 1));
                assert(collapse_double_underscores(suffix) == seq![suffix[0]]
                    + collapse_double_underscores(w@.skip(i as int + 1)));
                assert(out@ + collapse_double_underscores(w@.skip(i as int + 1))
                    =~= out@.subrange(0, out@.len() - 1) + (seq![suffix[0]]
                    + collapse_double_underscores(w@.skip(i as int + 1))));
            }
            i += 1;
        }
    }
    proof {
        assert(w@.skip(i as int) =~= Seq::<char>::empty());
        assert(out@ + collapse_double_underscores(Seq::<char>::empty()) =~= out@);
    }
    chars_to_string(&out)
}

} // verus!
