//! Verified character scans over the candidate name: the unreserved-character
//! test, the special-character search in the last segment, and the
//! `@scope/package` pattern match.

use vstd::prelude::*;
use vstd::string::StrSliceExecFns;
use crate::model::{
    has_special_from, is_scoped, is_special_char, is_uri_unreserved, lemma_scoped_form_unique,
    package_part, scope_part, scoped_form_at, scoped_parts_ok, seg_start, slash_free, slash_pos,
    url_safe,
};

verus! {

/// Whether URI-component encoding leaves this character unchanged.
fn is_unreserved_char(c: char) -> (r: bool)
    ensures
        r == is_uri_unreserved(c),
{
    let n = c as u32;
    (0x61 <= n && n <= 0x7a) || (0x41 <= n && n <= 0x5a) || (0x30 <= n && n <= 0x39) || c == '-'
        || c == '_' || c == '.' || c == '!' || c == '~' || c == '*' || c == '\'' || c == '('
        || c == ')'
}

/// Whether every character at the positions `lo..hi` of `s` is unreserved.
fn range_unreserved(s: &str, lo: usize, hi: usize) -> (r: bool)
    requires
        lo <= hi <= s@.len(),
    ensures
        r == (forall|i: int| lo <= i < hi ==> is_uri_unreserved(#[trigger] s@[i])),
{
    let mut j: usize = lo;
    while j < hi
        invariant
            lo <= j <= hi <= s@.len(),
            forall|i: int| lo <= i < j ==> is_uri_unreserved(#[trigger] s@[i]),
        decreases hi - j,
    {
        let c = s.get_char(j);
        if !is_unreserved_char(c) {
            assert(!is_uri_unreserved(s@[j as int]));
            return false;
        }
        j = j + 1;
    }
    true
}

/// Whether the last `/`-separated segment of the name holds a special
/// character.
pub(crate) fn last_segment_has_special(s: &str) -> (r: bool)
    ensures
        r == has_special_from(s@, seg_start(s@)),
{
    let n = s.unicode_len();
    let mut start: usize = 0;
    let mut i: usize = 0;
    while i < n
        invariant
            0 <= i <= n,
            n == s@.len(),
            start <= i,
            start == seg_start(s@.subrange(0, i as int)),
        decreases n - i,
    {
        if s.get_char(i) == '/' {
            start = i + 1;
        }
        i = i + 1;
        proof {
            let p = s@.subrange(0, i as int);
            assert(p.drop_last() =~= s@.subrange(0, i - 1));
            assert(p[p.len() - 1] == s@[i - 1]);
        }
    }
    proof {
        assert(s@.subrange(0, n as int) =~= s@);
    }
    let mut r = false;
    let mut j: usize = start;
    while j < n
        invariant
            start <= j <= n,
            n == s@.len(),
            r == (exists|k: int| start <= k < j && is_special_char(#[trigger] s@[k])),
        decreases n - j,
    {
        let c = s.get_char(j);
        if c == '~' || c == '\'' || c == '!' || c == '(' || c == ')' || c == '*' {
            proof {
                assert(is_special_char(s@[j as int]));
            }
            r = true;
        }
        j = j + 1;
    }
    r
}

/// Whether the name matches the `@scope/package` pattern (or is a single
/// segment without `/`) and both parts encode to themselves.
pub(crate) fn scoped_parts_safe(s: &str) -> (r: bool)
    ensures
        r == scoped_parts_ok(s@),
{
    let n = s.unicode_len();
    let mut slash_count: usize = 0;
    let mut first_slash: usize = 0;
    let mut i: usize = 0;
    while i < n
        invariant
            0 <= i <= n,
            n == s@.len(),
            slash_count <= i,
            slash_count == 0 ==> slash_free(s@, 0, i as int),
            slash_count > 0 ==> first_slash < i && s@[first_slash as int] == '/' && slash_free(
                s@,
                0,
                first_slash as int,
            ),
            slash_count == 1 ==> slash_free(s@, first_slash + 1, i as int),
            slash_count >= 2 ==> (exists|j: int|
                first_slash < j < i && #[trigger] s@[j] == '/'),
        decreases n - i,
    {
        if s.get_char(i) == '/' {
            if slash_count == 0 {
                first_slash = i;
            }
            slash_count = slash_count + 1;
        }
        i = i + 1;
    }
    if slash_count == 0 {
        // A single segment: the scope is empty and the package is the whole
        // name.
        proof {
            assert forall|k: int| !scoped_form_at(s@, k) by {
                if scoped_form_at(s@, k) {
                    assert(s@[k] != '/');
                }
            }
            assert(!is_scoped(s@));
        }
        if n == 0 {
            return false;
        }
        range_unreserved(s, 0, n)
    } else if slash_count == 1 {
        let at_sign = s.get_char(0) == '@';
        if at_sign && first_slash >= 2 && first_slash + 1 < n {
            proof {
                assert(scoped_form_at(s@, first_slash as int));
                lemma_scoped_form_unique(s@, slash_pos(s@), first_slash as int);
                assert(scope_part(s@) =~= s@.subrange(1, first_slash as int));
                assert(package_part(s@) =~= s@.subrange(first_slash + 1, n as int));
            }
            let scope_ok = range_unreserved(s, 1, first_slash);
            let pkg_ok = range_unreserved(s, first_slash + 1, n);
            proof {
                let sc = scope_part(s@);
                let pk = package_part(s@);
                if scope_ok {
                    assert forall|i: int| 0 <= i < sc.len() implies is_uri_unreserved(
                        #[trigger] sc[i],
                    ) by {
                        assert(sc[i] == s@[i + 1]);
                    }
                }
                if url_safe(sc) {
                    assert forall|i: int| 1 <= i < first_slash implies is_uri_unreserved(
                        #[trigger] s@[i],
                    ) by {
                        assert(s@[i] == sc[i - 1]);
                        assert(is_uri_unreserved(sc[i - 1]));
                    }
                }
                assert(scope_ok == url_safe(sc));
                if pkg_ok {
                    assert forall|i: int| 0 <= i < pk.len() implies is_uri_unreserved(
                        #[trigger] pk[i],
                    ) by {
                        assert(pk[i] == s@[i + first_slash + 1]);
                    }
                }
                if url_safe(pk) {
                    assert forall|i: int|
                        first_slash + 1 <= i < n implies is_uri_unreserved(
                        #[trigger] s@[i],
                    ) by {
                        assert(s@[i] == pk[i - first_slash - 1]);
                        assert(is_uri_unreserved(pk[i - first_slash - 1]));
                    }
                }
                assert(pkg_ok == url_safe(pk));
            }
            scope_ok && pkg_ok
        } else {
            // The single slash cannot be the slash of a scoped shape, and with
            // a slash present the single-segment shape is out too.
            proof {
                assert(s@[first_slash as int] == '/');
                assert forall|k: int| !scoped_form_at(s@, k) by {
                    if scoped_form_at(s@, k) {
                        if k != first_slash {
                            assert(s@[k] != '/');
                        }
                        assert(s@[0] == '@' && 2 <= k < s@.len() - 1);
                    }
                }
                assert(!is_scoped(s@));
            }
            false
        }
    } else {
        // Two slashes rule out both shapes of the pattern.
        proof {
            let j = choose|j: int| first_slash < j < n && #[trigger] s@[j] == '/';
            assert(s@[first_slash as int] == '/' && s@[j] == '/');
            assert forall|k: int| !scoped_form_at(s@, k) by {
                if scoped_form_at(s@, k) {
                    if k != first_slash {
                        if first_slash == 0 {
                            assert(s@[0] == '@');
                        } else {
                            assert(s@[first_slash as int] != '/');
                        }
                    }
                    if k != j {
                        assert(s@[j] != '/');
                    }
                }
            }
            assert(!is_scoped(s@));
        }
        false
    }
}

} // verus!
