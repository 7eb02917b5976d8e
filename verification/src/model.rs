//! The mathematical model of the naming rules: one spec predicate per rule,
//! and the ordered message sequences that a verdict must carry.

use vstd::prelude::*;
use crate::outside::{is_builtin_name, is_space_char, lower_of};

verus! {

/// Characters that standard URI-component encoding leaves unchanged: ASCII
/// letters and digits together with `-`, `_`, `.`, `!`, `~`, `*`, `'`, `(`, `)`.
pub open spec fn is_uri_unreserved(c: char) -> bool {
    ||| 0x61 <= (c as u32) && (c as u32) <= 0x7a
    ||| 0x41 <= (c as u32) && (c as u32) <= 0x5a
    ||| 0x30 <= (c as u32) && (c as u32) <= 0x39
    ||| c == '-'
    ||| c == '_'
    ||| c == '.'
    ||| c == '!'
    ||| c == '~'
    ||| c == '*'
    ||| c == '\''
    ||| c == '('
    ||| c == ')'
}

/// A string is URL-friendly when component encoding leaves every character alone.
pub open spec fn url_safe(s: Seq<char>) -> bool {
    forall|i: int| 0 <= i < s.len() ==> is_uri_unreserved(#[trigger] s[i])
}

/// No `/` occurs at the positions `lo..hi` of `s`.
pub open spec fn slash_free(s: Seq<char>, lo: int, hi: int) -> bool {
    forall|i: int| lo <= i < hi ==> #[trigger] s[i] != '/'
}

/// The string has the shape `@scope/package`: `@` first, its single `/` at
/// position `k`, and a non-empty scope and package on either side.
pub open spec fn scoped_form_at(s: Seq<char>, k: int) -> bool {
    &&& 2 <= k < s.len() - 1
    &&& s[0] == '@'
    &&& s[k] == '/'
    &&& slash_free(s, 1, k)
    &&& slash_free(s, k + 1, s.len() as int)
}

pub open spec fn is_scoped(s: Seq<char>) -> bool {
    exists|k: int| scoped_form_at(s, k)
}

/// The scope-parsing pattern: either one non-empty segment without `/`, or
/// `@scope/package`.
pub open spec fn scope_matches(s: Seq<char>) -> bool {
    ||| s.len() > 0 && slash_free(s, 0, s.len() as int)
    ||| is_scoped(s)
}

/// The position of the `/` of a name in `@scope/package` shape.
pub open spec fn slash_pos(s: Seq<char>) -> int {
    choose|k: int| scoped_form_at(s, k)
}

/// The scope part of the pattern match; empty for an unscoped name.
pub open spec fn scope_part(s: Seq<char>) -> Seq<char> {
    if is_scoped(s) {
        s.subrange(1, slash_pos(s))
    } else {
        Seq::empty()
    }
}

/// The package part of the pattern match; the whole name for an unscoped name.
pub open spec fn package_part(s: Seq<char>) -> Seq<char> {
    if is_scoped(s) {
        s.subrange(slash_pos(s) + 1, s.len() as int)
    } else {
        s
    }
}

/// The accepting outcome of scope parsing: the pattern matches and both parts
/// encode to themselves.
pub open spec fn scoped_parts_ok(s: Seq<char>) -> bool {
    scope_matches(s) && url_safe(scope_part(s)) && url_safe(package_part(s))
}

/// The position where the last `/`-separated segment of `s` starts.
pub open spec fn seg_start(s: Seq<char>) -> int
    decreases s.len(),
{
    if s.len() == 0 {
        0
    } else if s[s.len() - 1] == '/' {
        s.len() as int
    } else {
        seg_start(s.drop_last())
    }
}

/// At most one position of a string can carry its `@scope/package` slash.
pub proof fn lemma_scoped_form_unique(s: Seq<char>, k1: int, k2: int)
    requires
        scoped_form_at(s, k1),
        scoped_form_at(s, k2),
    ensures
        k1 == k2,
{
    if k1 < k2 {
        assert(s[k1] != '/');
    }
    if k2 < k1 {
        assert(s[k2] != '/');
    }
}

/// The characters whose use in a package segment is discouraged.
pub open spec fn is_special_char(c: char) -> bool {
    c == '~' || c == '\'' || c == '!' || c == '(' || c == ')' || c == '*'
}

/// Some character at a position in `lo..s.len()` is a special character.
pub open spec fn has_special_from(s: Seq<char>, lo: int) -> bool {
    exists|i: int| lo <= i < s.len() && is_special_char(#[trigger] s[i])
}

pub open spec fn err_empty(s: Seq<char>) -> bool {
    s.len() == 0
}

pub open spec fn err_period(s: Seq<char>) -> bool {
    s.len() > 0 && s[0] == '.'
}

pub open spec fn err_underscore(s: Seq<char>) -> bool {
    s.len() > 0 && s[0] == '_'
}

/// Trimming white space off the ends would change the string.
pub open spec fn err_spaces(s: Seq<char>) -> bool {
    s.len() > 0 && (is_space_char(s[0]) || is_space_char(s[s.len() - 1]))
}

pub open spec fn err_node_modules(s: Seq<char>) -> bool {
    lower_of(s) == "node_modules"@
}

pub open spec fn err_favicon(s: Seq<char>) -> bool {
    lower_of(s) == "favicon.ico"@
}

/// The name is not URL-friendly as a whole and scope parsing does not accept it.
pub open spec fn err_url(s: Seq<char>) -> bool {
    !url_safe(s) && !scoped_parts_ok(s)
}

pub open spec fn warn_core_module(s: Seq<char>) -> bool {
    is_builtin_name(lower_of(s))
}

pub open spec fn warn_too_long(s: Seq<char>) -> bool {
    s.len() > 214
}

pub open spec fn warn_capitals(s: Seq<char>) -> bool {
    lower_of(s) != s
}

/// A special character occurs in the last `/`-separated segment.
pub open spec fn warn_special(s: Seq<char>) -> bool {
    has_special_from(s, seg_start(s))
}

/// One message when the rule fires, none otherwise.
pub open spec fn msg_if(cond: bool, m: Seq<char>) -> Seq<Seq<char>> {
    if cond {
        seq![m]
    } else {
        Seq::empty()
    }
}

/// The error messages of a name, in rule order.
pub open spec fn spec_errors(s: Seq<char>) -> Seq<Seq<char>> {
    msg_if(err_empty(s), "name length must be greater than zero"@)
        + msg_if(err_period(s), "name cannot start with a period"@)
        + msg_if(err_underscore(s), "name cannot start with an underscore"@)
        + msg_if(err_spaces(s), "name cannot contain leading or trailing spaces"@)
        + msg_if(err_node_modules(s), "node_modules is a blacklisted name"@)
        + msg_if(err_favicon(s), "favicon.ico is a blacklisted name"@)
        + msg_if(err_url(s), "name can only contain URL-friendly characters"@)
}

/// The warning messages of a name, in rule order.
pub open spec fn spec_warnings(s: Seq<char>) -> Seq<Seq<char>> {
    msg_if(warn_core_module(s), s + " is a core module name"@)
        + msg_if(warn_too_long(s), "name can no longer contain more than 214 characters"@)
        + msg_if(warn_capitals(s), "name can no longer contain capital letters"@)
        + msg_if(warn_special(s), "name can no longer contain special characters (\"~'!()*\")"@)
}

} // verus!
