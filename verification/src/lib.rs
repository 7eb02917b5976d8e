//! Validation of proposed package names against the naming rules of a package
//! registry: a pure pass over the candidate string that classifies it as fit
//! for new publication, fit only under legacy tolerance, or invalid, and
//! reports every rule it breaks as an ordered message list.

use vstd::prelude::*;

pub mod model;
pub mod outside;
mod scan;

use vstd::string::{StrSliceExecFns, StringExecFns};

use crate::model::{
    err_empty, err_favicon, err_node_modules, err_period, err_spaces, err_underscore, msg_if,
    spec_errors, spec_warnings, warn_capitals, warn_core_module, warn_too_long,
};
use crate::outside::{encode_component, lookup_builtin};
use crate::scan::{last_segment_has_special, scoped_parts_safe};

verus! {

/// The verdict on a candidate name. Empty message lists are reported as
/// absent, not as empty vectors.
#[derive(Debug, PartialEq)]
pub struct ValidateResult {
    pub valid_for_new_packages: bool,
    pub valid_for_old_packages: bool,
    pub warnings: Option<Vec<String>>,
    pub errors: Option<Vec<String>>,
}

/// What a verdict for the name `s` must hold: the two flags are determined by
/// whether errors or warnings accrued, and the message lists are exactly the
/// model's, in rule order, absent when empty.
pub open spec fn validates(s: Seq<char>, r: ValidateResult) -> bool {
    &&& r.valid_for_old_packages == (spec_errors(s).len() == 0)
    &&& r.valid_for_new_packages == (spec_errors(s).len() == 0 && spec_warnings(s).len() == 0)
    &&& match r.errors {
        None => spec_errors(s).len() == 0,
        Some(v) => spec_errors(s).len() > 0 && v.deep_view() == spec_errors(s),
    }
    &&& match r.warnings {
        None => spec_warnings(s).len() == 0,
        Some(v) => spec_warnings(s).len() > 0 && v.deep_view() == spec_warnings(s),
    }
}

/// Validate a proposed package name.
///
/// Every naming rule is checked in a fixed order and appends at most one
/// message: hard failures to the errors, legacy-tolerated failures to the
/// warnings. The verdict reports the messages in that order and the two
/// validity flags they determine.
#[verifier::rlimit(100)]
pub fn validate(name: &String) -> (result: ValidateResult)
    ensures
        validates(name@, result),
{
    let ghost s = name@;
    let mut warnings: Vec<String> = Vec::new();
    let mut errors: Vec<String> = Vec::new();
    let n = name.as_str().unicode_len();

    if n == 0 {
        errors.push("name length must be greater than zero".to_owned());
    }
    proof {
        assert(errors.deep_view() =~= msg_if(
            err_empty(s),
            "name length must be greater than zero"@,
        ));
    }
    if n > 0 && name.as_str().get_char(0) == '.' {
        errors.push("name cannot start with a period".to_owned());
    }
    proof {
        assert(errors.deep_view() =~= msg_if(err_empty(s), "name length must be greater than zero"@)
            + msg_if(err_period(s), "name cannot start with a period"@));
    }
    if n > 0 && name.as_str().get_char(0) == '_' {
        errors.push("name cannot start with an underscore".to_owned());
    }
    proof {
        assert(errors.deep_view() =~= msg_if(err_empty(s), "name length must be greater than zero"@)
            + msg_if(err_period(s), "name cannot start with a period"@)
            + msg_if(err_underscore(s), "name cannot start with an underscore"@));
    }
    if n > 0 {
        let leading = name.as_str().get_char(0).is_whitespace();
        let trailing = name.as_str().get_char(n - 1).is_whitespace();
        if leading || trailing {
            errors.push("name cannot contain leading or trailing spaces".to_owned());
        }
    }
    proof {
        assert(errors.deep_view() =~= msg_if(err_empty(s), "name length must be greater than zero"@)
            + msg_if(err_period(s), "name cannot start with a period"@)
            + msg_if(err_underscore(s), "name cannot start with an underscore"@)
            + msg_if(err_spaces(s), "name cannot contain leading or trailing spaces"@));
    }
    let lower = name.as_str().to_lowercase();
    if lower == "node_modules".to_owned() {
        errors.push("node_modules is a blacklisted name".to_owned());
    }
    if lower == "favicon.ico".to_owned() {
        errors.push("favicon.ico is a blacklisted name".to_owned());
    }
    proof {
        assert(errors.deep_view() =~= msg_if(err_empty(s), "name length must be greater than zero"@)
            + msg_if(err_period(s), "name cannot start with a period"@)
            + msg_if(err_underscore(s), "name cannot start with an underscore"@)
            + msg_if(err_spaces(s), "name cannot contain leading or trailing spaces"@)
            + msg_if(err_node_modules(s), "node_modules is a blacklisted name"@)
            + msg_if(err_favicon(s), "favicon.ico is a blacklisted name"@));
    }
    if lookup_builtin(lower.as_str()) {
        let mut msg = name.clone();
        msg.append(" is a core module name");
        warnings.push(msg);
    }
    proof {
        assert(warnings.deep_view() =~= msg_if(
            warn_core_module(s),
            s + " is a core module name"@,
        ));
    }
    if n > 214 {
        warnings.push("name can no longer contain more than 214 characters".to_owned());
    }
    proof {
        assert(warnings.deep_view() =~= msg_if(warn_core_module(s), s + " is a core module name"@)
            + msg_if(warn_too_long(s), "name can no longer contain more than 214 characters"@));
    }
    if !(lower == *name) {
        warnings.push("name can no longer contain capital letters".to_owned());
    }
    proof {
        assert(warnings.deep_view() =~= msg_if(warn_core_module(s), s + " is a core module name"@)
            + msg_if(warn_too_long(s), "name can no longer contain more than 214 characters"@)
            + msg_if(warn_capitals(s), "name can no longer contain capital letters"@));
    }
    if last_segment_has_special(name.as_str()) {
        warnings.push("name can no longer contain special characters (\"~'!()*\")".to_owned());
    }
    proof {
        assert(warnings.deep_view() =~= spec_warnings(s));
    }
    let encoded = encode_component(name.as_str());
    if !(encoded == *name) {
        if !scoped_parts_safe(name.as_str()) {
            errors.push("name can only contain URL-friendly characters".to_owned());
        }
    }
    proof {
        assert(errors.deep_view() =~= spec_errors(s));
        assert(errors@.len() == errors.deep_view().len());
        assert(warnings@.len() == warnings.deep_view().len());
    }
    done(warnings, errors)
}

/// Build the verdict from the accrued messages: valid for old packages when no
/// error accrued, valid for new packages when nothing at all accrued, and each
/// list absent when empty.
pub fn done(warnings: Vec<String>, errors: Vec<String>) -> (r: ValidateResult)
    ensures
        r.valid_for_new_packages == (errors@.len() == 0 && warnings@.len() == 0),
        r.valid_for_old_packages == (errors@.len() == 0),
        r.warnings == (if warnings@.len() == 0 {
            Option::<Vec<String>>::None
        } else {
            Option::Some(warnings)
        }),
        r.errors == (if errors@.len() == 0 {
            Option::<Vec<String>>::None
        } else {
            Option::Some(errors)
        }),
{
    let valid_for_old_packages = errors.len() == 0;
    let valid_for_new_packages = valid_for_old_packages && warnings.len() == 0;
    ValidateResult {
        valid_for_new_packages,
        valid_for_old_packages,
        warnings: if warnings.len() == 0 {
            None
        } else {
            Some(warnings)
        },
        errors: if errors.len() == 0 {
            None
        } else {
            Some(errors)
        },
    }
}

/// Law: a verdict fit for new packages carries no warnings and no errors,
/// and is fit for old packages as well.
pub proof fn lemma_new_valid_is_clean(s: Seq<char>, r: ValidateResult)
    requires
        validates(s, r),
        r.valid_for_new_packages,
    ensures
        r.warnings is None,
        r.errors is None,
        r.valid_for_old_packages,
{
}

/// Law: a verdict unfit even for old packages carries at least one error.
pub proof fn lemma_old_invalid_has_errors(s: Seq<char>, r: ValidateResult)
    requires
        validates(s, r),
        !r.valid_for_old_packages,
    ensures
        r.errors is Some,
        r.errors->0@.len() > 0,
{
}

/// Law: validation is a pure function of the name. Two verdicts for the same
/// name agree on both flags, on the presence of each message list, and on the
/// messages themselves.
pub proof fn lemma_validate_deterministic(s: Seq<char>, r1: ValidateResult, r2: ValidateResult)
    requires
        validates(s, r1),
        validates(s, r2),
    ensures
        r1.valid_for_new_packages == r2.valid_for_new_packages,
        r1.valid_for_old_packages == r2.valid_for_old_packages,
        r1.warnings is Some <==> r2.warnings is Some,
        r1.errors is Some <==> r2.errors is Some,
        r1.warnings is Some ==> r1.warnings->0.deep_view() == r2.warnings->0.deep_view(),
        r1.errors is Some ==> r1.errors->0.deep_view() == r2.errors->0.deep_view(),
{
}

/// Law: each rule contributes at most one message, so no verdict holds more
/// than the seven possible errors and the four possible warnings.
pub proof fn lemma_message_caps(s: Seq<char>)
    ensures
        spec_errors(s).len() <= 7,
        spec_warnings(s).len() <= 4,
{
}

} // verus!
