use validate_npm_package_name::{done, validate, ValidateResult};

#[test]
fn it_should_work() {
    assert_eq!(
        validate(&String::from("some-package")),
        ValidateResult {
            valid_for_new_packages: true,
            valid_for_old_packages: true,
            warnings: None,
            errors: None
        }
    );

    assert_eq!(
        validate(&String::from("example.com")),
        ValidateResult {
            valid_for_new_packages: true,
            valid_for_old_packages: true,
            warnings: None,
            errors: None
        }
    );

    assert_eq!(
        validate(&String::from("under_score")),
        ValidateResult {
            valid_for_new_packages: true,
            valid_for_old_packages: true,
            warnings: None,
            errors: None
        }
    );

    assert_eq!(
        validate(&String::from("period.js")),
        ValidateResult {
            valid_for_new_packages: true,
            valid_for_old_packages: true,
            warnings: None,
            errors: None
        }
    );

    assert_eq!(
        validate(&String::from("123numeric")),
        ValidateResult {
            valid_for_new_packages: true,
            valid_for_old_packages: true,
            warnings: None,
            errors: None
        }
    );

    assert_eq!(
        validate(&String::from("crazy!")),
        ValidateResult {
            valid_for_new_packages: false,
            valid_for_old_packages: true,
            warnings: Some(vec![String::from(
                "name can no longer contain special characters (\"~\'!()*\")"
            )]),
            errors: None
        }
    );
}

#[test]
fn it_should_work_with_scope() {
    assert_eq!(
        validate(&String::from("@npm/thingy")),
        ValidateResult {
            valid_for_new_packages: true,
            valid_for_old_packages: true,
            warnings: None,
            errors: None
        }
    );

    assert_eq!(
        validate(&String::from("@npm-zors/money!time.js")),
        ValidateResult {
            valid_for_new_packages: false,
            valid_for_old_packages: true,
            warnings: Some(vec![String::from(
                "name can no longer contain special characters (\"~\'!()*\")"
            )]),
            errors: None
        }
    );
}

#[test]
fn it_should_work_with_invalid_name() {
    assert_eq!(
        validate(&String::from("")),
        ValidateResult {
            valid_for_new_packages: false,
            valid_for_old_packages: false,
            warnings: None,
            errors: Some(vec![String::from("name length must be greater than zero")])
        }
    );

    assert_eq!(
        validate(&String::from(".start-with-period")),
        ValidateResult {
            valid_for_new_packages: false,
            valid_for_old_packages: false,
            warnings: None,
            errors: Some(vec![String::from("name cannot start with a period")])
        }
    );

    assert_eq!(
        validate(&String::from("_start-with-underscore")),
        ValidateResult {
            valid_for_new_packages: false,
            valid_for_old_packages: false,
            warnings: None,
            errors: Some(vec![String::from("name cannot start with an underscore")])
        }
    );

    assert_eq!(
        validate(&String::from("contain:colons")),
        ValidateResult {
            valid_for_new_packages: false,
            valid_for_old_packages: false,
            warnings: None,
            errors: Some(vec![String::from(
                "name can only contain URL-friendly characters"
            )])
        }
    );

    assert_eq!(
        validate(&String::from(" leading-space")),
        ValidateResult {
            valid_for_new_packages: false,
            valid_for_old_packages: false,
            warnings: None,
            errors: Some(vec![
                String::from("name cannot contain leading or trailing spaces"),
                String::from("name can only contain URL-friendly characters")
            ])
        }
    );

    assert_eq!(
        validate(&String::from("trailing-space ")),
        ValidateResult {
            valid_for_new_packages: false,
            valid_for_old_packages: false,
            warnings: None,
            errors: Some(vec![
                String::from("name cannot contain leading or trailing spaces"),
                String::from("name can only contain URL-friendly characters")
            ])
        }
    );

    assert_eq!(
        validate(&String::from("s/l/a/s/h/e/s")),
        ValidateResult {
            valid_for_new_packages: false,
            valid_for_old_packages: false,
            warnings: None,
            errors: Some(vec![String::from(
                "name can only contain URL-friendly characters"
            )])
        }
    );

    assert_eq!(
        validate(&String::from("node_modules")),
        ValidateResult {
            valid_for_new_packages: false,
            valid_for_old_packages: false,
            warnings: None,
            errors: Some(vec![String::from("node_modules is a blacklisted name")])
        }
    );

    assert_eq!(
        validate(&String::from("favicon.ico")),
        ValidateResult {
            valid_for_new_packages: false,
            valid_for_old_packages: false,
            warnings: None,
            errors: Some(vec![String::from("favicon.ico is a blacklisted name")])
        }
    );
}

#[test]
fn it_should_work_with_nodejs_module() {
    assert_eq!(
        validate(&String::from("http")),
        ValidateResult {
            valid_for_new_packages: false,
            valid_for_old_packages: true,
            warnings: Some(vec![String::from("http is a core module name")]),
            errors: None
        }
    );

    assert_eq!(
        validate(&String::from("process")),
        ValidateResult {
            valid_for_new_packages: false,
            valid_for_old_packages: true,
            warnings: Some(vec![String::from("process is a core module name")]),
            errors: None
        }
    );
}

#[test]
fn it_should_work_with_long_name() {
    assert_eq!(
        validate(&String::from("ifyouwanttogetthesumoftwonumberswherethosetwonumbersarechosenbyfindingthelargestoftwooutofthreenumbersandsquaringthemwhichismultiplyingthembyitselfthenyoushouldinputthreenumbersintothisfunctionanditwilldothatforyou-")),
        ValidateResult {
            valid_for_new_packages: false,
            valid_for_old_packages: true,
            warnings: Some(vec![String::from("name can no longer contain more than 214 characters")]),
            errors: None
        }
    );

    assert_eq!(
        validate(&String::from("ifyouwanttogetthesumoftwonumberswherethosetwonumbersarechosenbyfindingthelargestoftwooutofthreenumbersandsquaringthemwhichismultiplyingthembyitselfthenyoushouldinputthreenumbersintothisfunctionanditwilldothatforyou")),
        ValidateResult {
            valid_for_new_packages: true,
            valid_for_old_packages: true,
            warnings: None,
            errors: None
        }
    );
}

#[test]
fn it_should_work_with_legacy_mixed_case() {
    assert_eq!(
        validate(&String::from("CAPITAL-LETTERS")),
        ValidateResult {
            valid_for_new_packages: false,
            valid_for_old_packages: true,
            warnings: Some(vec![String::from(
                "name can no longer contain capital letters"
            )]),
            errors: None
        }
    );
}

#[test]
fn repeated_calls_agree() {
    let names = [
        "some-package",
        "",
        "_start-with-underscore",
        "crazy!",
        "@npm/thingy",
        "node_modules",
        "HTTP",
        " leading-space",
    ];
    for name in names {
        let name = String::from(name);
        assert_eq!(validate(&name), validate(&name));
    }
}

#[test]
fn messages_keep_rule_order() {
    // Underscore (an error) fires before the URL rule; the capital-letter
    // warning fires before the special-character warning.
    assert_eq!(
        validate(&String::from("_CAPITAL!")),
        ValidateResult {
            valid_for_new_packages: false,
            valid_for_old_packages: false,
            warnings: Some(vec![
                String::from("name can no longer contain capital letters"),
                String::from("name can no longer contain special characters (\"~\'!()*\")")
            ]),
            errors: Some(vec![String::from("name cannot start with an underscore")])
        }
    );

    assert_eq!(
        validate(&String::from(".Bad Name")),
        ValidateResult {
            valid_for_new_packages: false,
            valid_for_old_packages: false,
            warnings: Some(vec![String::from(
                "name can no longer contain capital letters"
            )]),
            errors: Some(vec![
                String::from("name cannot start with a period"),
                String::from("name can only contain URL-friendly characters")
            ])
        }
    );
}

#[test]
fn blacklist_matches_whole_name_case_insensitively() {
    assert_eq!(
        validate(&String::from("NODE_MODULES")),
        ValidateResult {
            valid_for_new_packages: false,
            valid_for_old_packages: false,
            warnings: Some(vec![String::from(
                "name can no longer contain capital letters"
            )]),
            errors: Some(vec![String::from("node_modules is a blacklisted name")])
        }
    );

    // Containing a blacklisted word as a mere segment is not a blacklist hit.
    assert_eq!(
        validate(&String::from("@scope/node_modules")),
        ValidateResult {
            valid_for_new_packages: true,
            valid_for_old_packages: true,
            warnings: None,
            errors: None
        }
    );
}

#[test]
fn core_module_warning_keeps_original_case() {
    assert_eq!(
        validate(&String::from("HTTP")),
        ValidateResult {
            valid_for_new_packages: false,
            valid_for_old_packages: true,
            warnings: Some(vec![
                String::from("HTTP is a core module name"),
                String::from("name can no longer contain capital letters")
            ]),
            errors: None
        }
    );
}

#[test]
fn scope_segment_is_checked_by_encoding_only() {
    // A special character inside the scope is allowed: it is unreserved and
    // the special-character rule reads only the last segment.
    assert_eq!(
        validate(&String::from("@sc~ope/pkg")),
        ValidateResult {
            valid_for_new_packages: true,
            valid_for_old_packages: true,
            warnings: None,
            errors: None
        }
    );

    // A space inside the scope fails the encoding check of the scope part.
    assert_eq!(
        validate(&String::from("@spa ce/pkg")),
        ValidateResult {
            valid_for_new_packages: false,
            valid_for_old_packages: false,
            warnings: None,
            errors: Some(vec![String::from(
                "name can only contain URL-friendly characters"
            )])
        }
    );
}

#[test]
fn slash_without_scope_shape_is_rejected() {
    assert_eq!(
        validate(&String::from("a/")),
        ValidateResult {
            valid_for_new_packages: false,
            valid_for_old_packages: false,
            warnings: None,
            errors: Some(vec![String::from(
                "name can only contain URL-friendly characters"
            )])
        }
    );

    assert_eq!(
        validate(&String::from("@missing-slash")),
        ValidateResult {
            valid_for_new_packages: false,
            valid_for_old_packages: false,
            warnings: None,
            errors: Some(vec![String::from(
                "name can only contain URL-friendly characters"
            )])
        }
    );

    assert_eq!(
        validate(&String::from("@a/b/c")),
        ValidateResult {
            valid_for_new_packages: false,
            valid_for_old_packages: false,
            warnings: None,
            errors: Some(vec![String::from(
                "name can only contain URL-friendly characters"
            )])
        }
    );
}

#[test]
fn warns_only_about_length_past_214_characters() {
    let name = "a".repeat(215);
    assert_eq!(
        validate(&name),
        ValidateResult {
            valid_for_new_packages: false,
            valid_for_old_packages: true,
            warnings: Some(vec![String::from(
                "name can no longer contain more than 214 characters"
            )]),
            errors: None
        }
    );

    let name = "a".repeat(214);
    assert_eq!(
        validate(&name),
        ValidateResult {
            valid_for_new_packages: true,
            valid_for_old_packages: true,
            warnings: None,
            errors: None
        }
    );
}

#[test]
fn inner_space_is_only_a_url_problem() {
    assert_eq!(
        validate(&String::from("inner space")),
        ValidateResult {
            valid_for_new_packages: false,
            valid_for_old_packages: false,
            warnings: None,
            errors: Some(vec![String::from(
                "name can only contain URL-friendly characters"
            )])
        }
    );
}

#[test]
fn done_reports_empty_lists_as_absent() {
    let verdict = done(vec![], vec![]);
    assert_eq!(
        verdict,
        ValidateResult {
            valid_for_new_packages: true,
            valid_for_old_packages: true,
            warnings: None,
            errors: None
        }
    );

    let verdict = done(vec![String::from("w")], vec![]);
    assert_eq!(
        verdict,
        ValidateResult {
            valid_for_new_packages: false,
            valid_for_old_packages: true,
            warnings: Some(vec![String::from("w")]),
            errors: None
        }
    );

    let verdict = done(vec![], vec![String::from("e")]);
    assert_eq!(
        verdict,
        ValidateResult {
            valid_for_new_packages: false,
            valid_for_old_packages: false,
            warnings: None,
            errors: Some(vec![String::from("e")])
        }
    );
}
