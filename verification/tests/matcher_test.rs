#![allow(unused_imports)]
use opencode_voice::approval::matcher::match_permission_command;
use opencode_voice::approval::matcher::match_question_answer;
use opencode_voice::approval::matcher::normalize;
use opencode_voice::approval::matcher::parse_number_word;
use opencode_voice::approval::matcher::MatchResult;
use opencode_voice::approval::types::PermissionReply;
use opencode_voice::approval::types::QuestionInfo;
use opencode_voice::approval::types::QuestionOption;
use opencode_voice::approval::types::QuestionRequest;

fn make_question(options: &[&str], custom: bool) -> QuestionRequest {
    QuestionRequest {
        id: "test-id".to_string(),
        questions: vec![QuestionInfo {
            question: "What do you want to do?".to_string(),
            options: options
                .iter()
                .map(|&l| QuestionOption {
                    label: l.to_string(),
                })
                .collect(),
            custom,
        }],
    }
}

// Permission tests — Once patterns (22)
#[test]
fn test_once_allow() {
    assert!(matches!(
        match_permission_command("allow"),
        MatchResult::PermissionReply {
            reply: PermissionReply::Once,
            ..
        }
    ));
}
#[test]
fn test_once_yes() {
    assert!(matches!(
        match_permission_command("yes"),
        MatchResult::PermissionReply {
            reply: PermissionReply::Once,
            ..
        }
    ));
}
#[test]
fn test_once_ok() {
    assert!(matches!(
        match_permission_command("ok"),
        MatchResult::PermissionReply {
            reply: PermissionReply::Once,
            ..
        }
    ));
}
#[test]
fn test_once_okay() {
    assert!(matches!(
        match_permission_command("okay"),
        MatchResult::PermissionReply {
            reply: PermissionReply::Once,
            ..
        }
    ));
}
#[test]
fn test_once_sure() {
    assert!(matches!(
        match_permission_command("sure"),
        MatchResult::PermissionReply {
            reply: PermissionReply::Once,
            ..
        }
    ));
}
#[test]
fn test_once_proceed() {
    assert!(matches!(
        match_permission_command("proceed"),
        MatchResult::PermissionReply {
            reply: PermissionReply::Once,
            ..
        }
    ));
}
#[test]
fn test_once_approve() {
    assert!(matches!(
        match_permission_command("approve"),
        MatchResult::PermissionReply {
            reply: PermissionReply::Once,
            ..
        }
    ));
}
#[test]
fn test_once_execute() {
    assert!(matches!(
        match_permission_command("execute"),
        MatchResult::PermissionReply {
            reply: PermissionReply::Once,
            ..
        }
    ));
}
#[test]
fn test_once_accept() {
    assert!(matches!(
        match_permission_command("accept"),
        MatchResult::PermissionReply {
            reply: PermissionReply::Once,
            ..
        }
    ));
}
#[test]
fn test_once_yeah() {
    assert!(matches!(
        match_permission_command("yeah"),
        MatchResult::PermissionReply {
            reply: PermissionReply::Once,
            ..
        }
    ));
}
#[test]
fn test_once_with_punctuation() {
    // "yes." should normalize to "yes" and match once
    assert!(matches!(
        match_permission_command("yes."),
        MatchResult::PermissionReply {
            reply: PermissionReply::Once,
            ..
        }
    ));
}

// Always patterns (5)
#[test]
fn test_always_always() {
    assert!(matches!(
        match_permission_command("always"),
        MatchResult::PermissionReply {
            reply: PermissionReply::Always,
            ..
        }
    ));
}
#[test]
fn test_always_always_allow() {
    assert!(matches!(
        match_permission_command("always allow"),
        MatchResult::PermissionReply {
            reply: PermissionReply::Always,
            ..
        }
    ));
}
#[test]
fn test_always_trust() {
    assert!(matches!(
        match_permission_command("trust"),
        MatchResult::PermissionReply {
            reply: PermissionReply::Always,
            ..
        }
    ));
}
#[test]
fn test_always_trust_it() {
    assert!(matches!(
        match_permission_command("trust it"),
        MatchResult::PermissionReply {
            reply: PermissionReply::Always,
            ..
        }
    ));
}
#[test]
fn test_always_allow_all() {
    assert!(matches!(
        match_permission_command("allow all"),
        MatchResult::PermissionReply {
            reply: PermissionReply::Always,
            ..
        }
    ));
}

// Reject patterns (16)
#[test]
fn test_reject_no() {
    assert!(matches!(
        match_permission_command("no"),
        MatchResult::PermissionReply {
            reply: PermissionReply::Reject,
            ..
        }
    ));
}
#[test]
fn test_reject_reject() {
    assert!(matches!(
        match_permission_command("reject"),
        MatchResult::PermissionReply {
            reply: PermissionReply::Reject,
            ..
        }
    ));
}
#[test]
fn test_reject_deny() {
    assert!(matches!(
        match_permission_command("deny"),
        MatchResult::PermissionReply {
            reply: PermissionReply::Reject,
            ..
        }
    ));
}
#[test]
fn test_reject_cancel() {
    assert!(matches!(
        match_permission_command("cancel"),
        MatchResult::PermissionReply {
            reply: PermissionReply::Reject,
            ..
        }
    ));
}
#[test]
fn test_reject_nope() {
    assert!(matches!(
        match_permission_command("nope"),
        MatchResult::PermissionReply {
            reply: PermissionReply::Reject,
            ..
        }
    ));
}

// Reject with message
#[test]
fn test_reject_with_message() {
    let result = match_permission_command("no, try something else");
    match result {
        MatchResult::PermissionReply {
            reply: PermissionReply::Reject,
            message,
        } => {
            assert_eq!(message, Some("try something else".to_string()));
        }
        _ => panic!("Expected reject with message"),
    }
}

// NoMatch
#[test]
fn test_no_match() {
    assert_eq!(
        match_permission_command("hello world"),
        MatchResult::NoMatch
    );
}
#[test]
fn test_no_match_empty() {
    assert_eq!(match_permission_command(""), MatchResult::NoMatch);
}

// Question tests
#[test]
fn test_question_exact_label() {
    let q = make_question(&["Continue", "Cancel", "Retry"], true);
    let result = match_question_answer("continue", &q);
    assert!(matches!(result, MatchResult::QuestionAnswer { .. }));
}

#[test]
fn test_question_numeric_option_1() {
    let q = make_question(&["Yes", "No"], true);
    let result = match_question_answer("option 1", &q);
    assert!(matches!(result, MatchResult::QuestionAnswer { .. }));
}

#[test]
fn test_question_numeric_word_first() {
    let q = make_question(&["Alpha", "Beta"], true);
    let result = match_question_answer("first", &q);
    assert!(
        matches!(result, MatchResult::QuestionAnswer { answers } if answers[0] == vec!["Alpha"])
    );
}

#[test]
fn test_question_numeric_word_one() {
    let q = make_question(&["Alpha", "Beta"], true);
    let result = match_question_answer("one", &q);
    assert!(
        matches!(result, MatchResult::QuestionAnswer { answers } if answers[0] == vec!["Alpha"])
    );
}

#[test]
fn test_question_reject_skip() {
    let q = make_question(&["Yes", "No"], true);
    assert_eq!(
        match_question_answer("skip", &q),
        MatchResult::QuestionReject
    );
}

#[test]
fn test_question_reject_dismiss() {
    let q = make_question(&["Yes", "No"], true);
    assert_eq!(
        match_question_answer("dismiss", &q),
        MatchResult::QuestionReject
    );
}

#[test]
fn test_question_custom_answer() {
    let q = make_question(&["Yes", "No"], true);
    let result = match_question_answer("do something custom", &q);
    assert!(matches!(result, MatchResult::QuestionAnswer { .. }));
}

#[test]
fn test_question_no_match_no_custom() {
    let q = make_question(&["Yes", "No"], false);
    let result = match_question_answer("do something custom", &q);
    assert_eq!(result, MatchResult::NoMatch);
}

#[test]
fn test_normalize_punctuation() {
    assert_eq!(normalize("yes."), "yes");
    assert_eq!(normalize("Allow!"), "allow");
    assert_eq!(normalize("  ok  "), "ok");
}

// Additional coverage tests
#[test]
fn test_once_all_patterns() {
    let expected_once = [
        "allow",
        "allow once",
        "allow it",
        "allow this",
        "yes",
        "yeah",
        "yep",
        "ok",
        "okay",
        "sure",
        "proceed",
        "go ahead",
        "do it",
        "approve",
        "approve once",
        "approve it",
        "approve this",
        "accept",
        "run it",
        "go for it",
        "permit",
        "execute",
    ];
    assert_eq!(
        expected_once.len(),
        22,
        "Must have exactly 22 once patterns"
    );
    for pattern in &expected_once {
        assert!(
            matches!(
                match_permission_command(pattern),
                MatchResult::PermissionReply {
                    reply: PermissionReply::Once,
                    ..
                }
            ),
            "Pattern '{}' should match Once",
            pattern
        );
    }
}

#[test]
fn test_always_all_patterns() {
    let expected_always = ["always", "always allow", "trust", "trust it", "allow all"];
    assert_eq!(
        expected_always.len(),
        5,
        "Must have exactly 5 always patterns"
    );
    for pattern in &expected_always {
        assert!(
            matches!(
                match_permission_command(pattern),
                MatchResult::PermissionReply {
                    reply: PermissionReply::Always,
                    ..
                }
            ),
            "Pattern '{}' should match Always",
            pattern
        );
    }
}

#[test]
fn test_reject_all_patterns() {
    let expected_reject = [
        "reject",
        "deny",
        "no",
        "nope",
        "cancel",
        "stop",
        "don't",
        "do not",
        "refuse",
        "block",
        "skip",
        "decline",
        "dismiss",
        "not allowed",
        "nah",
        "don't do it",
    ];
    assert_eq!(
        expected_reject.len(),
        16,
        "Must have exactly 16 reject patterns"
    );
    for pattern in &expected_reject {
        assert!(
            matches!(
                match_permission_command(pattern),
                MatchResult::PermissionReply {
                    reply: PermissionReply::Reject,
                    ..
                }
            ),
            "Pattern '{}' should match Reject",
            pattern
        );
    }
}

#[test]
fn test_always_takes_priority_over_once() {
    // "always allow" contains "allow" (once) but should match Always
    assert!(matches!(
        match_permission_command("always allow"),
        MatchResult::PermissionReply {
            reply: PermissionReply::Always,
            ..
        }
    ));
}

#[test]
fn test_not_allowed_exact_reject() {
    // "not allowed" starts with "no" but should be exact reject, not reject-with-message
    let result = match_permission_command("not allowed");
    match result {
        MatchResult::PermissionReply {
            reply: PermissionReply::Reject,
            message,
        } => {
            assert_eq!(message, None, "'not allowed' should have no message");
        }
        _ => panic!("Expected reject"),
    }
}

#[test]
fn test_question_label_in_text() {
    let q = make_question(&["Continue", "Cancel"], true);
    // "I want to continue" contains "continue"
    let result = match_question_answer("I want to continue", &q);
    assert!(
        matches!(result, MatchResult::QuestionAnswer { answers } if answers[0] == vec!["Continue"])
    );
}

#[test]
fn test_question_numeric_option_2() {
    let q = make_question(&["Alpha", "Beta", "Gamma"], true);
    let result = match_question_answer("option 2", &q);
    assert!(
        matches!(result, MatchResult::QuestionAnswer { answers } if answers[0] == vec!["Beta"])
    );
}

#[test]
fn test_question_numeric_word_second() {
    let q = make_question(&["Alpha", "Beta"], true);
    let result = match_question_answer("second", &q);
    assert!(
        matches!(result, MatchResult::QuestionAnswer { answers } if answers[0] == vec!["Beta"])
    );
}

#[test]
fn test_question_reject_never_mind() {
    let q = make_question(&["Yes", "No"], true);
    assert_eq!(
        match_question_answer("never mind", &q),
        MatchResult::QuestionReject
    );
}

#[test]
fn test_question_empty_questions_no_match() {
    let q = QuestionRequest {
        id: "test".to_string(),
        questions: vec![],
    };
    assert_eq!(match_question_answer("yes", &q), MatchResult::NoMatch);
}

// --- Additional tests added to expand coverage ---

// normalize: extra whitespace collapsing
#[test]
fn test_normalize_extra_whitespace() {
    assert_eq!(normalize("  hello   world  "), "hello world");
}

// normalize: mixed case
#[test]
fn test_normalize_mixed_case() {
    assert_eq!(normalize("ALLOW"), "allow");
    assert_eq!(normalize("AlLoW OnCe"), "allow once");
}

// normalize: multiple trailing punctuation chars
#[test]
fn test_normalize_multiple_trailing_punctuation() {
    assert_eq!(normalize("yes!?"), "yes");
    assert_eq!(normalize("ok..."), "ok");
}

// normalize: internal punctuation is preserved (only trailing stripped)
#[test]
fn test_normalize_internal_punctuation_preserved() {
    // Commas in the middle are not stripped
    let result = normalize("no, try again");
    assert_eq!(result, "no, try again");
}

// Once patterns: remaining ones not individually tested above
#[test]
fn test_once_yep() {
    assert!(matches!(
        match_permission_command("yep"),
        MatchResult::PermissionReply {
            reply: PermissionReply::Once,
            ..
        }
    ));
}

#[test]
fn test_once_go_ahead() {
    assert!(matches!(
        match_permission_command("go ahead"),
        MatchResult::PermissionReply {
            reply: PermissionReply::Once,
            ..
        }
    ));
}

#[test]
fn test_once_do_it() {
    assert!(matches!(
        match_permission_command("do it"),
        MatchResult::PermissionReply {
            reply: PermissionReply::Once,
            ..
        }
    ));
}

#[test]
fn test_once_run_it() {
    assert!(matches!(
        match_permission_command("run it"),
        MatchResult::PermissionReply {
            reply: PermissionReply::Once,
            ..
        }
    ));
}

#[test]
fn test_once_go_for_it() {
    assert!(matches!(
        match_permission_command("go for it"),
        MatchResult::PermissionReply {
            reply: PermissionReply::Once,
            ..
        }
    ));
}

#[test]
fn test_once_permit() {
    assert!(matches!(
        match_permission_command("permit"),
        MatchResult::PermissionReply {
            reply: PermissionReply::Once,
            ..
        }
    ));
}

#[test]
fn test_once_allow_once() {
    assert!(matches!(
        match_permission_command("allow once"),
        MatchResult::PermissionReply {
            reply: PermissionReply::Once,
            ..
        }
    ));
}

#[test]
fn test_once_allow_it() {
    assert!(matches!(
        match_permission_command("allow it"),
        MatchResult::PermissionReply {
            reply: PermissionReply::Once,
            ..
        }
    ));
}

#[test]
fn test_once_allow_this() {
    assert!(matches!(
        match_permission_command("allow this"),
        MatchResult::PermissionReply {
            reply: PermissionReply::Once,
            ..
        }
    ));
}

#[test]
fn test_once_approve_once() {
    assert!(matches!(
        match_permission_command("approve once"),
        MatchResult::PermissionReply {
            reply: PermissionReply::Once,
            ..
        }
    ));
}

#[test]
fn test_once_approve_it() {
    assert!(matches!(
        match_permission_command("approve it"),
        MatchResult::PermissionReply {
            reply: PermissionReply::Once,
            ..
        }
    ));
}

#[test]
fn test_once_approve_this() {
    assert!(matches!(
        match_permission_command("approve this"),
        MatchResult::PermissionReply {
            reply: PermissionReply::Once,
            ..
        }
    ));
}

// Reject patterns: remaining ones not individually tested above
#[test]
fn test_reject_stop() {
    assert!(matches!(
        match_permission_command("stop"),
        MatchResult::PermissionReply {
            reply: PermissionReply::Reject,
            ..
        }
    ));
}

#[test]
fn test_reject_dont() {
    assert!(matches!(
        match_permission_command("don't"),
        MatchResult::PermissionReply {
            reply: PermissionReply::Reject,
            ..
        }
    ));
}

#[test]
fn test_reject_do_not() {
    assert!(matches!(
        match_permission_command("do not"),
        MatchResult::PermissionReply {
            reply: PermissionReply::Reject,
            ..
        }
    ));
}

#[test]
fn test_reject_refuse() {
    assert!(matches!(
        match_permission_command("refuse"),
        MatchResult::PermissionReply {
            reply: PermissionReply::Reject,
            ..
        }
    ));
}

#[test]
fn test_reject_block() {
    assert!(matches!(
        match_permission_command("block"),
        MatchResult::PermissionReply {
            reply: PermissionReply::Reject,
            ..
        }
    ));
}

#[test]
fn test_reject_skip() {
    assert!(matches!(
        match_permission_command("skip"),
        MatchResult::PermissionReply {
            reply: PermissionReply::Reject,
            ..
        }
    ));
}

#[test]
fn test_reject_decline() {
    assert!(matches!(
        match_permission_command("decline"),
        MatchResult::PermissionReply {
            reply: PermissionReply::Reject,
            ..
        }
    ));
}

#[test]
fn test_reject_dismiss() {
    assert!(matches!(
        match_permission_command("dismiss"),
        MatchResult::PermissionReply {
            reply: PermissionReply::Reject,
            ..
        }
    ));
}

#[test]
fn test_reject_nah() {
    assert!(matches!(
        match_permission_command("nah"),
        MatchResult::PermissionReply {
            reply: PermissionReply::Reject,
            ..
        }
    ));
}

#[test]
fn test_reject_dont_do_it() {
    assert!(matches!(
        match_permission_command("don't do it"),
        MatchResult::PermissionReply {
            reply: PermissionReply::Reject,
            ..
        }
    ));
}

// Reject with message: various prefixes
#[test]
fn test_reject_with_message_deny_prefix() {
    let result = match_permission_command("deny, not safe");
    match result {
        MatchResult::PermissionReply {
            reply: PermissionReply::Reject,
            message,
        } => {
            assert_eq!(message, Some("not safe".to_string()));
        }
        _ => panic!("Expected reject with message"),
    }
}

#[test]
fn test_reject_with_message_cancel_prefix() {
    let result = match_permission_command("cancel, wrong command");
    match result {
        MatchResult::PermissionReply {
            reply: PermissionReply::Reject,
            message,
        } => {
            assert_eq!(message, Some("wrong command".to_string()));
        }
        _ => panic!("Expected reject with message"),
    }
}

#[test]
fn test_reject_with_message_no_space_separator() {
    // "no try again" — "no" is a reject prefix, "try again" is the message
    let result = match_permission_command("no try again");
    match result {
        MatchResult::PermissionReply {
            reply: PermissionReply::Reject,
            message,
        } => {
            assert_eq!(message, Some("try again".to_string()));
        }
        _ => panic!("Expected reject with message"),
    }
}

// Case-insensitive matching via normalize
#[test]
fn test_once_case_insensitive() {
    assert!(matches!(
        match_permission_command("YES"),
        MatchResult::PermissionReply {
            reply: PermissionReply::Once,
            ..
        }
    ));
    assert!(matches!(
        match_permission_command("Allow"),
        MatchResult::PermissionReply {
            reply: PermissionReply::Once,
            ..
        }
    ));
}

#[test]
fn test_always_case_insensitive() {
    assert!(matches!(
        match_permission_command("ALWAYS"),
        MatchResult::PermissionReply {
            reply: PermissionReply::Always,
            ..
        }
    ));
    assert!(matches!(
        match_permission_command("Trust"),
        MatchResult::PermissionReply {
            reply: PermissionReply::Always,
            ..
        }
    ));
}

#[test]
fn test_reject_case_insensitive() {
    assert!(matches!(
        match_permission_command("NO"),
        MatchResult::PermissionReply {
            reply: PermissionReply::Reject,
            ..
        }
    ));
    assert!(matches!(
        match_permission_command("Deny"),
        MatchResult::PermissionReply {
            reply: PermissionReply::Reject,
            ..
        }
    ));
}

// Question: reject with cancel
#[test]
fn test_question_reject_cancel() {
    let q = make_question(&["Yes", "No"], true);
    assert_eq!(
        match_question_answer("cancel", &q),
        MatchResult::QuestionReject
    );
}

// Question: reject with nevermind (no space)
#[test]
fn test_question_reject_nevermind() {
    let q = make_question(&["Yes", "No"], true);
    assert_eq!(
        match_question_answer("nevermind", &q),
        MatchResult::QuestionReject
    );
}

// Question: reject with "none"
#[test]
fn test_question_reject_none() {
    let q = make_question(&["Yes", "No"], true);
    assert_eq!(
        match_question_answer("none", &q),
        MatchResult::QuestionReject
    );
}

// Question: numeric "two" / "second" selects second option
#[test]
fn test_question_numeric_word_two() {
    let q = make_question(&["Alpha", "Beta", "Gamma"], true);
    let result = match_question_answer("two", &q);
    assert!(
        matches!(result, MatchResult::QuestionAnswer { answers } if answers[0] == vec!["Beta"])
    );
}

// Question: "option 3" selects third option
#[test]
fn test_question_numeric_option_3() {
    let q = make_question(&["Alpha", "Beta", "Gamma"], true);
    let result = match_question_answer("option 3", &q);
    assert!(
        matches!(result, MatchResult::QuestionAnswer { answers } if answers[0] == vec!["Gamma"])
    );
}

// Question: out-of-range numeric falls through to custom
#[test]
fn test_question_numeric_out_of_range_with_custom() {
    let q = make_question(&["Alpha", "Beta"], true);
    // "option 5" is out of range (only 2 options), falls through to custom
    let result = match_question_answer("option 5", &q);
    assert!(matches!(result, MatchResult::QuestionAnswer { .. }));
}

// Question: out-of-range numeric without custom → NoMatch
#[test]
fn test_question_numeric_out_of_range_no_custom() {
    let q = make_question(&["Alpha", "Beta"], false);
    // "option 5" is out of range, no custom → NoMatch
    let result = match_question_answer("option 5", &q);
    assert_eq!(result, MatchResult::NoMatch);
}

// Question: exact label match is case-insensitive (via normalize)
#[test]
fn test_question_exact_label_case_insensitive() {
    let q = make_question(&["Continue", "Cancel", "Retry"], false);
    let result = match_question_answer("CONTINUE", &q);
    assert!(
        matches!(result, MatchResult::QuestionAnswer { answers } if answers[0] == vec!["Continue"])
    );
}

// Question: custom answer preserves original text (not normalized)
#[test]
fn test_question_custom_answer_preserves_text() {
    let q = make_question(&["Yes", "No"], true);
    let result = match_question_answer("  My Custom Answer  ", &q);
    match result {
        MatchResult::QuestionAnswer { answers } => {
            // Custom answer uses text.trim()
            assert_eq!(answers[0], vec!["My Custom Answer"]);
        }
        _ => panic!("Expected QuestionAnswer"),
    }
}

// NoMatch: random text
#[test]
fn test_no_match_random_text() {
    assert_eq!(
        match_permission_command("the quick brown fox"),
        MatchResult::NoMatch
    );
}

// NoMatch: whitespace only
#[test]
fn test_no_match_whitespace_only() {
    assert_eq!(match_permission_command("   "), MatchResult::NoMatch);
}

#[test]
fn test_reject_with_message_nope_prefix() {
    assert_eq!(
        match_permission_command("nope, too risky"),
        MatchResult::PermissionReply {
            reply: PermissionReply::Reject,
            message: Some("too risky".to_string()),
        }
    );
}

#[test]
fn test_reject_prefix_followed_by_letters() {
    assert_eq!(
        match_permission_command("nothing to see"),
        MatchResult::PermissionReply {
            reply: PermissionReply::Reject,
            message: Some("thing to see".to_string()),
        }
    );
    assert_eq!(
        match_permission_command("now"),
        MatchResult::PermissionReply {
            reply: PermissionReply::Reject,
            message: Some("w".to_string()),
        }
    );
    assert_eq!(
        match_permission_command("refuse: wrong file"),
        MatchResult::PermissionReply {
            reply: PermissionReply::Reject,
            message: Some(": wrong file".to_string()),
        }
    );
}

#[test]
fn test_permission_ascii_case_insensitive() {
    for (a, b) in [("YES", "yes"), ("Allow", "allow"), ("ALWAYS", "always"), ("Trust", "trust"), ("NO", "no"), ("Deny", "deny")] {
        assert_eq!(match_permission_command(a), match_permission_command(b));
    }
}
