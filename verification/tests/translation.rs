use active_call::proxy::dispatch::apply_translation_classes;
use active_call::redis_state::types::{TranslationClassConfig, TranslationRule};
use active_call::translation::engine::{TranslationEngine, TranslationInput};

fn rule() -> TranslationRule {
    TranslationRule {
        caller_pattern: None,
        caller_replace: None,
        destination_pattern: None,
        destination_replace: None,
        caller_name_pattern: None,
        caller_name_replace: None,
        direction: "both".to_string(),
        legacy_match: None,
        legacy_replace: None,
    }
}

fn make_rule_dest(pattern: &str, replace: &str) -> TranslationRule {
    TranslationRule {
        destination_pattern: Some(pattern.to_string()),
        destination_replace: Some(replace.to_string()),
        ..rule()
    }
}

fn make_rule_caller(pattern: &str, replace: &str) -> TranslationRule {
    TranslationRule { caller_pattern: Some(pattern.to_string()), caller_replace: Some(replace.to_string()), ..rule() }
}

fn make_rule_caller_name(pattern: &str, replace: &str) -> TranslationRule {
    TranslationRule {
        caller_name_pattern: Some(pattern.to_string()),
        caller_name_replace: Some(replace.to_string()),
        ..rule()
    }
}

fn make_rule_dest_directional(pattern: &str, replace: &str, direction: &str) -> TranslationRule {
    TranslationRule { direction: direction.to_string(), ..make_rule_dest(pattern, replace) }
}

fn make_config(rules: Vec<TranslationRule>) -> TranslationClassConfig {
    TranslationClassConfig { name: "test".to_string(), rules }
}

fn inbound_input(dest: &str) -> TranslationInput {
    TranslationInput {
        caller_number: "01234567890".to_string(),
        destination_number: dest.to_string(),
        caller_name: None,
        direction: "inbound".to_string(),
    }
}

#[test]
fn test_destination_rewrite_local_to_e164() {
    let config = make_config(vec![make_rule_dest(r"^0(\d{10})$", "+44$1")]);
    let input = TranslationInput {
        caller_number: "01234567890".to_string(),
        destination_number: "02071234567".to_string(),
        caller_name: None,
        direction: "inbound".to_string(),
    };
    let result = TranslationEngine::apply(&config, &input);
    assert_eq!(result.destination_number, "+442071234567");
    assert!(result.modified);
}

#[test]
fn test_no_match_leaves_number_unchanged() {
    let config = make_config(vec![make_rule_dest(r"^0(\d{10})$", "+44$1")]);
    let input = inbound_input("+442071234567");
    let result = TranslationEngine::apply(&config, &input);
    assert_eq!(result.destination_number, "+442071234567");
    assert!(!result.modified);
}

#[test]
fn test_multiple_rules_first_match_wins() {
    let config = make_config(vec![make_rule_dest(r"^0(\d{10})$", "+44$1"), make_rule_dest(r"^0(\d{10})$", "+1$1")]);
    let input = inbound_input("02071234567");
    let result = TranslationEngine::apply(&config, &input);
    assert_eq!(result.destination_number, "+442071234567");
}

#[test]
fn test_caller_pattern_rewrites_caller_number() {
    let config = make_config(vec![make_rule_caller(r"^0(\d{10})$", "+44$1")]);
    let input = TranslationInput {
        caller_number: "07911123456".to_string(),
        destination_number: "+15551234567".to_string(),
        caller_name: None,
        direction: "inbound".to_string(),
    };
    let result = TranslationEngine::apply(&config, &input);
    assert_eq!(result.caller_number, "+447911123456");
    assert!(result.modified);
}

#[test]
fn test_caller_name_pattern_rewrites_caller_name() {
    let config = make_config(vec![make_rule_caller_name(r"^Unknown$", "Anonymous")]);
    let input = TranslationInput {
        caller_number: "+15551234567".to_string(),
        destination_number: "+15559876543".to_string(),
        caller_name: Some("Unknown".to_string()),
        direction: "inbound".to_string(),
    };
    let result = TranslationEngine::apply(&config, &input);
    assert_eq!(result.caller_name, Some("Anonymous".to_string()));
    assert!(result.modified);
}

#[test]
fn test_direction_inbound_rule_applies_inbound() {
    let config = make_config(vec![make_rule_dest_directional(r"^0(\d{10})$", "+44$1", "inbound")]);
    let input = inbound_input("02071234567");
    let result = TranslationEngine::apply(&config, &input);
    assert_eq!(result.destination_number, "+442071234567");
}

#[test]
fn test_direction_inbound_rule_does_not_apply_outbound() {
    let config = make_config(vec![make_rule_dest_directional(r"^0(\d{10})$", "+44$1", "inbound")]);
    let input = TranslationInput {
        caller_number: "0".to_string(),
        destination_number: "02071234567".to_string(),
        caller_name: None,
        direction: "outbound".to_string(),
    };
    let result = TranslationEngine::apply(&config, &input);
    assert_eq!(result.destination_number, "02071234567");
    assert!(!result.modified);
}

#[test]
fn test_direction_outbound_rule_applies_outbound() {
    let config = make_config(vec![make_rule_dest_directional(r"^0(\d{10})$", "+44$1", "outbound")]);
    let input = TranslationInput {
        caller_number: "0".to_string(),
        destination_number: "02071234567".to_string(),
        caller_name: None,
        direction: "outbound".to_string(),
    };
    let result = TranslationEngine::apply(&config, &input);
    assert_eq!(result.destination_number, "+442071234567");
}

#[test]
fn test_direction_both_applies_either() {
    let config = make_config(vec![make_rule_dest_directional(r"^0(\d{10})$", "+44$1", "both")]);
    let input_in = inbound_input("02071234567");
    let result_in = TranslationEngine::apply(&config, &input_in);
    assert_eq!(result_in.destination_number, "+442071234567");

    let input_out = TranslationInput {
        caller_number: "0".to_string(),
        destination_number: "02071234567".to_string(),
        caller_name: None,
        direction: "outbound".to_string(),
    };
    let result_out = TranslationEngine::apply(&config, &input_out);
    assert_eq!(result_out.destination_number, "+442071234567");
}

#[test]
fn test_legacy_match_pattern_backward_compat() {
    let config = TranslationClassConfig {
        name: "legacy".to_string(),
        rules: vec![TranslationRule {
            legacy_match: Some(r"^0(\d{10})$".to_string()),
            legacy_replace: Some("+44$1".to_string()),
            ..rule()
        }],
    };
    let input = inbound_input("02071234567");
    let result = TranslationEngine::apply(&config, &input);
    assert_eq!(result.destination_number, "+442071234567");
}

#[test]
fn invalid_pattern_and_identity_rewrite() {
    let config = make_config(vec![make_rule_dest(r"(unclosed", "x"), make_rule_dest(r"^(\d+)$", "$1")]);
    let result = TranslationEngine::apply(&config, &inbound_input("12345"));
    // The second rule matches and rewrites to the same text: not modified.
    assert_eq!(result.destination_number, "12345");
    assert!(!result.modified);
    assert!(TranslationEngine::direction_matches("both", "outbound"));
    assert!(!TranslationEngine::direction_matches("inbound", "outbound"));
}

#[test]
fn dispatch_applies_classes_in_order() {
    let classes = vec![
        make_config(vec![make_rule_dest(r"^0(\d{10})$", "+44$1")]),
        make_config(vec![make_rule_caller(r"^0(\d+)$", "+1$1")]),
        make_config(vec![make_rule_dest(r"^nomatch$", "x")]),
    ];
    let (c, d) = apply_translation_classes("0555".to_string(), "02071234567".to_string(), &classes);
    assert_eq!(c, "+1555");
    assert_eq!(d, "+442071234567");
}
