use flux_turn_taking::redact::{join, parse_redact_entities, redact_query};

#[test]
fn redact_items_are_trimmed_lowercased_and_unique() {
    assert_eq!(
        parse_redact_entities(" PCI, ssn ,,pci, Name "),
        vec!["pci".to_string(), "ssn".to_string(), "name".to_string()]
    );
}

#[test]
fn empty_redact_value_names_nothing() {
    assert!(parse_redact_entities("").is_empty());
    assert!(parse_redact_entities(" , ,").is_empty());
}

#[test]
fn redact_query_repeats_the_parameter() {
    assert_eq!(redact_query("pii, PCI"), Some("redact=pii&redact=pci".to_string()));
    assert_eq!(redact_query("ssn"), Some("redact=ssn".to_string()));
    assert_eq!(redact_query(" , "), None);
    assert_eq!(join(&vec!["a".to_string(), "b".to_string(), "c".to_string()], "&"), "a&b&c");
    assert_eq!(join(&Vec::new(), "&"), "");
}
