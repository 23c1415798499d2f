use runtime_wrappers::errors::ExpansionError;
use runtime_wrappers::exclude::ExcludedPallets;
use runtime_wrappers::items::{has_attribute, Attribute};
use runtime_wrappers::text::same_text;

#[test]
fn message_of_missing_key() {
    assert_eq!(
        ExpansionError::MissingRequiredKey("Balance".to_string()).message(),
        "type `Balance` not specified, but required"
    );
}

#[test]
fn message_of_malformed_target() {
    assert_eq!(
        ExpansionError::MalformedTargetType("Balance".to_string()).message(),
        "malformed type for `Balance`: expected a bare identifier"
    );
}

#[test]
fn message_of_unrecognized_name() {
    assert_eq!(
        ExpansionError::UnrecognizedAbstractionName("Unknown".to_string()).message(),
        "unknown abstraction `Unknown`"
    );
}

#[test]
fn message_of_missing_attribute() {
    assert_eq!(
        ExpansionError::MissingMarkerAttribute("pallet".to_string(), "Extra".to_string()).message(),
        "`pallet` attribute is missing on `Extra`"
    );
}

#[test]
fn message_of_missing_top_level_alias() {
    assert_eq!(
        ExpansionError::MissingTopLevelAlias("Runtime".to_string()).message(),
        "please add `type Runtime` to the root of the module: it is missing"
    );
}

#[test]
fn excluded_pallets_contains_frame_support_only() {
    assert!(ExcludedPallets::contains(&"frame_support".as_bytes().to_vec()));
    assert!(!ExcludedPallets::contains(&"frame_system".as_bytes().to_vec()));
    assert!(!ExcludedPallets::contains(&"frame_suppor".as_bytes().to_vec()));
    assert!(!ExcludedPallets::contains(&"frame_supports".as_bytes().to_vec()));
    assert!(!ExcludedPallets::contains(&Vec::new()));
}

#[test]
fn attribute_words() {
    let attrs = vec![Attribute::Other, Attribute::Word("pallet".to_string())];
    assert!(has_attribute(&attrs, "pallet"));
    assert!(!has_attribute(&attrs, "abstraction"));
    assert!(!has_attribute(&attrs, "Pallet"));
    assert!(!has_attribute(&Vec::new(), "pallet"));
    assert!(!has_attribute(&vec![Attribute::Other], "pallet"));
}

#[test]
fn same_text_is_exact() {
    assert!(same_text(&"Runtime".to_string(), "Runtime"));
    assert!(!same_text(&"Runtime".to_string(), "runtime"));
    assert!(!same_text(&"Runtime".to_string(), "Runtim"));
}
