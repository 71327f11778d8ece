use auth_core::hash::{generate_salt, hash_password, verify_password};
use auth_core::settings::{
    check_root_password, DatabaseType, OperatorCheck, Settings, SettingsField,
};

#[test]
fn default_settings_are_empty_and_incomplete() {
    let settings = Settings::default();
    assert!(settings.root_user.is_none());
    assert!(settings.root_password.is_none());
    assert!(settings.api_key.is_none());
    assert!(settings.database_type.is_none());
    assert!(settings.database_endpoint.is_none());
    assert!(!settings.is_complete());
}

#[test]
fn missing_fields_are_prompted_in_order() {
    let mut settings = Settings::default();
    let expected = [
        SettingsField::RootUser,
        SettingsField::RootPassword,
        SettingsField::DatabaseType,
        SettingsField::DatabaseEndpoint,
        SettingsField::ApiKey,
    ];
    let answers = [
        Some("root".to_string()),
        Some("hunter2".to_string()),
        Some("local".to_string()),
        Some("database.db".to_string()),
        Some("the-service-key".to_string()),
    ];
    for (field, answer) in expected.iter().zip(answers.into_iter()) {
        assert_eq!(settings.next_missing_field(), Some(*field));
        settings.fill_field(*field, answer).unwrap();
    }
    assert_eq!(settings.next_missing_field(), None);
    assert!(settings.is_complete());
    assert_eq!(settings.root_user.as_deref(), Some("root"));
    assert_eq!(settings.database_type, Some(DatabaseType::Local));
    assert_eq!(settings.database_endpoint.as_deref(), Some("database.db"));
}

#[test]
fn a_present_field_is_not_prompted_again() {
    let mut settings = Settings::default();
    settings
        .fill_field(SettingsField::RootUser, Some("root".to_string()))
        .unwrap();
    assert_eq!(
        settings.next_missing_field(),
        Some(SettingsField::RootPassword)
    );
}

#[test]
fn secrets_are_hashed_on_entry() {
    let mut settings = Settings::default();
    settings
        .fill_field(SettingsField::RootPassword, Some("hunter2".to_string()))
        .unwrap();
    settings
        .fill_field(SettingsField::ApiKey, Some("the-service-key".to_string()))
        .unwrap();
    let stored_password = settings.root_password.clone().unwrap();
    let stored_key = settings.api_key.clone().unwrap();
    // neither field holds the plaintext
    assert_ne!(stored_password, "hunter2");
    assert_ne!(stored_key, "the-service-key");
    // both verify against what was entered, and nothing else
    assert!(verify_password("hunter2", &stored_password).unwrap());
    assert!(!verify_password("hunter3", &stored_password).unwrap());
    assert!(verify_password("the-service-key", &stored_key).unwrap());
    assert!(!verify_password("another-key", &stored_key).unwrap());
}

#[test]
fn an_absent_secret_entry_counts_as_the_empty_secret() {
    let mut settings = Settings::default();
    settings.fill_field(SettingsField::RootPassword, None).unwrap();
    let stored = settings.root_password.clone().unwrap();
    assert!(verify_password("", &stored).unwrap());
    assert!(!verify_password("anything", &stored).unwrap());
}

#[test]
fn database_type_accepts_exactly_remote_and_local() {
    let mut settings = Settings::default();
    settings
        .fill_field(SettingsField::DatabaseType, Some("remote".to_string()))
        .unwrap();
    assert_eq!(settings.database_type, Some(DatabaseType::Remote));
    settings
        .fill_field(SettingsField::DatabaseType, Some("local".to_string()))
        .unwrap();
    assert_eq!(settings.database_type, Some(DatabaseType::Local));
    settings
        .fill_field(SettingsField::DatabaseType, Some("Remote".to_string()))
        .unwrap();
    assert_eq!(settings.database_type, None);
    settings.fill_field(SettingsField::DatabaseType, None).unwrap();
    assert_eq!(settings.database_type, None);
}

#[test]
fn settings_clone_keeps_every_field() {
    let mut settings = Settings::default();
    settings
        .fill_field(SettingsField::RootUser, Some("root".to_string()))
        .unwrap();
    settings
        .fill_field(SettingsField::DatabaseType, Some("local".to_string()))
        .unwrap();
    let copy = settings.clone();
    assert_eq!(copy.root_user, settings.root_user);
    assert_eq!(copy.root_password, settings.root_password);
    assert_eq!(copy.api_key, settings.api_key);
    assert_eq!(copy.database_type, settings.database_type);
    assert_eq!(copy.database_endpoint, settings.database_endpoint);
}

#[test]
fn operator_check_accepts_the_right_password() {
    let stored = hash_password("hunter2", &generate_salt()).unwrap();
    assert_eq!(
        check_root_password("hunter2", &stored, 3),
        OperatorCheck::Verified
    );
    // a correct password is accepted even on the last attempt
    assert_eq!(
        check_root_password("hunter2", &stored, 1),
        OperatorCheck::Verified
    );
}

#[test]
fn operator_check_retries_then_turns_fatal() {
    let stored = hash_password("hunter2", &generate_salt()).unwrap();
    assert_eq!(check_root_password("wrong", &stored, 3), OperatorCheck::Retry);
    assert_eq!(check_root_password("wrong", &stored, 2), OperatorCheck::Retry);
    assert_eq!(check_root_password("wrong", &stored, 1), OperatorCheck::Fatal);
}

#[test]
fn operator_check_is_fatal_on_a_malformed_stored_hash() {
    assert_eq!(
        check_root_password("hunter2", "not a hash", 3),
        OperatorCheck::Fatal
    );
}
