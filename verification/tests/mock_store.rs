use jido_conductor::secrets::{delete_secret, get_secret, store_secret};

/// Makes the store that forgets: each entry keeps what it is given and no
/// other entry sees it.
fn use_forgetful_store() {
    keyring::set_default_credential_builder(keyring::mock::default_credential_builder());
}

#[test]
fn store_succeeds_on_the_forgetful_store() {
    use_forgetful_store();
    assert_eq!(store_secret(String::from("api-token"), String::from("abc123")), Ok(()));
}

#[test]
fn get_of_a_key_without_a_secret_fails_with_the_description() {
    use_forgetful_store();
    assert_eq!(
        get_secret(String::from("never-stored")),
        Err(String::from("No matching entry found in secure storage"))
    );
}

#[test]
fn delete_of_a_key_without_a_secret_fails_with_the_description() {
    use_forgetful_store();
    assert_eq!(
        delete_secret(String::from("never-stored")),
        Err(String::from("No matching entry found in secure storage"))
    );
}

#[test]
fn nothing_is_cached_between_operations() {
    use_forgetful_store();
    assert_eq!(store_secret(String::from("k"), String::from("v")), Ok(()));
    assert!(get_secret(String::from("k")).is_err());
}
