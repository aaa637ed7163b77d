use hyperspace_service::error::ServiceError;
use hyperspace_service::keystore::{hook_remote_keystore, remote_keystore};

#[test]
fn no_remote_keystore_can_be_built() {
    assert_eq!(
        remote_keystore(&"http://keys".to_string()).err(),
        Some("Remote Keystore not supported.")
    );
    assert_eq!(
        remote_keystore(&String::new()).err(),
        Some("Remote Keystore not supported.")
    );
}

#[test]
fn hooking_up_a_remote_keystore_names_it() {
    match hook_remote_keystore(&"http://keys".to_string()) {
        Err(ServiceError::Other(words)) => assert_eq!(
            words,
            "Error hooking up remote keystore for http://keys: Remote Keystore not supported."
        ),
        _ => panic!("a remote keystore was hooked up"),
    }
}
