use enclave_secrets::derivation::{new_pepper, DerivationError, DerivationPolicy, KeyRequest};

#[test]
fn pepper_is_keyed_on_the_user_and_signer_scoped() {
    let request = new_pepper(b"alice");
    assert_eq!(request.key_id(), b"alice");
    assert_eq!(request.policy(), DerivationPolicy::SignerScoped);
}

#[test]
fn pepper_request_of_an_empty_user_id_is_empty() {
    let request = new_pepper(b"");
    assert!(request.key_id().is_empty());
    assert_eq!(request.policy(), DerivationPolicy::SignerScoped);
}

#[test]
fn key_request_keeps_what_it_was_made_of() {
    let request = KeyRequest::new(&[1, 2, 3, 255], DerivationPolicy::InstanceScoped);
    assert_eq!(request.key_id(), &[1, 2, 3, 255]);
    assert_eq!(request.policy(), DerivationPolicy::InstanceScoped);
    assert_ne!(DerivationPolicy::InstanceScoped, DerivationPolicy::SignerScoped);
}

#[test]
fn derivation_error_is_one_value() {
    assert_eq!(DerivationError, DerivationError);
}
