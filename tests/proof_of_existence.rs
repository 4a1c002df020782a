use rust_state_machine::proof_of_existence::Pallet;
use rust_state_machine::support::DispatchError;

#[test]
fn basic_proof_of_existence() {
    let mut poe = Pallet::new();
    assert_eq!(poe.get_claim(&"Hello, world!".to_string()), None);

    assert_eq!(poe.create_claim("alice".to_string(), "Hello, world!".to_string()), Ok(()));
    assert_eq!(poe.get_claim(&"Hello, world!".to_string()), Some(&"alice".to_string()));

    assert_eq!(
        poe.create_claim("bob".to_string(), "Hello, world!".to_string()),
        Err(DispatchError::AlreadyClaimed)
    );
    assert_eq!(
        poe.revoke_claim("bob".to_string(), "Hello, world!".to_string()),
        Err(DispatchError::NotClaimOwner)
    );
    assert_eq!(
        poe.revoke_claim("alice".to_string(), "Goodbye".to_string()),
        Err(DispatchError::NoSuchClaim)
    );
    assert_eq!(poe.get_claim(&"Hello, world!".to_string()), Some(&"alice".to_string()));

    assert_eq!(poe.revoke_claim("alice".to_string(), "Hello, world!".to_string()), Ok(()));
    assert_eq!(poe.get_claim(&"Hello, world!".to_string()), None);
    assert_eq!(poe.create_claim("bob".to_string(), "Hello, world!".to_string()), Ok(()));
    assert_eq!(poe.get_claim(&"Hello, world!".to_string()), Some(&"bob".to_string()));
}

#[test]
fn claim_errors_have_messages() {
    assert_eq!(DispatchError::AlreadyClaimed.message(), "This content is already claimed.");
    assert_eq!(DispatchError::NoSuchClaim.message(), "Claim does not exist.");
    assert_eq!(DispatchError::NotClaimOwner.message(), "This content is owned by someone else.");
}

#[test]
fn one_account_may_own_many_claims() {
    let mut poe = Pallet::new();
    assert_eq!(poe.create_claim("alice".to_string(), "a".to_string()), Ok(()));
    assert_eq!(poe.create_claim("alice".to_string(), "b".to_string()), Ok(()));
    assert_eq!(poe.revoke_claim("alice".to_string(), "a".to_string()), Ok(()));
    assert_eq!(poe.get_claim(&"a".to_string()), None);
    assert_eq!(poe.get_claim(&"b".to_string()), Some(&"alice".to_string()));
}
