use rust_state_machine::balances;
use rust_state_machine::proof_of_existence;
use rust_state_machine::runtime::{ExtrinsicFailure, Runtime, RuntimeCall};
use rust_state_machine::support::{Block, Dispatch, DispatchError, Extrinsic, Header};

fn transfer(caller: &str, to: &str, amount: u128) -> Extrinsic<String, RuntimeCall> {
    Extrinsic {
        caller: caller.to_string(),
        call: RuntimeCall::Balances(balances::Call::Transfer { to: to.to_string(), amount }),
    }
}

fn create_claim(caller: &str, claim: &str) -> Extrinsic<String, RuntimeCall> {
    Extrinsic {
        caller: caller.to_string(),
        call: RuntimeCall::ProofOfExistence(proof_of_existence::Call::CreateClaim {
            claim: claim.to_string(),
        }),
    }
}

fn revoke_claim(caller: &str, claim: &str) -> Extrinsic<String, RuntimeCall> {
    Extrinsic {
        caller: caller.to_string(),
        call: RuntimeCall::ProofOfExistence(proof_of_existence::Call::RevokeClaim {
            claim: claim.to_string(),
        }),
    }
}

fn block(number: u32, extrinsics: Vec<Extrinsic<String, RuntimeCall>>) -> Block<Header<u32>, Extrinsic<String, RuntimeCall>> {
    Block { header: Header { block_number: number }, extrinsics }
}

fn s(text: &str) -> String {
    text.to_string()
}

#[test]
fn fresh_runtime_is_empty() {
    let runtime = Runtime::new();
    assert_eq!(runtime.system.block_number(), 0);
    assert_eq!(runtime.balances.balance(&s("alice")), 0);
    assert_eq!(runtime.proof_of_existence.get_claim(&s("doc")), None);
    assert_eq!(runtime.system.nonce(&s("alice")), None);
}

#[test]
fn three_blocks_end_to_end() {
    let mut runtime = Runtime::new();
    runtime.balances.set_balance(&s("alice"), 100);

    let r1 = runtime.execute_block(block(1, vec![transfer("alice", "bob", 30), transfer("alice", "charlie", 20)]));
    assert_eq!(r1, Ok(vec![]));
    assert_eq!(runtime.balances.balance(&s("alice")), 50);
    assert_eq!(runtime.balances.balance(&s("bob")), 30);
    assert_eq!(runtime.balances.balance(&s("charlie")), 20);
    assert_eq!(runtime.system.nonce(&s("alice")), Some(2));
    assert_eq!(runtime.system.block_number(), 1);

    let r2 = runtime.execute_block(block(2, vec![create_claim("alice", "doc"), create_claim("bob", "doc")]));
    assert_eq!(
        r2,
        Ok(vec![ExtrinsicFailure { block_number: 2, index: 1, error: DispatchError::AlreadyClaimed }])
    );
    assert_eq!(runtime.proof_of_existence.get_claim(&s("doc")), Some(&s("alice")));

    let r3 = runtime.execute_block(block(3, vec![revoke_claim("alice", "doc"), create_claim("bob", "doc")]));
    assert_eq!(r3, Ok(vec![]));
    assert_eq!(runtime.proof_of_existence.get_claim(&s("doc")), Some(&s("bob")));
    assert_eq!(runtime.system.block_number(), 3);
    assert_eq!(runtime.system.nonce(&s("alice")), Some(4));
    assert_eq!(runtime.system.nonce(&s("bob")), Some(2));
}

#[test]
fn mismatched_block_is_refused_but_advances_the_number() {
    let mut runtime = Runtime::new();
    runtime.balances.set_balance(&s("alice"), 100);

    let r = runtime.execute_block(block(5, vec![transfer("alice", "bob", 30)]));
    assert_eq!(r, Err(DispatchError::BlockNumberMismatch));
    assert_eq!(
        DispatchError::BlockNumberMismatch.message(),
        "block number does not match what is expected"
    );
    assert_eq!(runtime.system.block_number(), 1);
    assert_eq!(runtime.balances.balance(&s("alice")), 100);
    assert_eq!(runtime.balances.balance(&s("bob")), 0);
    assert_eq!(runtime.system.nonce(&s("alice")), None);

    let r = runtime.execute_block(block(1, vec![transfer("alice", "bob", 30)]));
    assert_eq!(r, Err(DispatchError::BlockNumberMismatch));
    assert_eq!(runtime.system.block_number(), 2);

    let r = runtime.execute_block(block(3, vec![transfer("alice", "bob", 30)]));
    assert_eq!(r, Ok(vec![]));
    assert_eq!(runtime.balances.balance(&s("bob")), 30);
}

#[test]
fn failed_extrinsics_still_charge_the_nonce() {
    let mut runtime = Runtime::new();
    runtime.balances.set_balance(&s("alice"), 10);

    let r = runtime.execute_block(block(
        1,
        vec![
            transfer("alice", "bob", 50),
            transfer("alice", "bob", 4),
            revoke_claim("alice", "nothing"),
            transfer("bob", "alice", 10),
        ],
    ));
    assert_eq!(
        r,
        Ok(vec![
            ExtrinsicFailure { block_number: 1, index: 0, error: DispatchError::InsufficientFunds },
            ExtrinsicFailure { block_number: 1, index: 2, error: DispatchError::NoSuchClaim },
            ExtrinsicFailure { block_number: 1, index: 3, error: DispatchError::InsufficientFunds },
        ])
    );
    assert_eq!(runtime.system.nonce(&s("alice")), Some(3));
    assert_eq!(runtime.system.nonce(&s("bob")), Some(1));
    assert_eq!(runtime.balances.balance(&s("alice")), 6);
    assert_eq!(runtime.balances.balance(&s("bob")), 4);
}

#[test]
fn empty_block_only_advances_the_number() {
    let mut runtime = Runtime::new();
    assert_eq!(runtime.execute_block(block(1, vec![])), Ok(vec![]));
    assert_eq!(runtime.system.block_number(), 1);
}

#[test]
fn runtime_dispatch_routes_to_the_pallet() {
    let mut runtime = Runtime::new();
    runtime.balances.set_balance(&s("alice"), 5);
    assert_eq!(
        runtime.dispatch(s("alice"), RuntimeCall::Balances(balances::Call::Transfer { to: s("bob"), amount: 5 })),
        Ok(())
    );
    assert_eq!(runtime.balances.balance(&s("bob")), 5);
    assert_eq!(
        runtime.dispatch(
            s("bob"),
            RuntimeCall::ProofOfExistence(proof_of_existence::Call::RevokeClaim { claim: s("doc") })
        ),
        Err(DispatchError::NoSuchClaim)
    );
    assert_eq!(runtime.system.nonce(&s("alice")), None);
}

#[test]
fn ordinary_blocks_fit_the_counters() {
    let mut runtime = Runtime::new();
    let b = block(1, vec![transfer("alice", "bob", 1), transfer("alice", "bob", 1), create_claim("bob", "doc")]);
    assert!(runtime.can_execute_block(&b));
    assert_eq!(
        runtime.execute_block(b),
        Ok(vec![
            ExtrinsicFailure { block_number: 1, index: 0, error: DispatchError::InsufficientFunds },
            ExtrinsicFailure { block_number: 1, index: 1, error: DispatchError::InsufficientFunds },
        ])
    );
    assert!(runtime.can_execute_block(&block(2, vec![])));
}
