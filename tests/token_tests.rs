use erc1155::{Address, Error, ReceiverReply, ERC1155, U256};

fn account(n: u8) -> Address {
    Address::Account([n; 32])
}

fn contract(n: u8) -> Address {
    Address::Contract([n; 32])
}

fn num(v: u64) -> U256 {
    U256::from_u64(v)
}

fn hash_zero() -> Address {
    Address::zero()
}

/// A token deployed by `owner` with an empty uri.
fn deploy() -> (ERC1155, Address) {
    let owner = account(1);
    let t = ERC1155::init(
        owner,
        "ERC1155".to_string(),
        "1155".to_string(),
        "".to_string(),
        contract(9),
        [7u8; 32],
    );
    (t, owner)
}

fn balance(t: &ERC1155, who: Address, id: u64) -> U256 {
    t.balance_of(who, num(id)).unwrap()
}

#[test]
fn erc1155_tests_test_deploy() {
    let (t, owner) = deploy();
    assert!(t.is_owner(owner));
    assert!(t.event_log().is_empty());
}

#[test]
fn test_uri() {
    let (t, _) = deploy();
    assert_eq!(t.uri(), "".to_string());
}

#[test]
fn erc1155_tests_test_is_approved_for_all() {
    let (t, owner) = deploy();
    let arg_account = owner;
    let arg_operator = hash_zero();
    assert!(!t.is_approved_for_all(arg_account, arg_operator));
}

#[test]
fn erc1155_tests_test_set_approval_for_all() {
    let (mut t, owner) = deploy();
    let operator = hash_zero();
    assert_eq!(t.set_approval_for_all(owner, operator, true), Ok(()));
    assert!(t.is_approved_for_all(owner, operator));
}

#[test]
fn mock_contract_tests_test_deploy() {
    let (t, owner) = deploy();
    assert!(t.is_minter(owner));
}

#[test]
fn test_mint() {
    let (mut t, owner) = deploy();
    let to = owner;
    let data = "0x00".as_bytes().to_vec();
    t.mint(owner, to, num(1), num(100), data).unwrap();
    assert_eq!(balance(&t, owner, 1), num(100));
}

#[test]
fn test_balance_of() {
    let (mut t, owner) = deploy();
    t.mint(owner, owner, num(2), num(50), "0x00".as_bytes().to_vec()).unwrap();
    assert_eq!(balance(&t, owner, 2), num(50));
}

#[test]
fn test_balance_of_batch() {
    let (mut t, owner) = deploy();
    let to1 = owner;
    let to2 = account(2);
    t.mint(owner, to1, num(2), num(50), "0x00".as_bytes().to_vec()).unwrap();
    t.mint(owner, to2, num(2), num(100), "0x00".as_bytes().to_vec()).unwrap();
    let ret = t.balance_of_batch(&vec![to1, to2], &vec![num(2), num(2)]).unwrap();
    assert_eq!(ret[0], num(50));
    assert_eq!(ret[1], num(100));
}

#[test]
fn mock_contract_tests_test_is_approved_for_all() {
    let (t, owner) = deploy();
    let operator = account(2);
    assert_eq!(t.is_approved_for_all(owner, operator), false);
}

#[test]
fn mock_contract_tests_test_set_approval_for_all() {
    let (mut t, owner) = deploy();
    let operator = account(2);
    t.set_approval_for_all(owner, operator, true).unwrap();
    assert_eq!(t.is_approved_for_all(owner, operator), true);
}

#[test]
fn test_safe_transfer_from() {
    let (mut t, owner) = deploy();
    let to = account(2);
    t.mint(owner, to, num(1), num(100), "0x00".as_bytes().to_vec()).unwrap();
    t.set_approval_for_all(owner, to, true).unwrap();
    let from = to;
    let transfer_to = owner;
    t.safe_transfer_from(from, from, transfer_to, num(1), num(40), "0x00".as_bytes().to_vec())
        .unwrap();
    assert_eq!(balance(&t, from, 1), num(60));
    assert_eq!(balance(&t, transfer_to, 1), num(40));
}

#[test]
fn test_safe_batch_transfer_from() {
    let (mut t, owner) = deploy();
    let to = account(2);
    t.mint(owner, to, num(1), num(100), "0x00".as_bytes().to_vec()).unwrap();
    t.mint(owner, to, num(2), num(50), "0x00".as_bytes().to_vec()).unwrap();
    t.set_approval_for_all(owner, to, true).unwrap();
    let from = to;
    let transfer_to = owner;
    let ids = vec![num(1), num(2)];
    let amounts = vec![num(20), num(10)];
    t.safe_batch_transfer_from(from, from, transfer_to, ids, amounts, "0x00".as_bytes().to_vec())
        .unwrap();
    assert_eq!(balance(&t, from, 1), num(80));
    assert_eq!(balance(&t, transfer_to, 1), num(20));
    assert_eq!(balance(&t, from, 2), num(40));
    assert_eq!(balance(&t, from, 2), num(40));
    assert_eq!(balance(&t, transfer_to, 2), num(10));
}

#[test]
fn test_burn() {
    let (mut t, owner) = deploy();
    let to = owner;
    t.mint(owner, to, num(1), num(100), "0x00".as_bytes().to_vec()).unwrap();
    t.burn(owner, to, num(1), num(50)).unwrap();
    assert_eq!(balance(&t, owner, 1), num(50));
}

#[test]
fn test_burn_batch() {
    let (mut t, owner) = deploy();
    let to = owner;
    t.mint(owner, to, num(1), num(100), "0x00".as_bytes().to_vec()).unwrap();
    t.mint(owner, to, num(2), num(50), "0x00".as_bytes().to_vec()).unwrap();
    t.burn_batch(owner, to, vec![num(1), num(2)], vec![num(20), num(10)]).unwrap();
    assert_eq!(balance(&t, to, 1), num(80));
    assert_eq!(balance(&t, to, 2), num(40));
}

#[test]
fn test_erc1155_deploy() {
    let (t, _) = deploy();
    assert_eq!(t.name(), "ERC1155".to_string());
    assert_eq!(t.symbol(), "1155".to_string());
}

#[test]
fn test_erc1155_mint() {
    let ali = account(3);
    let bob = account(6);
    let mut t = ERC1155::init(
        ali,
        "ERC1155".to_string(),
        "1155".to_string(),
        "test.io/".to_string(),
        contract(9),
        [7u8; 32],
    );
    let id = num(83);
    let id1 = num(34);
    let id2 = num(29);
    let ids = vec![id, id1, id2];
    let quantities = vec![num(200), num(200), num(200)];
    t.mint(ali, bob, id, num(100), Vec::new()).unwrap();
    assert_eq!(t.balance_of(bob, id).unwrap(), num(100));
    t.batch_mint(ali, bob, ids, quantities, Vec::new()).unwrap();
    assert_eq!(t.balance_of(bob, id).unwrap(), num(300));
    assert_eq!(t.balance_of(bob, id1).unwrap(), num(200));
}

#[test]
fn scenario_mint_transfer_burn() {
    let (mut t, owner) = deploy();
    let x = account(2);
    let y = account(3);
    t.mint(owner, x, num(1), num(100), Vec::new()).unwrap();
    assert_eq!(balance(&t, x, 1), num(100));
    t.safe_transfer_from(x, x, y, num(1), num(40), Vec::new()).unwrap();
    assert_eq!(balance(&t, x, 1), num(60));
    assert_eq!(balance(&t, y, 1), num(40));
    t.burn(y, y, num(1), num(40)).unwrap();
    assert_eq!(balance(&t, y, 1), num(0));
    assert_eq!(t.burn(y, y, num(1), num(1)), Err(Error::BurnAmountExceedsBalance));
}

#[test]
fn balance_of_batch_mismatched_lengths() {
    let (t, _) = deploy();
    let r = t.balance_of_batch(&vec![account(2), account(3)], &vec![num(1)]);
    assert_eq!(r, Err(Error::MismatchedLengths));
}

#[test]
fn balance_of_batch_zero_owner() {
    let (t, _) = deploy();
    let r = t.balance_of_batch(&vec![account(2), hash_zero()], &vec![num(1), num(1)]);
    assert_eq!(r, Err(Error::InvalidOwner));
}

#[test]
fn balance_of_zero_owner() {
    let (t, _) = deploy();
    assert_eq!(t.balance_of(hash_zero(), num(1)), Err(Error::InvalidOwner));
}

#[test]
fn unseen_balance_is_zero() {
    let (t, _) = deploy();
    assert_eq!(balance(&t, account(5), 77), num(0));
}

#[test]
fn transfer_conserves_sum() {
    let (mut t, owner) = deploy();
    let (a, b) = (account(2), account(3));
    t.mint(owner, a, num(5), num(70), Vec::new()).unwrap();
    t.mint(owner, b, num(5), num(30), Vec::new()).unwrap();
    t.safe_transfer_from(a, a, b, num(5), num(25), Vec::new()).unwrap();
    assert_eq!(balance(&t, a, 5), num(45));
    assert_eq!(balance(&t, b, 5), num(55));
}

#[test]
fn self_transfer_changes_nothing_but_logs() {
    let (mut t, owner) = deploy();
    let a = account(2);
    t.mint(owner, a, num(5), num(70), Vec::new()).unwrap();
    t.safe_transfer_from(a, a, a, num(5), num(25), Vec::new()).unwrap();
    assert_eq!(balance(&t, a, 5), num(70));
    assert_eq!(t.event_log().len(), 2);
}

#[test]
fn mint_adds_amount() {
    let (mut t, owner) = deploy();
    let a = account(2);
    t.mint(owner, a, num(5), num(70), Vec::new()).unwrap();
    t.mint(owner, a, num(5), num(1), Vec::new()).unwrap();
    assert_eq!(balance(&t, a, 5), num(71));
}

#[test]
fn burn_removes_amount() {
    let (mut t, owner) = deploy();
    let a = account(2);
    t.mint(owner, a, num(5), num(70), Vec::new()).unwrap();
    t.burn(a, a, num(5), num(69)).unwrap();
    assert_eq!(balance(&t, a, 5), num(1));
}

#[test]
fn batch_mint_overflow_changes_nothing() {
    let (mut t, owner) = deploy();
    let to = account(2);
    t.mint(owner, to, num(2), num(1), Vec::new()).unwrap();
    let r = t.batch_mint(owner, to, vec![num(1), num(2)], vec![num(100), U256::max_value()], Vec::new());
    assert_eq!(r.unwrap_err(), Error::Overflow);
    assert_eq!(balance(&t, to, 1), num(0));
    assert_eq!(balance(&t, to, 2), num(1));
    assert_eq!(t.event_log().len(), 1);
}

#[test]
fn batch_transfer_failure_changes_nothing() {
    let (mut t, owner) = deploy();
    let (a, b) = (account(2), account(3));
    t.mint(owner, a, num(1), num(10), Vec::new()).unwrap();
    t.mint(owner, a, num(2), num(10), Vec::new()).unwrap();
    let r = t.safe_batch_transfer_from(a, a, b, vec![num(1), num(2)], vec![num(5), num(11)], Vec::new());
    assert_eq!(r.unwrap_err(), Error::InsufficientBalance);
    assert_eq!(balance(&t, a, 1), num(10));
    assert_eq!(balance(&t, b, 1), num(0));
    assert_eq!(balance(&t, a, 2), num(10));
}

#[test]
fn batch_transfer_repeated_id_uses_running_balance() {
    let (mut t, owner) = deploy();
    let (a, b) = (account(2), account(3));
    t.mint(owner, a, num(1), num(10), Vec::new()).unwrap();
    let r = t.safe_batch_transfer_from(a, a, b, vec![num(1), num(1)], vec![num(6), num(6)], Vec::new());
    assert_eq!(r.unwrap_err(), Error::InsufficientBalance);
    t.safe_batch_transfer_from(a, a, b, vec![num(1), num(1)], vec![num(6), num(4)], Vec::new())
        .unwrap();
    assert_eq!(balance(&t, a, 1), num(0));
    assert_eq!(balance(&t, b, 1), num(10));
}

#[test]
fn burn_batch_failure_changes_nothing() {
    let (mut t, owner) = deploy();
    t.mint(owner, owner, num(1), num(10), Vec::new()).unwrap();
    let r = t.burn_batch(owner, owner, vec![num(1), num(2)], vec![num(5), num(1)]);
    assert_eq!(r, Err(Error::BurnAmountExceedsBalance));
    assert_eq!(balance(&t, owner, 1), num(10));
}

#[test]
fn unauthorized_transfer_fails() {
    let (mut t, owner) = deploy();
    let (a, b, c) = (account(2), account(3), account(4));
    t.mint(owner, a, num(1), num(10), Vec::new()).unwrap();
    let r = t.safe_transfer_from(c, a, b, num(1), num(5), Vec::new());
    assert_eq!(r.unwrap_err(), Error::NotOwnerNorApproved);
    let r = t.safe_batch_transfer_from(c, a, b, vec![num(1)], vec![num(5)], Vec::new());
    assert_eq!(r.unwrap_err(), Error::NotOwnerNorApproved);
    assert_eq!(balance(&t, a, 1), num(10));
    assert_eq!(balance(&t, b, 1), num(0));
}

#[test]
fn approved_operator_may_transfer() {
    let (mut t, owner) = deploy();
    let (a, b, c) = (account(2), account(3), account(4));
    t.mint(owner, a, num(1), num(10), Vec::new()).unwrap();
    t.set_approval_for_all(a, c, true).unwrap();
    t.safe_transfer_from(c, a, b, num(1), num(5), Vec::new()).unwrap();
    assert_eq!(balance(&t, b, 1), num(5));
    t.set_approval_for_all(a, c, false).unwrap();
    let r = t.safe_transfer_from(c, a, b, num(1), num(5), Vec::new());
    assert_eq!(r.unwrap_err(), Error::NotOwnerNorApproved);
}

#[test]
fn self_approval_fails() {
    let (mut t, _) = deploy();
    let a = account(2);
    assert_eq!(t.set_approval_for_all(a, a, true), Err(Error::SettingApprovalForSelf));
    assert!(!t.is_approved_for_all(a, a));
    assert!(t.event_log().is_empty());
}

#[test]
fn repeated_reads_agree() {
    let (mut t, owner) = deploy();
    t.mint(owner, owner, num(1), num(10), Vec::new()).unwrap();
    let first = t.balance_of(owner, num(1));
    let second = t.balance_of(owner, num(1));
    assert_eq!(first, second);
}

#[test]
fn transfer_to_zero_fails() {
    let (mut t, owner) = deploy();
    t.mint(owner, owner, num(1), num(10), Vec::new()).unwrap();
    let r = t.safe_transfer_from(owner, owner, hash_zero(), num(1), num(1), Vec::new());
    assert_eq!(r.unwrap_err(), Error::TransferToZeroAddress);
    let r = t.safe_batch_transfer_from(owner, owner, hash_zero(), vec![num(1)], vec![num(1)], Vec::new());
    assert_eq!(r.unwrap_err(), Error::TransferToZeroAddress);
}

#[test]
fn insufficient_balance_fails() {
    let (mut t, owner) = deploy();
    let r = t.safe_transfer_from(owner, owner, account(2), num(1), num(1), Vec::new());
    assert_eq!(r.unwrap_err(), Error::InsufficientBalance);
}

#[test]
fn batch_transfer_mismatched_lengths() {
    let (mut t, owner) = deploy();
    let r = t.safe_batch_transfer_from(owner, owner, account(2), vec![num(1)], vec![], Vec::new());
    assert_eq!(r.unwrap_err(), Error::MismatchedLengths);
    let r = t.batch_mint(owner, account(2), vec![num(1)], vec![], Vec::new());
    assert_eq!(r.unwrap_err(), Error::MismatchedLengths);
    assert_eq!(t.burn_batch(owner, owner, vec![], vec![num(1)]), Err(Error::MismatchedLengths));
}

#[test]
fn mint_to_zero_fails() {
    let (mut t, owner) = deploy();
    let r = t.mint(owner, hash_zero(), num(1), num(1), Vec::new());
    assert_eq!(r.unwrap_err(), Error::MintToZeroAddress);
    let r = t.batch_mint(owner, hash_zero(), vec![num(1)], vec![num(1)], Vec::new());
    assert_eq!(r.unwrap_err(), Error::MintToZeroAddress);
}

#[test]
fn burn_from_zero_fails() {
    let (mut t, owner) = deploy();
    assert_eq!(t.burn(owner, hash_zero(), num(1), num(0)), Err(Error::BurnFromZeroAddress));
    assert_eq!(
        t.burn_batch(owner, hash_zero(), vec![num(1)], vec![num(0)]),
        Err(Error::BurnFromZeroAddress)
    );
}

#[test]
fn burn_by_stranger_fails() {
    let (mut t, owner) = deploy();
    t.mint(owner, owner, num(1), num(10), Vec::new()).unwrap();
    assert_eq!(t.burn(account(2), owner, num(1), num(1)), Err(Error::NotOwnerNorApproved));
}

#[test]
fn mint_by_non_minter_fails() {
    let (mut t, _) = deploy();
    let r = t.mint(account(2), account(2), num(1), num(1), Vec::new());
    assert_eq!(r.unwrap_err(), Error::Unauthorized);
}

#[test]
fn minters_are_added_by_owner_only() {
    let (mut t, owner) = deploy();
    let m = account(2);
    assert_eq!(t.add_minter(m, m), Err(Error::Unauthorized));
    assert!(!t.is_minter(m));
    t.add_minter(owner, m).unwrap();
    assert!(t.is_minter(m));
    t.mint(m, m, num(1), num(3), Vec::new()).unwrap();
    assert_eq!(balance(&t, m, 1), num(3));
}

#[test]
fn mint_overflow_fails() {
    let (mut t, owner) = deploy();
    t.mint(owner, owner, num(1), U256::max_value(), Vec::new()).unwrap();
    let r = t.mint(owner, owner, num(1), num(1), Vec::new());
    assert_eq!(r.unwrap_err(), Error::Overflow);
    assert_eq!(balance(&t, owner, 1), U256::max_value());
}

#[test]
fn transfer_into_contract_asks_receiver() {
    let (mut t, owner) = deploy();
    let receiver = contract(5);
    t.mint(owner, owner, num(1), num(10), Vec::new()).unwrap();
    let call = t.safe_transfer_from(owner, owner, receiver, num(1), num(4), vec![1, 2]).unwrap().unwrap();
    assert_eq!(call.to, receiver);
    assert_eq!(call.from, owner);
    assert_eq!(call.ids, vec![num(1)]);
    assert_eq!(call.amounts, vec![num(4)]);
    assert_eq!(call.data, vec![1u8, 2]);
    assert!(!call.batch);
    assert_eq!(call.entry_point(), "on_erc1155_received");
    assert_eq!(balance(&t, receiver, 1), num(4));
    assert_eq!(call.settle(ReceiverReply::Accepted), Ok(()));
    assert_eq!(call.settle(ReceiverReply::Rejected), Err(Error::TransferRejectedByReceiver));
    assert_eq!(call.settle(ReceiverReply::Failed), Err(Error::TransferRejectedByReceiver));
}

#[test]
fn batch_mint_into_contract_asks_receiver() {
    let (mut t, owner) = deploy();
    let receiver = contract(5);
    let call = t.batch_mint(owner, receiver, vec![num(1), num(2)], vec![num(3), num(4)], Vec::new())
        .unwrap()
        .unwrap();
    assert!(call.batch);
    assert_eq!(call.from, Address::zero());
    assert_eq!(call.entry_point(), "on_erc1155_batch_received");
}

#[test]
fn transfer_to_account_asks_no_one() {
    let (mut t, owner) = deploy();
    t.mint(owner, owner, num(1), num(10), Vec::new()).unwrap();
    let call = t.safe_transfer_from(owner, owner, account(2), num(1), num(4), Vec::new()).unwrap();
    assert!(call.is_none());
}

#[test]
fn error_codes() {
    assert_eq!(Error::InvalidOwner.code(), 0);
    assert_eq!(Error::NotOwnerNorApproved.code(), 1);
    assert_eq!(Error::MismatchedLengths.code(), 4);
    assert_eq!(Error::TransferRejectedByReceiver.code(), 9);
    assert_eq!(Error::Unauthorized.code(), 10);
    assert_eq!(Error::Overflow.code(), 11);
}

#[test]
fn batch_mint_repeated_id_overflow_changes_nothing() {
    let (mut t, owner) = deploy();
    let half = U256([0, 0, 0, 1u64 << 63]);
    let r = t.batch_mint(owner, owner, vec![num(1), num(1)], vec![half, half], Vec::new());
    assert_eq!(r.unwrap_err(), Error::Overflow);
    assert_eq!(balance(&t, owner, 1), num(0));
    assert!(t.event_log().is_empty());
}

#[test]
fn burn_batch_repeated_id_beyond_balance_changes_nothing() {
    let (mut t, owner) = deploy();
    t.mint(owner, owner, num(1), num(10), Vec::new()).unwrap();
    let r = t.burn_batch(owner, owner, vec![num(1), num(1)], vec![num(6), num(5)]);
    assert_eq!(r, Err(Error::BurnAmountExceedsBalance));
    assert_eq!(balance(&t, owner, 1), num(10));
    assert_eq!(t.event_log().len(), 1);
}
