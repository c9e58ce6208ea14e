use cdp::erc20::{Approval, Error, Transfer, ERC20Token};

#[test]
fn happy_paths() {
    let getafix: u64 = 1;
    let caesar: u64 = 3;
    let brutus: u64 = 4;

    let mut erc20 = ERC20Token::new(getafix, 1000).unwrap();
    assert_eq!(erc20.total_supply(), Ok(1000));

    // Getafix transfers a sum to Caesar
    let transfer = erc20.transfer(getafix, caesar, 500).unwrap();
    assert_eq!(transfer, Transfer { from: getafix, to: caesar, amount: 500 });

    let mut balance = erc20.balance_of(caesar).unwrap();
    assert_eq!(balance, 500);

    // Caesar gives an allowance to Brutus
    let approval = erc20.approve(caesar, brutus, 400).unwrap();
    assert_eq!(approval, Approval { sender: caesar, spender: brutus, amount: 400 });
    balance = erc20.balance_of(brutus).unwrap();
    assert_eq!(balance, 0);

    // Brutus takes some tokens from Caesar
    let transfer = erc20.transfer_from(caesar, brutus, 400).unwrap();
    assert_eq!(transfer, Transfer { from: caesar, to: brutus, amount: 400 });
    balance = erc20.balance_of(brutus).unwrap();
    assert_eq!(balance, 400);
    assert_eq!(erc20.allowance(caesar, brutus), Ok(0));
}

#[test]
fn transfer_to_self_or_of_nothing_is_empty() {
    let mut t = ERC20Token::new(1, 100).unwrap();
    assert_eq!(t.transfer(1, 1, 50), Ok(Transfer { from: 0, to: 0, amount: 0 }));
    assert_eq!(t.transfer(1, 2, 0), Ok(Transfer { from: 0, to: 0, amount: 0 }));
    assert_eq!(t.balance_of(1), Ok(100));
}

#[test]
fn transfer_beyond_balance_fails() {
    let mut t = ERC20Token::new(1, 100).unwrap();
    assert_eq!(t.transfer(1, 2, 101), Err(Error::InsufficientFunds { address: 1 }));
    assert_eq!(t.transfer_to_from(2, 1, 1), Err(Error::InsufficientFunds { address: 2 }));
    assert_eq!(t.balance_of_contract(1), Ok(100));
}

#[test]
fn transfer_from_checks_allowance() {
    let mut t = ERC20Token::new(1, 100).unwrap();
    assert_eq!(t.transfer_from(1, 2, 10), Err(Error::NoAllowanceGiven { from: 1, to: 2 }));
    t.approve(1, 2, 5).unwrap();
    assert_eq!(t.transfer_from(1, 3, 1), Err(Error::NoAllowanceGiven { from: 1, to: 3 }));
    assert_eq!(
        t.transfer_from(1, 2, 10),
        Err(Error::RequestExceedsAllowance { amount: 10, allowance: 5 })
    );
    assert_eq!(t.allowance(1, 2), Ok(5));
}

#[test]
fn admin_only_supply_changes() {
    let mut t = ERC20Token::new(1, 100).unwrap();
    assert_eq!(t.mint(2, 5), Err(Error::AdminPrivilegesRequired));
    assert_eq!(t.mint(1, 5), Ok(()));
    assert_eq!(t.total_supply(), Ok(105));
    assert_eq!(t.mint(1, u64::MAX), Err(Error::Overflow));
    assert_eq!(t.add_admin(2, 2), Err(Error::AdminPrivilegesRequired));
    assert_eq!(t.add_admin(1, 2), Ok(()));
    assert_eq!(t.add_admin(1, 2), Ok(()));
    assert_eq!(t.list_admin(), vec![1, 2]);
    assert_eq!(t.burn(2, 1, 30), Ok(()));
    assert_eq!(t.balance_of(1), Ok(70));
    assert_eq!(t.burn(1, 1, 500), Ok(()));
    assert_eq!(t.balance_of(1), Ok(0));
}

#[test]
fn faucet_pays_from_last_admin() {
    let mut t = ERC20Token::new(1, 100).unwrap();
    assert_eq!(t.faucet(7, 40), Ok(Transfer { from: 1, to: 7, amount: 40 }));
    assert_eq!(t.balance_of(7), Ok(40));
    assert_eq!(t.faucet_to_addr(8, 61), Err(Error::InsufficientFunds { address: 1 }));
    assert_eq!(t.total_supply(), Ok(161));
}
