use escrow_contracts::address::Address;
use escrow_contracts::crowdfunding::{CrowdfundingContract, DataKey, EscrowError};
use escrow_contracts::ledger::{LedgerError, TokenLedger};

const ESCROW: u64 = 1;
const RECIPIENT: u64 = 2;
const TOKEN: u64 = 3;
const DONOR_A: u64 = 10;
const DONOR_B: u64 = 11;

fn configured() -> CrowdfundingContract {
    let mut c = CrowdfundingContract::new(Address::new(ESCROW));
    assert_eq!(c.initialize(Address::new(RECIPIENT), Address::new(TOKEN)), Ok(()));
    c
}

fn funded_ledger() -> TokenLedger {
    let mut l = TokenLedger::new();
    assert_eq!(l.mint(Address::new(DONOR_A), 1000), Ok(()));
    assert_eq!(l.mint(Address::new(DONOR_B), 1000), Ok(()));
    l
}

#[test]
fn test_crowdfunding_contract() {
    let token_address = Address::new(0x5a3e);
    let recipient_address = Address::new(0x0c42);
    let mut client = CrowdfundingContract::new(Address::new(ESCROW));
    assert_eq!(client.initialize(recipient_address, token_address), Ok(()));
    assert_eq!(client.recipient(), Ok(recipient_address));
    assert_eq!(client.token(), Ok(token_address));
}

#[test]
fn second_initialize_fails_and_keeps_configuration() {
    let mut c = configured();
    assert_eq!(
        c.initialize(Address::new(99), Address::new(98)),
        Err(EscrowError::AlreadyInitialized)
    );
    assert_eq!(c.recipient(), Ok(Address::new(RECIPIENT)));
    assert_eq!(c.token(), Ok(Address::new(TOKEN)));
    assert!(c.has(DataKey::AcceptedToken));
    assert!(c.has(DataKey::DonationsRecipient));
}

#[test]
fn operations_before_initialize_fail() {
    let c = CrowdfundingContract::new(Address::new(ESCROW));
    let mut ledger = funded_ledger();
    let auths = vec![Address::new(DONOR_A)];
    assert!(!c.has(DataKey::AcceptedToken));
    assert_eq!(
        c.donate(&mut ledger, &auths, Address::new(DONOR_A), 10),
        Err(EscrowError::NotInitialized)
    );
    assert_eq!(c.withdraw(&mut ledger), Err(EscrowError::NotInitialized));
    assert_eq!(c.token(), Err(EscrowError::NotInitialized));
    assert_eq!(c.recipient(), Err(EscrowError::NotInitialized));
    assert_eq!(c.contract_balance(&ledger), Err(EscrowError::NotInitialized));
    assert_eq!(ledger.balance_of(Address::new(DONOR_A)), 1000);
}

#[test]
fn donate_without_authorization_fails() {
    let c = configured();
    let mut ledger = funded_ledger();
    let auths = vec![Address::new(DONOR_B)];
    assert_eq!(
        c.donate(&mut ledger, &auths, Address::new(DONOR_A), 10),
        Err(EscrowError::Unauthorized)
    );
    assert_eq!(ledger.balance_of(Address::new(DONOR_A)), 1000);
    assert_eq!(c.contract_balance(&ledger), Ok(0));
}

#[test]
fn donate_adds_to_balance() {
    let c = configured();
    let mut ledger = funded_ledger();
    let auths = vec![Address::new(DONOR_A)];
    assert_eq!(c.donate(&mut ledger, &auths, Address::new(DONOR_A), 40), Ok(()));
    assert_eq!(c.contract_balance(&ledger), Ok(40));
    assert_eq!(c.donate(&mut ledger, &auths, Address::new(DONOR_A), 2), Ok(()));
    assert_eq!(c.contract_balance(&ledger), Ok(42));
    assert_eq!(ledger.balance_of(Address::new(DONOR_A)), 958);
}

#[test]
fn donate_beyond_balance_fails() {
    let c = configured();
    let mut ledger = funded_ledger();
    let auths = vec![Address::new(DONOR_A)];
    assert_eq!(
        c.donate(&mut ledger, &auths, Address::new(DONOR_A), 1001),
        Err(EscrowError::TransferFailed)
    );
    assert_eq!(ledger.balance_of(Address::new(DONOR_A)), 1000);
    assert_eq!(c.contract_balance(&ledger), Ok(0));
}

#[test]
fn donate_negative_amount_fails() {
    let c = configured();
    let mut ledger = funded_ledger();
    let auths = vec![Address::new(DONOR_A)];
    assert_eq!(
        c.donate(&mut ledger, &auths, Address::new(DONOR_A), -5),
        Err(EscrowError::InvalidAmount)
    );
    assert_eq!(
        c.donate(&mut ledger, &auths, Address::new(DONOR_A), 0),
        Err(EscrowError::InvalidAmount)
    );
    assert_eq!(ledger.balance_of(Address::new(DONOR_A)), 1000);
    assert_eq!(c.contract_balance(&ledger), Ok(0));
}

#[test]
fn donate_and_withdraw_scenario() {
    let c = configured();
    let mut ledger = funded_ledger();
    let auths = vec![Address::new(DONOR_A), Address::new(DONOR_B)];
    let before = ledger.balance_of(Address::new(RECIPIENT));
    assert_eq!(c.donate(&mut ledger, &auths, Address::new(DONOR_A), 100), Ok(()));
    assert_eq!(c.donate(&mut ledger, &auths, Address::new(DONOR_B), 50), Ok(()));
    assert_eq!(c.contract_balance(&ledger), Ok(150));
    assert_eq!(c.withdraw(&mut ledger), Ok(()));
    assert_eq!(c.contract_balance(&ledger), Ok(0));
    assert_eq!(ledger.balance_of(Address::new(RECIPIENT)), before + 150);
}

#[test]
fn second_withdraw_is_a_no_op() {
    let c = configured();
    let mut ledger = funded_ledger();
    let auths = vec![Address::new(DONOR_A)];
    assert_eq!(c.donate(&mut ledger, &auths, Address::new(DONOR_A), 70), Ok(()));
    assert_eq!(c.withdraw(&mut ledger), Ok(()));
    assert_eq!(ledger.balance_of(Address::new(RECIPIENT)), 70);
    assert_eq!(c.withdraw(&mut ledger), Ok(()));
    assert_eq!(ledger.balance_of(Address::new(RECIPIENT)), 70);
    assert_eq!(c.contract_balance(&ledger), Ok(0));
}

#[test]
fn withdraw_overflowing_recipient_fails() {
    let c = configured();
    let mut ledger = funded_ledger();
    assert_eq!(ledger.mint(Address::new(RECIPIENT), i128::MAX), Ok(()));
    let auths = vec![Address::new(DONOR_A)];
    assert_eq!(c.donate(&mut ledger, &auths, Address::new(DONOR_A), 5), Ok(()));
    assert_eq!(c.withdraw(&mut ledger), Err(EscrowError::TransferFailed));
    assert_eq!(c.contract_balance(&ledger), Ok(5));
}

#[test]
fn ledger_transfer_errors() {
    let mut ledger = funded_ledger();
    let a = Address::new(DONOR_A);
    let b = Address::new(DONOR_B);
    assert_eq!(ledger.transfer(a, b, -1), Err(LedgerError::NegativeAmount));
    assert_eq!(ledger.transfer(a, b, 1001), Err(LedgerError::InsufficientBalance));
    assert_eq!(ledger.mint(b, i128::MAX), Err(LedgerError::Overflow));
    assert_eq!(ledger.mint(b, -3), Err(LedgerError::NegativeAmount));
    assert_eq!(ledger.transfer(a, b, 300), Ok(()));
    assert_eq!(ledger.balance_of(a), 700);
    assert_eq!(ledger.balance_of(b), 1300);
    assert_eq!(ledger.transfer(a, a, 700), Ok(()));
    assert_eq!(ledger.balance_of(a), 700);
    assert_eq!(ledger.balance_of(Address::new(77)), 0);
}
