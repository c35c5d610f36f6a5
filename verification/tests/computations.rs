//! Exact-value checks for the delegated computations, run over plain
//! values exactly as the engine would run them over shares.

use lottery::zk::SecretVarId;
use lottery::zk::VariableKind;
use lottery::zk_compute::AccountBalance;
use lottery::zk_compute::AccountCreationSecret;
use lottery::zk_compute::LotteryCreationSecret;
use lottery::zk_compute::LotteryTicketPurchaseSecret;
use lottery::zk_compute::SecretLotteryState;
use lottery::zk_compute::SecretPayload;
use lottery::zk_compute::SecretVar;
use lottery::zk_compute::burn_credits;
use lottery::zk_compute::claim_winnings;
use lottery::zk_compute::create_account;
use lottery::zk_compute::create_lottery;
use lottery::zk_compute::draw_lottery_winner;
use lottery::zk_compute::find_recipient_balance;
use lottery::zk_compute::is_negative;
use lottery::zk_compute::mint_credits;
use lottery::zk_compute::purchase_lottery_ticket;

fn balance_var(id: u32, owner: u128, account_key: u128, balance: u128) -> SecretVar {
    SecretVar {
        id: SecretVarId::new(id),
        kind: VariableKind::UserAccount { owner },
        payload: SecretPayload::Balance(AccountBalance { account_key, balance }),
    }
}

fn ticket_var(
    id: u32,
    lottery_account_key: u128,
    purchaser_account_key: u128,
    tickets: u128,
    entropy: u128,
) -> SecretVar {
    SecretVar {
        id: SecretVarId::new(id),
        kind: VariableKind::LotteryTicketPurchaseSecretData { owner: 0, lottery_id: 0 },
        payload: SecretPayload::TicketPurchase(LotteryTicketPurchaseSecret {
            lottery_account_key,
            purchaser_account_key,
            tickets,
            entropy,
        }),
    }
}

#[test]
fn is_negative_reads_the_top_bit() {
    assert!(!is_negative(0));
    assert!(!is_negative(1));
    assert!(!is_negative((1u128 << 127) - 1));
    assert!(is_negative(1u128 << 127));
    assert!(is_negative(u128::MAX));
}

#[test]
fn mint_adds_to_the_balance() {
    let store = vec![balance_var(1, 10, 42, 100)];
    let updated = mint_credits(&store, SecretVarId::new(1), 25);
    assert_eq!(updated, AccountBalance { account_key: 42, balance: 125 });
}

#[test]
fn burn_with_sufficient_balance_succeeds() {
    let store = vec![balance_var(1, 10, 42, 100)];
    let (updated, result) = burn_credits(&store, SecretVarId::new(1), 40);
    assert_eq!(updated, AccountBalance { account_key: 42, balance: 60 });
    assert_eq!(result.amount, 40);
    assert!(result.successful);
}

#[test]
fn burn_with_insufficient_balance_changes_nothing() {
    let store = vec![balance_var(1, 10, 42, 30)];
    let (updated, result) = burn_credits(&store, SecretVarId::new(1), 40);
    assert_eq!(updated, AccountBalance { account_key: 42, balance: 30 });
    assert_eq!(result.amount, 40);
    assert!(!result.successful);
}

#[test]
fn find_recipient_skips_sender_and_takes_last_match() {
    let store = vec![
        balance_var(1, 10, 42, 100),
        balance_var(2, 11, 43, 7),
        balance_var(3, 12, 43, 9),
    ];
    let found = find_recipient_balance(&store, 43, SecretVarId::new(1));
    assert!(found.exists);
    assert_eq!(found.recipient_balance, AccountBalance { account_key: 43, balance: 9 });
    // the sender's own variable never matches
    let own = find_recipient_balance(&store, 42, SecretVarId::new(1));
    assert!(!own.exists);
}

#[test]
fn find_recipient_treats_zero_keys_as_missing() {
    let store = vec![balance_var(1, 10, 0, 100)];
    let found = find_recipient_balance(&store, 0, SecretVarId::new(9));
    assert!(!found.exists);
}

#[test]
fn account_creation_with_fresh_key_succeeds() {
    let store = vec![
        balance_var(1, 10, 42, 100),
        SecretVar {
            id: SecretVarId::new(2),
            kind: VariableKind::AccountCreationSecret { owner: 11, account_key: 43 },
            payload: SecretPayload::AccountCreation(AccountCreationSecret { account_key: 43 }),
        },
    ];
    let (balance, result) = create_account(&store, SecretVarId::new(2), 43);
    assert_eq!(balance, AccountBalance { account_key: 43, balance: 0 });
    assert!(result.successful);
}

#[test]
fn account_creation_with_used_key_fails() {
    let store = vec![
        balance_var(1, 10, 42, 100),
        SecretVar {
            id: SecretVarId::new(2),
            kind: VariableKind::AccountCreationSecret { owner: 11, account_key: 42 },
            payload: SecretPayload::AccountCreation(AccountCreationSecret { account_key: 42 }),
        },
    ];
    let (balance, result) = create_account(&store, SecretVarId::new(2), 42);
    assert_eq!(balance, AccountBalance { account_key: 0, balance: 0 });
    assert!(!result.successful);
}

#[test]
fn lottery_creation_moves_the_prize_pool() {
    let store = vec![
        balance_var(1, 10, 42, 100),
        SecretVar {
            id: SecretVarId::new(2),
            kind: VariableKind::LotteryCreationData { creator: 10, lottery_id: 5 },
            payload: SecretPayload::LotteryCreation(LotteryCreationSecret {
                lottery_account_key: 77,
                creator_account_key: 42,
                random_seed: 12345,
            }),
        },
    ];
    let (creator, pool, secret_state, result) =
        create_lottery(&store, SecretVarId::new(2), SecretVarId::new(1), 60);
    assert_eq!(creator, AccountBalance { account_key: 42, balance: 40 });
    assert_eq!(pool, AccountBalance { account_key: 77, balance: 60 });
    assert_eq!(secret_state, SecretLotteryState { entropy: 12345, tickets: 0 });
    assert_eq!(result.amount, 60);
    assert!(result.successful);
}

#[test]
fn lottery_creation_fails_on_insufficient_creator_balance() {
    let store = vec![
        balance_var(1, 10, 42, 10),
        SecretVar {
            id: SecretVarId::new(2),
            kind: VariableKind::LotteryCreationData { creator: 10, lottery_id: 5 },
            payload: SecretPayload::LotteryCreation(LotteryCreationSecret {
                lottery_account_key: 77,
                creator_account_key: 42,
                random_seed: 1,
            }),
        },
    ];
    let (creator, _pool, _secret_state, result) =
        create_lottery(&store, SecretVarId::new(2), SecretVarId::new(1), 60);
    assert_eq!(creator.balance, 10);
    assert!(!result.successful);
}

#[test]
fn ticket_purchase_moves_funds_and_records_entry() {
    let store = vec![
        balance_var(1, 10, 42, 100),
        balance_var(2, 10, 77, 60),
        SecretVar {
            id: SecretVarId::new(3),
            kind: VariableKind::SecretLotteryStateData { lottery_id: 5 },
            payload: SecretPayload::LotteryState(SecretLotteryState { entropy: 9, tickets: 2 }),
        },
        ticket_var(4, 77, 42, 3, 1000),
    ];
    let (purchaser, pool, lottery_state, result) = purchase_lottery_ticket(
        &store,
        SecretVarId::new(4),
        SecretVarId::new(1),
        SecretVarId::new(2),
        SecretVarId::new(3),
        5,
    );
    assert_eq!(purchaser, AccountBalance { account_key: 42, balance: 85 });
    assert_eq!(pool, AccountBalance { account_key: 77, balance: 75 });
    assert_eq!(lottery_state, SecretLotteryState { entropy: 1009, tickets: 5 });
    assert!(result.successful);
}

#[test]
fn ticket_purchase_fails_on_insufficient_balance() {
    let store = vec![
        balance_var(1, 10, 42, 10),
        balance_var(2, 10, 77, 60),
        SecretVar {
            id: SecretVarId::new(3),
            kind: VariableKind::SecretLotteryStateData { lottery_id: 5 },
            payload: SecretPayload::LotteryState(SecretLotteryState { entropy: 9, tickets: 2 }),
        },
        ticket_var(4, 77, 42, 3, 1000),
    ];
    let (purchaser, pool, lottery_state, result) = purchase_lottery_ticket(
        &store,
        SecretVarId::new(4),
        SecretVarId::new(1),
        SecretVarId::new(2),
        SecretVarId::new(3),
        5,
    );
    assert_eq!(purchaser.balance, 10);
    assert_eq!(pool.balance, 60);
    assert_eq!(lottery_state, SecretLotteryState { entropy: 9, tickets: 2 });
    assert!(!result.successful);
}

#[test]
fn draw_picks_the_ticket_holding_the_winning_index() {
    // Tickets: 2 for key 42 (indices 0-1), 3 for key 43 (indices 2-4).
    let store = vec![
        SecretVar {
            id: SecretVarId::new(1),
            kind: VariableKind::SecretLotteryStateData { lottery_id: 5 },
            payload: SecretPayload::LotteryState(SecretLotteryState { entropy: 9, tickets: 5 }),
        },
        balance_var(2, 10, 77, 80),
        balance_var(3, 10, 42, 0),
        ticket_var(4, 77, 42, 2, 1),
        ticket_var(5, 77, 43, 3, 2),
    ];
    let (pool, creator, result) = draw_lottery_winner(
        &store,
        SecretVarId::new(1),
        SecretVarId::new(2),
        SecretVarId::new(3),
        5,
        60,
        3,
    );
    assert!(result.successful);
    assert_eq!(result.winner_id, 43);
    assert_eq!(result.lottery_id, 77);
    // the balance beyond the prize pool went back to the creator
    assert_eq!(pool.balance, 60);
    assert_eq!(creator.balance, 20);
}

#[test]
fn draw_with_zero_tickets_fails_and_refunds_creator() {
    let store = vec![
        SecretVar {
            id: SecretVarId::new(1),
            kind: VariableKind::SecretLotteryStateData { lottery_id: 5 },
            payload: SecretPayload::LotteryState(SecretLotteryState { entropy: 9, tickets: 0 }),
        },
        balance_var(2, 10, 77, 60),
        balance_var(3, 10, 42, 5),
    ];
    let (pool, creator, result) = draw_lottery_winner(
        &store,
        SecretVarId::new(1),
        SecretVarId::new(2),
        SecretVarId::new(3),
        5,
        60,
        0,
    );
    assert!(!result.successful);
    assert_eq!(result.winner_id, 0);
    assert_eq!(pool.balance, 0);
    assert_eq!(creator.balance, 65);
}

#[test]
fn claim_moves_the_whole_pool_to_the_winner() {
    let store = vec![balance_var(1, 10, 77, 60), balance_var(2, 11, 43, 5)];
    let (winner, pool) = claim_winnings(&store, SecretVarId::new(1), SecretVarId::new(2));
    assert_eq!(winner, AccountBalance { account_key: 43, balance: 65 });
    assert_eq!(pool, AccountBalance { account_key: 77, balance: 0 });
}
