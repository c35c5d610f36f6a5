//! Plain-value model of the delegated confidential computations.
//!
//! The engine executes these computations over secret-shared values; the
//! orchestrator never sees the cleartext.  Here each computation is stated
//! over the plain values the shares stand for, so the arithmetic the engine
//! is asked to perform — balance updates, ticket counting, winner selection
//! — is itself verified.  Share arithmetic wraps modulo `2^128`, and a
//! "negative" value is one with the top bit set, exactly as a two's
//! complement reading of the shares would have it.

use vstd::prelude::*;

use crate::zk::SecretVarId;
use crate::zk::VariableKind;

verus! {

/// Balance record for either a user account or a lottery account.
#[derive(Clone, Copy, PartialEq, Eq, Structural, Debug)]
pub struct AccountBalance {
    /// Secret key identifying the account.
    pub account_key: u128,
    /// Current token balance.
    pub balance: u128,
}

/// The private state of a lottery: the entropy that will pick the winner
/// and the number of tickets sold.
#[derive(Clone, Copy, PartialEq, Eq, Structural, Debug)]
pub struct SecretLotteryState {
    /// Accumulated random seed.
    pub entropy: u128,
    /// Total tickets sold.
    pub tickets: u128,
}

/// Secret input provided when creating a user account.
#[derive(Clone, Copy, PartialEq, Eq, Structural, Debug)]
pub struct AccountCreationSecret {
    /// Key under which the new account will be reachable.
    pub account_key: u128,
}

/// Secret input provided when creating a lottery.
#[derive(Clone, Copy, PartialEq, Eq, Structural, Debug)]
pub struct LotteryCreationSecret {
    /// Key for the new lottery account.
    pub lottery_account_key: u128,
    /// Key of the creator's account.
    pub creator_account_key: u128,
    /// Seed contributed to the lottery's entropy.
    pub random_seed: u128,
}

/// Secret input provided when purchasing tickets.
#[derive(Clone, Copy, PartialEq, Eq, Structural, Debug)]
pub struct LotteryTicketPurchaseSecret {
    /// Key of the lottery being entered.
    pub lottery_account_key: u128,
    /// Key of the purchasing account.
    pub purchaser_account_key: u128,
    /// Number of tickets to purchase.
    pub tickets: u128,
    /// Entropy contributed by the purchaser.
    pub entropy: u128,
}

/// Secret result of a credit or account computation.
#[derive(Clone, Copy, PartialEq, Eq, Structural, Debug)]
pub struct ComputationResult {
    /// Tokens the computation effected or tried to effect.
    pub amount: u128,
    /// Whether the computation succeeded.
    pub successful: bool,
}

/// Publicly revealed form of [`ComputationResult`].
#[derive(Clone, Copy, PartialEq, Eq, Structural, Debug)]
pub struct ComputationResultPub {
    /// Tokens the computation effected or tried to effect.
    pub amount: u128,
    /// Whether the computation succeeded.
    pub successful: bool,
}

/// Secret result of a winner draw.
#[derive(Clone, Copy, PartialEq, Eq, Structural, Debug)]
pub struct DrawResult {
    /// Key of the lottery account the draw ran over.
    pub lottery_id: u128,
    /// The winner's account key, or `0` if the draw failed.
    pub winner_id: u128,
    /// Whether a winner was drawn.
    pub successful: bool,
}

/// Publicly revealed form of [`DrawResult`].
#[derive(Clone, Copy, PartialEq, Eq, Structural, Debug)]
pub struct DrawResultPub {
    /// Key of the lottery account the draw ran over.
    pub lottery_id: u128,
    /// The winner's account key, or `0` if the draw failed.
    pub winner_id: u128,
    /// Whether a winner was drawn.
    pub successful: bool,
}

/// Publicly revealed form of [`SecretLotteryState`].
#[derive(Clone, Copy, PartialEq, Eq, Structural, Debug)]
pub struct SecretLotteryStatePub {
    /// Accumulated random seed.
    pub entropy: u128,
    /// Total tickets sold.
    pub tickets: u128,
}

/// One secret variable as the engine's computations see it: its identifier,
/// its metadata kind, and the plain value its shares stand for.
#[derive(Clone, Copy, PartialEq, Eq, Structural, Debug)]
pub struct SecretVar {
    pub id: SecretVarId,
    pub kind: VariableKind,
    pub payload: SecretPayload,
}

/// The plain value behind a secret variable's shares.
#[derive(Clone, Copy, PartialEq, Eq, Structural, Debug)]
pub enum SecretPayload {
    /// A user or lottery account balance.
    Balance(AccountBalance),
    /// A lottery's private state.
    LotteryState(SecretLotteryState),
    /// An account-creation input.
    AccountCreation(AccountCreationSecret),
    /// A lottery-creation input.
    LotteryCreation(LotteryCreationSecret),
    /// A ticket-purchase input.
    TicketPurchase(LotteryTicketPurchaseSecret),
}

/// The first variable carrying `id`, if any.
pub open spec fn lookup_secret(vars: Seq<SecretVar>, id: SecretVarId) -> Option<SecretVar>
    decreases vars.len(),
{
    if vars.len() == 0 {
        None
    } else if vars[0].id == id {
        Some(vars[0])
    } else {
        lookup_secret(vars.drop_first(), id)
    }
}

/// Every variable's payload matches its metadata kind.
pub open spec fn store_ok(vars: Seq<SecretVar>) -> bool {
    forall|i: int| 0 <= i < vars.len() ==> payload_matches(#[trigger] vars[i])
}

/// A variable's payload matches its metadata kind.
pub open spec fn payload_matches(v: SecretVar) -> bool {
    match v.kind {
        VariableKind::UserAccount { .. } => v.payload is Balance,
        VariableKind::LotteryAccount { .. } => v.payload is Balance,
        VariableKind::SecretLotteryStateData { .. } => v.payload is LotteryState,
        VariableKind::LotteryTicketPurchaseSecretData { .. } => v.payload is TicketPurchase,
        _ => true,
    }
}

/// The balance payload of a variable, defaulting to an empty record.
pub open spec fn balance_of(v: SecretVar) -> AccountBalance {
    match v.payload {
        SecretPayload::Balance(b) => b,
        _ => AccountBalance { account_key: 0, balance: 0 },
    }
}

/// The lottery-state payload of a variable, defaulting to an empty record.
pub open spec fn lottery_state_of(v: SecretVar) -> SecretLotteryState {
    match v.payload {
        SecretPayload::LotteryState(s) => s,
        _ => SecretLotteryState { entropy: 0, tickets: 0 },
    }
}

/// The account-creation payload of a variable.
pub open spec fn creation_secret_of(v: SecretVar) -> AccountCreationSecret {
    match v.payload {
        SecretPayload::AccountCreation(s) => s,
        _ => AccountCreationSecret { account_key: 0 },
    }
}

/// The lottery-creation payload of a variable.
pub open spec fn lottery_creation_of(v: SecretVar) -> LotteryCreationSecret {
    match v.payload {
        SecretPayload::LotteryCreation(s) => s,
        _ => LotteryCreationSecret { lottery_account_key: 0, creator_account_key: 0, random_seed: 0 },
    }
}

/// The ticket-purchase payload of a variable.
pub open spec fn ticket_secret_of(v: SecretVar) -> LotteryTicketPurchaseSecret {
    match v.payload {
        SecretPayload::TicketPurchase(s) => s,
        _ => LotteryTicketPurchaseSecret {
            lottery_account_key: 0,
            purchaser_account_key: 0,
            tickets: 0,
            entropy: 0,
        },
    }
}

/// Look a secret variable up by its identifier.
pub fn load_secret(store: &Vec<SecretVar>, id: SecretVarId) -> (r: &SecretVar)
    requires
        lookup_secret(store@, id) is Some,
    ensures
        Some(*r) == lookup_secret(store@, id),
{
    let mut i: usize = 0;
    proof {
        assert(store@.skip(0) =~= store@);
    }
    while i < store.len()
        invariant
            0 <= i <= store@.len(),
            lookup_secret(store@.skip(i as int), id) == lookup_secret(store@, id),
        decreases store@.len() - i,
    {
        if store[i].id.raw_id == id.raw_id {
            proof {
                assert(store@.skip(i as int)[0] == store@[i as int]);
            }
            return &store[i];
        }
        proof {
            assert(store@.skip(i as int).drop_first() =~= store@.skip(i as int + 1));
        }
        i = i + 1;
    }
    proof {
        assert(store@.skip(i as int).len() == 0);
    }
    unreached()
}

/// A value's kind marks it as an account balance — of a user or of a
/// lottery.
pub open spec fn is_account_balance_kind(kind: VariableKind) -> bool {
    kind is UserAccount || kind is LotteryAccount
}

/// Whether the given variable holds an account balance.
pub fn is_account_balance(variable: &SecretVar) -> (r: bool)
    ensures
        r == is_account_balance_kind(variable.kind),
{
    match variable.kind {
        VariableKind::UserAccount { .. } => true,
        VariableKind::LotteryAccount { .. } => true,
        _ => false,
    }
}

/// A share value read as a two's complement number is negative exactly when
/// its top bit is set.
pub open spec fn spec_is_negative(x: u128) -> bool {
    x >= 0x80000000000000000000000000000000u128
}

/// Whether `x` would be negative if read as a signed value.
pub fn is_negative(x: u128) -> (r: bool)
    ensures
        r == spec_is_negative(x),
{
    let r = (x >> 127) == 1;
    proof {
        assert((x >> 127 == 1) == (x >= 0x80000000000000000000000000000000u128)) by (bit_vector);
    }
    r
}

/// Balance of a sought account, and whether it exists at all.
#[derive(Clone, Copy, PartialEq, Eq, Structural, Debug)]
pub struct RecipientBalance {
    /// Whether a balance under the key was found.
    pub exists: bool,
    /// The balance found, or an empty record under the sought key.
    pub recipient_balance: AccountBalance,
}

/// One step of the balance scan: a later matching balance overwrites an
/// earlier one; the sender's own variable never matches.
pub open spec fn recipient_scan(
    vars: Seq<SecretVar>,
    account_key: u128,
    sender_balance_id: SecretVarId,
    acc: RecipientBalance,
) -> RecipientBalance
    decreases vars.len(),
{
    if vars.len() == 0 {
        acc
    } else {
        let prev = recipient_scan(vars.drop_last(), account_key, sender_balance_id, acc);
        let v = vars.last();
        if is_account_balance_kind(v.kind) && v.id != sender_balance_id && balance_of(
            v,
        ).account_key == account_key {
            RecipientBalance { exists: true, recipient_balance: balance_of(v) }
        } else {
            prev
        }
    }
}

/// The balance found for `account_key`, with all-zero keys treated as
/// non-existent.
pub open spec fn spec_find_recipient_balance(
    vars: Seq<SecretVar>,
    account_key: u128,
    sender_balance_id: SecretVarId,
) -> RecipientBalance {
    let scanned = recipient_scan(
        vars,
        account_key,
        sender_balance_id,
        RecipientBalance {
            exists: false,
            recipient_balance: AccountBalance { account_key, balance: 0 },
        },
    );
    if scanned.recipient_balance.account_key == 0 {
        RecipientBalance { exists: false, ..scanned }
    } else {
        scanned
    }
}

/// Find the balance stored under `account_key`, skipping the sender's own
/// variable; `exists` is true exactly when one was found and its key is not
/// zero.
pub fn find_recipient_balance(
    store: &Vec<SecretVar>,
    account_key: u128,
    sender_balance_id: SecretVarId,
) -> (r: RecipientBalance)
    requires
        store_ok(store@),
    ensures
        r == spec_find_recipient_balance(store@, account_key, sender_balance_id),
{
    let ghost init = RecipientBalance {
        exists: false,
        recipient_balance: AccountBalance { account_key, balance: 0 },
    };
    let mut recipient_balance = RecipientBalance {
        exists: false,
        recipient_balance: AccountBalance { account_key, balance: 0 },
    };
    let mut i: usize = 0;
    while i < store.len()
        invariant
            0 <= i <= store@.len(),
            recipient_balance == recipient_scan(
                store@.take(i as int),
                account_key,
                sender_balance_id,
                init,
            ),
        decreases store@.len() - i,
    {
        let v = &store[i];
        if is_account_balance(v) {
            let is_sender = sender_balance_id.raw_id == v.id.raw_id;
            if !is_sender {
                match &v.payload {
                    SecretPayload::Balance(balance) => {
                        if balance.account_key == account_key {
                            recipient_balance = RecipientBalance {
                                exists: true,
                                recipient_balance: *balance,
                            };
                        }
                    },
                    _ => {},
                }
            }
        }
        proof {
            assert(store@.take(i as int + 1).drop_last() =~= store@.take(i as int));
            assert(store@.take(i as int + 1).last() == store@[i as int]);
        }
        i = i + 1;
    }
    proof {
        assert(store@.take(store@.len() as int) =~= store@);
    }
    if recipient_balance.recipient_balance.account_key == 0 {
        recipient_balance = RecipientBalance { exists: false, ..recipient_balance };
    }
    recipient_balance
}

/// Initialize a new account under the inputted secret key.
///
/// If the key is already in use — or is zero — the account is created under
/// key zero instead and the result is unsuccessful.
pub fn create_account(
    store: &Vec<SecretVar>,
    account_creation_id: SecretVarId,
    _account_key: u128,
) -> (r: (AccountBalance, ComputationResult))
    requires
        store_ok(store@),
        lookup_secret(store@, account_creation_id) matches Some(v) && v.payload
            is AccountCreation,
    ensures
        ({
            let secret = creation_secret_of(lookup_secret(store@, account_creation_id).unwrap());
            let found = spec_find_recipient_balance(
                store@,
                secret.account_key,
                account_creation_id,
            );
            let chosen = if found.exists {
                0u128
            } else {
                secret.account_key
            };
            &&& r.0 == (AccountBalance { account_key: chosen, balance: 0 })
            &&& r.1 == (ComputationResult { amount: 0, successful: chosen == secret.account_key })
        }),
{
    let account_details = match &load_secret(store, account_creation_id).payload {
        SecretPayload::AccountCreation(s) => *s,
        _ => unreached(),
    };
    let recipient_balance = find_recipient_balance(
        store,
        account_details.account_key,
        account_creation_id,
    );
    let account_key = if recipient_balance.exists {
        0u128
    } else {
        account_details.account_key
    };
    (
        AccountBalance { account_key, balance: 0 },
        ComputationResult { amount: 0, successful: account_key == account_details.account_key },
    )
}

/// Add the purchased amount to the balance.  Share arithmetic wraps.
pub fn mint_credits(store: &Vec<SecretVar>, sender_balance_id: SecretVarId, amount: u128) -> (r:
    AccountBalance)
    requires
        lookup_secret(store@, sender_balance_id) matches Some(v) && v.payload is Balance,
    ensures
        ({
            let b = balance_of(lookup_secret(store@, sender_balance_id).unwrap());
            r == (AccountBalance {
                account_key: b.account_key,
                balance: vstd::wrapping::u128_specs::wrapping_add(b.balance, amount),
            })
        }),
{
    let mut sender_balance = match &load_secret(store, sender_balance_id).payload {
        SecretPayload::Balance(b) => *b,
        _ => unreached(),
    };
    sender_balance.balance = sender_balance.balance.wrapping_add(amount);
    sender_balance
}

/// Subtract the redeemed amount from the balance, if it covers it; an
/// insufficient balance leaves the account untouched and reports failure.
pub fn burn_credits(store: &Vec<SecretVar>, balance_id: SecretVarId, amount: u128) -> (r: (
    AccountBalance,
    ComputationResult,
))
    requires
        lookup_secret(store@, balance_id) matches Some(v) && v.payload is Balance,
    ensures
        ({
            let b = balance_of(lookup_secret(store@, balance_id).unwrap());
            let diff = vstd::wrapping::u128_specs::wrapping_sub(b.balance, amount);
            if !spec_is_negative(diff) {
                &&& r.0 == (AccountBalance { account_key: b.account_key, balance: diff })
                &&& r.1 == (ComputationResult { amount, successful: true })
            } else {
                &&& r.0 == b
                &&& r.1 == (ComputationResult { amount, successful: false })
            }
        }),
{
    let mut balance = match &load_secret(store, balance_id).payload {
        SecretPayload::Balance(b) => *b,
        _ => unreached(),
    };
    let mut successful = false;
    if !is_negative(balance.balance.wrapping_sub(amount)) {
        balance.balance = balance.balance.wrapping_sub(amount);
        successful = true;
    }
    (balance, ComputationResult { amount, successful })
}

/// Move the prize pool from the creator into a fresh lottery account.
///
/// Succeeds only when the lottery account key is fresh and positive and the
/// creator's balance covers the prize pool; the lottery balance record
/// carries the prize pool either way, under key zero on a collision.
pub fn create_lottery(
    store: &Vec<SecretVar>,
    lottery_creation_id: SecretVarId,
    creator_balance_id: SecretVarId,
    prize_pool: u128,
) -> (r: (AccountBalance, AccountBalance, SecretLotteryState, ComputationResult))
    requires
        store_ok(store@),
        lookup_secret(store@, lottery_creation_id) matches Some(v) && v.payload
            is LotteryCreation,
        lookup_secret(store@, creator_balance_id) matches Some(v) && v.payload is Balance,
    ensures
        ({
            let secret = lottery_creation_of(lookup_secret(store@, lottery_creation_id).unwrap());
            let creator = balance_of(lookup_secret(store@, creator_balance_id).unwrap());
            let found = spec_find_recipient_balance(
                store@,
                secret.lottery_account_key,
                lottery_creation_id,
            );
            let account_key = if found.exists {
                0u128
            } else {
                secret.lottery_account_key
            };
            let ok = !spec_is_negative(vstd::wrapping::u128_specs::wrapping_sub(account_key, 1))
                && !spec_is_negative(
                vstd::wrapping::u128_specs::wrapping_sub(creator.balance, prize_pool),
            );
            &&& r.0 == if ok {
                (AccountBalance {
                    account_key: creator.account_key,
                    balance: vstd::wrapping::u128_specs::wrapping_sub(creator.balance, prize_pool),
                })
            } else {
                creator
            }
            &&& r.1 == (AccountBalance { account_key, balance: prize_pool })
            &&& r.2 == (SecretLotteryState { entropy: secret.random_seed, tickets: 0 })
            &&& r.3 == (ComputationResult { amount: prize_pool, successful: ok })
        }),
{
    let mut creator_balance = match &load_secret(store, creator_balance_id).payload {
        SecretPayload::Balance(b) => *b,
        _ => unreached(),
    };
    let lottery_creation_secret = match &load_secret(store, lottery_creation_id).payload {
        SecretPayload::LotteryCreation(s) => *s,
        _ => unreached(),
    };
    let mut successful = false;
    let recipient_balance = find_recipient_balance(
        store,
        lottery_creation_secret.lottery_account_key,
        lottery_creation_id,
    );
    let account_key = if recipient_balance.exists {
        0u128
    } else {
        lottery_creation_secret.lottery_account_key
    };
    if !is_negative(account_key.wrapping_sub(1)) && !is_negative(
        creator_balance.balance.wrapping_sub(prize_pool),
    ) {
        successful = true;
        creator_balance.balance = creator_balance.balance.wrapping_sub(prize_pool);
    }
    let lottery_balance = AccountBalance { account_key, balance: prize_pool };
    (
        creator_balance,
        lottery_balance,
        SecretLotteryState { entropy: lottery_creation_secret.random_seed, tickets: 0 },
        ComputationResult { amount: prize_pool, successful },
    )
}

/// Move the ticket price from the purchaser to the lottery and record the
/// entry, if the purchaser's balance covers it.
pub fn purchase_lottery_ticket(
    store: &Vec<SecretVar>,
    lottery_ticket_purchase_id: SecretVarId,
    purchaser_balance_id: SecretVarId,
    lottery_balance_id: SecretVarId,
    lottery_state_id: SecretVarId,
    ticket_price: u128,
) -> (r: (AccountBalance, AccountBalance, SecretLotteryState, ComputationResult))
    requires
        lookup_secret(store@, lottery_ticket_purchase_id) matches Some(v) && v.payload
            is TicketPurchase,
        lookup_secret(store@, purchaser_balance_id) matches Some(v) && v.payload is Balance,
        lookup_secret(store@, lottery_balance_id) matches Some(v) && v.payload is Balance,
        lookup_secret(store@, lottery_state_id) matches Some(v) && v.payload is LotteryState,
    ensures
        ({
            let secret = ticket_secret_of(lookup_secret(store@, lottery_ticket_purchase_id).unwrap());
            let purchaser = balance_of(lookup_secret(store@, purchaser_balance_id).unwrap());
            let lottery = balance_of(lookup_secret(store@, lottery_balance_id).unwrap());
            let lstate = lottery_state_of(lookup_secret(store@, lottery_state_id).unwrap());
            let amount = vstd::wrapping::u128_specs::wrapping_mul(secret.tickets, ticket_price);
            let ok = !spec_is_negative(
                vstd::wrapping::u128_specs::wrapping_sub(purchaser.balance, amount),
            );
            &&& r.0 == if ok {
                (AccountBalance {
                    account_key: purchaser.account_key,
                    balance: vstd::wrapping::u128_specs::wrapping_sub(purchaser.balance, amount),
                })
            } else {
                purchaser
            }
            &&& r.1 == if ok {
                (AccountBalance {
                    account_key: lottery.account_key,
                    balance: vstd::wrapping::u128_specs::wrapping_add(lottery.balance, amount),
                })
            } else {
                lottery
            }
            &&& r.2 == if ok {
                (SecretLotteryState {
                    entropy: vstd::wrapping::u128_specs::wrapping_add(lstate.entropy, secret.entropy),
                    tickets: vstd::wrapping::u128_specs::wrapping_add(lstate.tickets, secret.tickets),
                })
            } else {
                lstate
            }
            &&& r.3 == (ComputationResult { amount: 0, successful: ok })
        }),
{
    let lottery_ticket_purchase_secret = match &load_secret(
        store,
        lottery_ticket_purchase_id,
    ).payload {
        SecretPayload::TicketPurchase(s) => *s,
        _ => unreached(),
    };
    let mut purchaser_balance = match &load_secret(store, purchaser_balance_id).payload {
        SecretPayload::Balance(b) => *b,
        _ => unreached(),
    };
    let mut lottery_balance = match &load_secret(store, lottery_balance_id).payload {
        SecretPayload::Balance(b) => *b,
        _ => unreached(),
    };
    let mut lottery_state = match &load_secret(store, lottery_state_id).payload {
        SecretPayload::LotteryState(s) => *s,
        _ => unreached(),
    };
    let secret_amount = lottery_ticket_purchase_secret.tickets.wrapping_mul(ticket_price);
    let mut successful = false;
    if !is_negative(purchaser_balance.balance.wrapping_sub(secret_amount)) {
        successful = true;
        purchaser_balance.balance = purchaser_balance.balance.wrapping_sub(secret_amount);
        lottery_balance.balance = lottery_balance.balance.wrapping_add(secret_amount);
        lottery_state.tickets = lottery_state.tickets.wrapping_add(
            lottery_ticket_purchase_secret.tickets,
        );
        lottery_state.entropy = lottery_state.entropy.wrapping_add(
            lottery_ticket_purchase_secret.entropy,
        );
    }
    (
        purchaser_balance,
        lottery_balance,
        lottery_state,
        ComputationResult { amount: 0, successful },
    )
}

/// Running state of the winner scan: the winner found so far, the index of
/// the next unseen ticket, and the two balances being adjusted.
#[derive(Clone, Copy, PartialEq, Eq, Structural, Debug)]
pub struct DrawScan {
    /// The winner's account key, or zero while none is found.
    pub winner_id: u128,
    /// Tickets passed over so far.
    pub cidx: u128,
    /// The lottery account balance.
    pub lottery_balance: AccountBalance,
    /// The creator's account balance.
    pub creator_balance: AccountBalance,
}

/// One step of the winner scan over a single variable: a ticket purchase
/// for this lottery either contains the winning index — recording the
/// winner and moving any balance beyond the prize pool back to the creator
/// — or advances the running ticket index.
pub open spec fn draw_scan_step(
    s: DrawScan,
    v: SecretVar,
    lottery_account_key: u128,
    winner_index: u128,
    prize_pool: u128,
) -> DrawScan {
    if v.kind is LotteryTicketPurchaseSecretData {
        let ticket = ticket_secret_of(v);
        if ticket.lottery_account_key == lottery_account_key {
            if winner_index >= s.cidx && winner_index < vstd::wrapping::u128_specs::wrapping_add(
                s.cidx,
                ticket.tickets,
            ) {
                let remainder = vstd::wrapping::u128_specs::wrapping_sub(
                    s.lottery_balance.balance,
                    prize_pool,
                );
                if !spec_is_negative(remainder) {
                    DrawScan {
                        winner_id: ticket.purchaser_account_key,
                        cidx: s.cidx,
                        lottery_balance: AccountBalance {
                            account_key: s.lottery_balance.account_key,
                            balance: vstd::wrapping::u128_specs::wrapping_sub(
                                s.lottery_balance.balance,
                                remainder,
                            ),
                        },
                        creator_balance: AccountBalance {
                            account_key: s.creator_balance.account_key,
                            balance: vstd::wrapping::u128_specs::wrapping_add(
                                s.creator_balance.balance,
                                remainder,
                            ),
                        },
                    }
                } else {
                    DrawScan { winner_id: ticket.purchaser_account_key, ..s }
                }
            } else {
                DrawScan {
                    cidx: vstd::wrapping::u128_specs::wrapping_add(s.cidx, ticket.tickets),
                    ..s
                }
            }
        } else {
            s
        }
    } else {
        s
    }
}

/// The winner scan over the whole store, in order.
pub open spec fn draw_scan(
    vars: Seq<SecretVar>,
    init: DrawScan,
    lottery_account_key: u128,
    winner_index: u128,
    prize_pool: u128,
) -> DrawScan
    decreases vars.len(),
{
    if vars.len() == 0 {
        init
    } else {
        draw_scan_step(
            draw_scan(vars.drop_last(), init, lottery_account_key, winner_index, prize_pool),
            vars.last(),
            lottery_account_key,
            winner_index,
            prize_pool,
        )
    }
}

/// Pick the ticket at `winner_index` among the lottery's recorded entries.
///
/// On a hit, any lottery balance beyond the prize pool moves back to the
/// creator; if no ticket matches, the whole lottery balance is refunded to
/// the creator and the result is unsuccessful with winner key zero.
pub fn draw_lottery_winner(
    store: &Vec<SecretVar>,
    secret_lottery_state_id: SecretVarId,
    lottery_balance_id: SecretVarId,
    creator_balance_id: SecretVarId,
    _entry_cost: u128,
    prize_pool: u128,
    winner_index: u128,
) -> (r: (AccountBalance, AccountBalance, DrawResult))
    requires
        store_ok(store@),
        lookup_secret(store@, secret_lottery_state_id) matches Some(v) && v.payload
            is LotteryState,
        lookup_secret(store@, lottery_balance_id) matches Some(v) && v.payload is Balance,
        lookup_secret(store@, creator_balance_id) matches Some(v) && v.payload is Balance,
    ensures
        ({
            let lottery = balance_of(lookup_secret(store@, lottery_balance_id).unwrap());
            let creator = balance_of(lookup_secret(store@, creator_balance_id).unwrap());
            let scan = draw_scan(
                store@,
                DrawScan {
                    winner_id: 0,
                    cidx: 0,
                    lottery_balance: lottery,
                    creator_balance: creator,
                },
                lottery.account_key,
                winner_index,
                prize_pool,
            );
            if scan.winner_id == 0 {
                &&& r.0 == (AccountBalance { account_key: scan.lottery_balance.account_key, balance: 0 })
                &&& r.1 == (AccountBalance {
                    account_key: scan.creator_balance.account_key,
                    balance: vstd::wrapping::u128_specs::wrapping_add(
                        scan.creator_balance.balance,
                        scan.lottery_balance.balance,
                    ),
                })
                &&& r.2 == (DrawResult {
                    lottery_id: lottery.account_key,
                    winner_id: 0,
                    successful: false,
                })
            } else {
                &&& r.0 == scan.lottery_balance
                &&& r.1 == scan.creator_balance
                &&& r.2 == (DrawResult {
                    lottery_id: lottery.account_key,
                    winner_id: scan.winner_id,
                    successful: true,
                })
            }
        }),
{
    let _lottery_state = match &load_secret(store, secret_lottery_state_id).payload {
        SecretPayload::LotteryState(s) => *s,
        _ => unreached(),
    };
    let mut lottery_balance = match &load_secret(store, lottery_balance_id).payload {
        SecretPayload::Balance(b) => *b,
        _ => unreached(),
    };
    let mut creator_balance = match &load_secret(store, creator_balance_id).payload {
        SecretPayload::Balance(b) => *b,
        _ => unreached(),
    };
    let lottery_account_key = lottery_balance.account_key;
    let ghost init = DrawScan {
        winner_id: 0,
        cidx: 0,
        lottery_balance,
        creator_balance,
    };
    let mut winner_id: u128 = 0;
    let mut cidx: u128 = 0;
    let mut i: usize = 0;
    while i < store.len()
        invariant
            0 <= i <= store@.len(),
            (DrawScan { winner_id, cidx, lottery_balance, creator_balance }) == draw_scan(
                store@.take(i as int),
                init,
                lottery_account_key,
                winner_index,
                prize_pool,
            ),
        decreases store@.len() - i,
    {
        let v = &store[i];
        match v.kind {
            VariableKind::LotteryTicketPurchaseSecretData { .. } => {
                let ticket = match &v.payload {
                    SecretPayload::TicketPurchase(s) => *s,
                    _ => unreached(),
                };
                if ticket.lottery_account_key == lottery_account_key {
                    if winner_index >= cidx && winner_index < cidx.wrapping_add(ticket.tickets) {
                        winner_id = ticket.purchaser_account_key;
                        let remainder = lottery_balance.balance.wrapping_sub(prize_pool);
                        if !is_negative(remainder) {
                            creator_balance.balance = creator_balance.balance.wrapping_add(
                                remainder,
                            );
                            lottery_balance.balance = lottery_balance.balance.wrapping_sub(
                                remainder,
                            );
                        }
                    } else {
                        cidx = cidx.wrapping_add(ticket.tickets);
                    }
                }
            },
            _ => {},
        }
        proof {
            assert(store@.take(i as int + 1).drop_last() =~= store@.take(i as int));
            assert(store@.take(i as int + 1).last() == store@[i as int]);
        }
        i = i + 1;
    }
    proof {
        assert(store@.take(store@.len() as int) =~= store@);
    }
    if winner_id == 0 {
        creator_balance.balance = creator_balance.balance.wrapping_add(lottery_balance.balance);
        lottery_balance.balance = 0;
    }
    (
        lottery_balance,
        creator_balance,
        DrawResult { lottery_id: lottery_account_key, winner_id, successful: winner_id != 0 },
    )
}

/// Move the whole lottery balance to the winner's account.
pub fn claim_winnings(
    store: &Vec<SecretVar>,
    lottery_balance_id: SecretVarId,
    winner_balance_id: SecretVarId,
) -> (r: (AccountBalance, AccountBalance))
    requires
        lookup_secret(store@, lottery_balance_id) matches Some(v) && v.payload is Balance,
        lookup_secret(store@, winner_balance_id) matches Some(v) && v.payload is Balance,
    ensures
        ({
            let lottery = balance_of(lookup_secret(store@, lottery_balance_id).unwrap());
            let winner = balance_of(lookup_secret(store@, winner_balance_id).unwrap());
            &&& r.0 == (AccountBalance {
                account_key: winner.account_key,
                balance: vstd::wrapping::u128_specs::wrapping_add(winner.balance, lottery.balance),
            })
            &&& r.1 == (AccountBalance { account_key: lottery.account_key, balance: 0 })
        }),
{
    let mut lottery_balance = match &load_secret(store, lottery_balance_id).payload {
        SecretPayload::Balance(b) => *b,
        _ => unreached(),
    };
    let mut winner_balance = match &load_secret(store, winner_balance_id).payload {
        SecretPayload::Balance(b) => *b,
        _ => unreached(),
    };
    winner_balance.balance = winner_balance.balance.wrapping_add(lottery_balance.balance);
    lottery_balance.balance = 0;
    (winner_balance, lottery_balance)
}

} // verus!
