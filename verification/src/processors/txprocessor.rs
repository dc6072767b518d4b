//! The transaction pipeline's two stages over the shared ledger tables.
//!
//! The recorder stage persists every deposit and withdrawal as a
//! [`TransactionRecord`] keyed by transaction id. The applier stage applies
//! each instruction to the client accounts, referring back to the recorded
//! transactions for the dispute-class instructions. Business-rule violations
//! (insufficient funds, locked account, unknown or mismatched transaction id)
//! are silent no-ops; only an unrecognized type tag is an error, and it
//! aborts the stage that sees it.

use std::collections::HashMap;
use vstd::prelude::*;
use vstd::string::StrSliceExecFns;

use crate::structs::clients::{
    deposit_v, withdrawal_v, dispute_v, resolve_v, chargeback_v, new_account_v, AccountV,
    ClientAccount,
};
use crate::structs::transaction::{
    amount_or_zero, record_of, Transaction, TransactionRecord, TransactionV,
};

verus! {

/// The error either pipeline stage can fail with.
#[derive(Debug)]
pub enum TXProcessError {
    /// An instruction carried a type tag that is not one of deposit,
    /// withdrawal, dispute, resolve or chargeback.
    InvalidTxType,
}

/// Compares two strings character by character.
pub fn str_eq(a: &str, b: &str) -> (r: bool)
    ensures
        r == (a@ == b@),
{
    let n = a.unicode_len();
    let m = b.unicode_len();
    if n != m {
        return false;
    }
    let mut i: usize = 0;
    while i < n
        invariant
            n == a@.len(),
            n == b@.len(),
            0 <= i <= n,
            forall|j: int| 0 <= j < i ==> a@[j] == b@[j],
        decreases n - i,
    {
        if a.get_char(i) != b.get_char(i) {
            return false;
        }
        i = i + 1;
    }
    proof {
        assert(a@ =~= b@);
    }
    true
}

/// The whole shared state of one batch run: the recorded transactions by
/// transaction id and the account values by client id.
#[verifier::ext_equal]
pub ghost struct LedgerV {
    pub txs: Map<u32, TransactionRecord>,
    pub accs: Map<u16, AccountV>,
}

/// The account table as a table of mathematical account values.
pub open spec fn accounts_view(m: Map<u16, ClientAccount>) -> Map<u16, AccountV> {
    Map::new(|c: u16| m.dom().contains(c), |c: u16| m[c]@)
}

/// The ledger state made of a transaction table and an account table.
pub open spec fn ledger_of(txs: Map<u32, TransactionRecord>, accs: Map<u16, ClientAccount>) -> LedgerV {
    LedgerV { txs, accs: accounts_view(accs) }
}

pub open spec fn is_deposit(t: TransactionV) -> bool {
    t.tx_type == "deposit"@
}

pub open spec fn is_withdrawal(t: TransactionV) -> bool {
    t.tx_type == "withdrawal"@
}

pub open spec fn is_dispute(t: TransactionV) -> bool {
    t.tx_type == "dispute"@
}

pub open spec fn is_resolve(t: TransactionV) -> bool {
    t.tx_type == "resolve"@
}

pub open spec fn is_chargeback(t: TransactionV) -> bool {
    t.tx_type == "chargeback"@
}

/// Whether the instruction's type tag is one both stages accept.
pub open spec fn valid_tag(t: TransactionV) -> bool {
    ||| is_deposit(t)
    ||| is_withdrawal(t)
    ||| is_dispute(t)
    ||| is_resolve(t)
    ||| is_chargeback(t)
}

/// The account a deposit or withdrawal works on: the client's entry, or a
/// fresh account where the table has none.
pub open spec fn account_or_new(accs: Map<u16, AccountV>, client: u16) -> AccountV {
    if accs.dom().contains(client) {
        accs[client]
    } else {
        new_account_v(client)
    }
}

/// Effect of a deposit on the account table: get or create the account, then
/// credit it unless it is locked.
pub open spec fn deposit_accs(accs: Map<u16, AccountV>, client: u16, amount: u64) -> Map<
    u16,
    AccountV,
> {
    accs.insert(client, deposit_v(account_or_new(accs, client), amount as int))
}

/// Effect of a withdrawal on the account table: debit an existing account
/// (which may refuse), or create a fresh one and leave it untouched.
pub open spec fn withdrawal_accs(accs: Map<u16, AccountV>, client: u16, amount: u64) -> Map<
    u16,
    AccountV,
> {
    if accs.dom().contains(client) {
        accs.insert(client, withdrawal_v(accs[client], amount as int))
    } else {
        accs.insert(client, new_account_v(client))
    }
}

/// Effect of a dispute: where the transaction is recorded for this client,
/// the account exists, is unlocked and has the funds, move the recorded
/// amount from available to held and mark the record disputed; in every
/// other case the state is unchanged.
pub open spec fn dispute_step(s: LedgerV, tx_id: u32, client: u16) -> LedgerV {
    if s.txs.dom().contains(tx_id) && s.txs[tx_id].client == client && s.accs.dom().contains(
        client,
    ) {
        let rec = s.txs[tx_id];
        let a = s.accs[client];
        if !a.locked && a.available - rec.amount >= 0 {
            LedgerV {
                txs: s.txs.insert(tx_id, TransactionRecord { disputed: true, ..rec }),
                accs: s.accs.insert(client, dispute_v(a, rec.amount as int)),
            }
        } else {
            s
        }
    } else {
        s
    }
}

/// Effect of a resolve: where the transaction is recorded for this client
/// and disputed, and the account exists, is unlocked and holds the funds,
/// move the recorded amount from held back to available and clear the
/// dispute mark; in every other case the state is unchanged.
pub open spec fn resolve_step(s: LedgerV, tx_id: u32, client: u16) -> LedgerV {
    if s.txs.dom().contains(tx_id) && s.txs[tx_id].disputed && s.txs[tx_id].client == client
        && s.accs.dom().contains(client) {
        let rec = s.txs[tx_id];
        let a = s.accs[client];
        if !a.locked && a.held - rec.amount >= 0 {
            LedgerV {
                txs: s.txs.insert(tx_id, TransactionRecord { disputed: false, ..rec }),
                accs: s.accs.insert(client, resolve_v(a, rec.amount as int)),
            }
        } else {
            s
        }
    } else {
        s
    }
}

/// Effect of a chargeback: where the transaction is recorded for this client
/// and disputed, and the account exists, is unlocked and holds the funds,
/// withdraw the recorded amount from held, lock the account for good and
/// clear the dispute mark; in every other case the state is unchanged.
pub open spec fn chargeback_step(s: LedgerV, tx_id: u32, client: u16) -> LedgerV {
    if s.txs.dom().contains(tx_id) && s.txs[tx_id].disputed && s.txs[tx_id].client == client
        && s.accs.dom().contains(client) {
        let rec = s.txs[tx_id];
        let a = s.accs[client];
        if !a.locked && a.held - rec.amount >= 0 {
            LedgerV {
                txs: s.txs.insert(tx_id, TransactionRecord { disputed: false, ..rec }),
                accs: s.accs.insert(client, chargeback_v(a, rec.amount as int)),
            }
        } else {
            s
        }
    } else {
        s
    }
}

/// Effect of one instruction on the whole ledger state. An instruction with
/// an unrecognized type tag leaves the state unchanged (the stage aborts on
/// it instead).
pub open spec fn apply_v(s: LedgerV, t: TransactionV) -> LedgerV {
    if is_deposit(t) {
        LedgerV { txs: s.txs, accs: deposit_accs(s.accs, t.client, amount_or_zero(t.amount)) }
    } else if is_withdrawal(t) {
        LedgerV { txs: s.txs, accs: withdrawal_accs(s.accs, t.client, amount_or_zero(t.amount)) }
    } else if is_dispute(t) {
        dispute_step(s, t.tx, t.client)
    } else if is_resolve(t) {
        resolve_step(s, t.tx, t.client)
    } else if is_chargeback(t) {
        chargeback_step(s, t.tx, t.client)
    } else {
        s
    }
}

/// Effect of one instruction on the transaction table: a deposit or
/// withdrawal upserts its record, every other instruction leaves the table
/// untouched.
pub open spec fn record_v(txs: Map<u32, TransactionRecord>, t: TransactionV) -> Map<
    u32,
    TransactionRecord,
> {
    if is_deposit(t) || is_withdrawal(t) {
        txs.insert(t.tx, record_of(t))
    } else {
        txs
    }
}

/// Whether a deposit of `amount` for `client` stays within the machine
/// bounds of the account fields.
pub open spec fn deposit_fits(accs: Map<u16, AccountV>, client: u16, amount: u64) -> bool {
    let a = account_or_new(accs, client);
    !a.locked ==> a.available + amount + a.held <= u64::MAX
}

/// Whether a withdrawal of `amount` for `client` stays within the machine
/// bounds of the account fields.
pub open spec fn withdrawal_fits(accs: Map<u16, AccountV>, client: u16, amount: u64) -> bool {
    accs.dom().contains(client) ==> {
        let a = accs[client];
        (!a.locked && a.available >= amount) ==> a.available - amount + a.held <= u64::MAX
    }
}

/// Whether a dispute of transaction `tx_id` by `client` stays within the
/// machine bounds of the account fields.
pub open spec fn dispute_fits(s: LedgerV, tx_id: u32, client: u16) -> bool {
    (s.txs.dom().contains(tx_id) && s.txs[tx_id].client == client && s.accs.dom().contains(client))
        ==> {
        let rec = s.txs[tx_id];
        let a = s.accs[client];
        (!a.locked && a.available >= rec.amount) ==> a.available + a.held <= u64::MAX
    }
}

/// Whether a resolve of transaction `tx_id` by `client` stays within the
/// machine bounds of the account fields.
pub open spec fn resolve_fits(s: LedgerV, tx_id: u32, client: u16) -> bool {
    (s.txs.dom().contains(tx_id) && s.txs[tx_id].disputed && s.txs[tx_id].client == client
        && s.accs.dom().contains(client)) ==> {
        let rec = s.txs[tx_id];
        let a = s.accs[client];
        (!a.locked && a.held >= rec.amount) ==> a.available + a.held <= u64::MAX
    }
}

/// Whether a chargeback of transaction `tx_id` by `client` stays within the
/// machine bounds of the account fields.
pub open spec fn chargeback_fits(s: LedgerV, tx_id: u32, client: u16) -> bool {
    (s.txs.dom().contains(tx_id) && s.txs[tx_id].disputed && s.txs[tx_id].client == client
        && s.accs.dom().contains(client)) ==> {
        let rec = s.txs[tx_id];
        let a = s.accs[client];
        (!a.locked && a.held >= rec.amount) ==> a.available + a.held - rec.amount <= u64::MAX
    }
}

/// Whether applying one instruction stays within the machine bounds of the
/// account fields.
pub open spec fn step_fits(s: LedgerV, t: TransactionV) -> bool {
    if is_deposit(t) {
        deposit_fits(s.accs, t.client, amount_or_zero(t.amount))
    } else if is_withdrawal(t) {
        withdrawal_fits(s.accs, t.client, amount_or_zero(t.amount))
    } else if is_dispute(t) {
        dispute_fits(s, t.tx, t.client)
    } else if is_resolve(t) {
        resolve_fits(s, t.tx, t.client)
    } else if is_chargeback(t) {
        chargeback_fits(s, t.tx, t.client)
    } else {
        true
    }
}

/// Deposit action on the account table. If the client is not registered, it
/// creates a new entry first.
pub fn deposit(client_ledger: &mut HashMap<u16, ClientAccount>, client: u16, amount: u64) -> (r:
    Result<(), TXProcessError>)
    requires
        deposit_fits(accounts_view(old(client_ledger)@), client, amount),
    ensures
        r is Ok,
        accounts_view(final(client_ledger)@) == deposit_accs(
            accounts_view(old(client_ledger)@),
            client,
            amount,
        ),
{
    let mut acct = match client_ledger.get(&client) {
        Some(a) => *a,
        None => ClientAccount::new(client),
    };
    acct.deposit(amount).unwrap();
    client_ledger.insert(client, acct);
    Ok(())
}

/// Withdrawal action on the account table. If the client is not registered,
/// it creates a new entry and leaves it untouched.
pub fn withdrawal(client_ledger: &mut HashMap<u16, ClientAccount>, client: u16, amount: u64) -> (r:
    Result<(), TXProcessError>)
    requires
        withdrawal_fits(accounts_view(old(client_ledger)@), client, amount),
    ensures
        r is Ok,
        accounts_view(final(client_ledger)@) == withdrawal_accs(
            accounts_view(old(client_ledger)@),
            client,
            amount,
        ),
{
    match client_ledger.get(&client) {
        Some(a) => {
            let mut acct = *a;
            acct.withdrawal(amount).unwrap();
            client_ledger.insert(client, acct);
        },
        None => {
            client_ledger.insert(client, ClientAccount::new(client));
        },
    }
    Ok(())
}

/// Dispute action. Where a transaction with the designated id is recorded
/// for this client, and the account allows it, the recorded amount moves
/// from available to held and the record is marked disputed.
pub fn dispute(
    client_ledger: &mut HashMap<u16, ClientAccount>,
    tx_ledger: &mut HashMap<u32, TransactionRecord>,
    tx_id: u32,
    client: u16,
) -> (r: Result<(), TXProcessError>)
    requires
        dispute_fits(ledger_of(old(tx_ledger)@, old(client_ledger)@), tx_id, client),
    ensures
        r is Ok,
        ledger_of(final(tx_ledger)@, final(client_ledger)@) == dispute_step(
            ledger_of(old(tx_ledger)@, old(client_ledger)@),
            tx_id,
            client,
        ),
{
    let rec = match tx_ledger.get(&tx_id) {
        Some(rec) => *rec,
        None => {
            return Ok(());
        },
    };
    if rec.client == client {
        let acct = match client_ledger.get(&client) {
            Some(a) => *a,
            None => {
                return Ok(());
            },
        };
        if !acct.locked && acct.available >= rec.amount {
            let mut acct = acct;
            acct.dispute(rec.amount).unwrap();
            client_ledger.insert(client, acct);
            let mut rec = rec;
            rec.dispute();
            tx_ledger.insert(tx_id, rec);
        }
    }
    Ok(())
}

/// Resolve action. Where a transaction with the designated id is recorded
/// for this client and under dispute, and the account allows it, the
/// recorded amount moves from held back to available and the dispute mark
/// is cleared.
pub fn resolve(
    client_ledger: &mut HashMap<u16, ClientAccount>,
    tx_ledger: &mut HashMap<u32, TransactionRecord>,
    tx_id: u32,
    client: u16,
) -> (r: Result<(), TXProcessError>)
    requires
        resolve_fits(ledger_of(old(tx_ledger)@, old(client_ledger)@), tx_id, client),
    ensures
        r is Ok,
        ledger_of(final(tx_ledger)@, final(client_ledger)@) == resolve_step(
            ledger_of(old(tx_ledger)@, old(client_ledger)@),
            tx_id,
            client,
        ),
{
    let rec = match tx_ledger.get(&tx_id) {
        Some(rec) => *rec,
        None => {
            return Ok(());
        },
    };
    if rec.disputed && rec.client == client {
        let acct = match client_ledger.get(&client) {
            Some(a) => *a,
            None => {
                return Ok(());
            },
        };
        if !acct.locked && acct.held >= rec.amount {
            let mut acct = acct;
            acct.resolve(rec.amount).unwrap();
            client_ledger.insert(client, acct);
            let mut rec = rec;
            rec.resolve();
            tx_ledger.insert(tx_id, rec);
        }
    }
    Ok(())
}

/// Chargeback action. Where a transaction with the designated id is recorded
/// for this client and under dispute, and the account allows it, the
/// recorded amount is withdrawn from held, the account is locked for good
/// and the dispute mark is cleared.
pub fn chargeback(
    client_ledger: &mut HashMap<u16, ClientAccount>,
    tx_ledger: &mut HashMap<u32, TransactionRecord>,
    tx_id: u32,
    client: u16,
) -> (r: Result<(), TXProcessError>)
    requires
        chargeback_fits(ledger_of(old(tx_ledger)@, old(client_ledger)@), tx_id, client),
    ensures
        r is Ok,
        ledger_of(final(tx_ledger)@, final(client_ledger)@) == chargeback_step(
            ledger_of(old(tx_ledger)@, old(client_ledger)@),
            tx_id,
            client,
        ),
{
    let rec = match tx_ledger.get(&tx_id) {
        Some(rec) => *rec,
        None => {
            return Ok(());
        },
    };
    if rec.disputed && rec.client == client {
        let acct = match client_ledger.get(&client) {
            Some(a) => *a,
            None => {
                return Ok(());
            },
        };
        if !acct.locked && acct.held >= rec.amount {
            let mut acct = acct;
            acct.chargeback(rec.amount).unwrap();
            client_ledger.insert(client, acct);
            let mut rec = rec;
            rec.resolve();
            tx_ledger.insert(tx_id, rec);
        }
    }
    Ok(())
}

/// One recorder step. A deposit or withdrawal upserts its record in the
/// transaction table; a dispute, resolve or chargeback passes through; any
/// other type tag is the error that aborts the stage.
pub fn record_transaction(tx_ledger: &mut HashMap<u32, TransactionRecord>, t: &Transaction) -> (r:
    Result<(), TXProcessError>)
    ensures
        match r {
            Ok(_) => valid_tag(t@) && final(tx_ledger)@ == record_v(old(tx_ledger)@, t@),
            Err(e) => !valid_tag(t@) && e == TXProcessError::InvalidTxType && final(tx_ledger)@
                == old(tx_ledger)@,
        },
{
    let tag = t.tx_type.as_str();
    if str_eq(tag, "deposit") || str_eq(tag, "withdrawal") {
        tx_ledger.insert(t.tx, TransactionRecord::from(t));
        Ok(())
    } else if str_eq(tag, "dispute") || str_eq(tag, "resolve") || str_eq(tag, "chargeback") {
        Ok(())
    } else {
        Err(TXProcessError::InvalidTxType)
    }
}

/// One applier step: the effect of a single instruction on both tables, by
/// type tag; any other type tag is the error that aborts the stage.
pub fn apply_transaction(
    tx_ledger: &mut HashMap<u32, TransactionRecord>,
    client_ledger: &mut HashMap<u16, ClientAccount>,
    t: &Transaction,
) -> (r: Result<(), TXProcessError>)
    requires
        step_fits(ledger_of(old(tx_ledger)@, old(client_ledger)@), t@),
    ensures
        match r {
            Ok(_) => valid_tag(t@) && ledger_of(final(tx_ledger)@, final(client_ledger)@)
                == apply_v(ledger_of(old(tx_ledger)@, old(client_ledger)@), t@),
            Err(e) => !valid_tag(t@) && e == TXProcessError::InvalidTxType && final(tx_ledger)@
                == old(tx_ledger)@ && final(client_ledger)@ == old(client_ledger)@,
        },
{
    let amount: u64 = match t.amount {
        Some(a) => a,
        None => 0,
    };
    let tag = t.tx_type.as_str();
    if str_eq(tag, "deposit") {
        deposit(client_ledger, t.client, amount)
    } else if str_eq(tag, "withdrawal") {
        withdrawal(client_ledger, t.client, amount)
    } else if str_eq(tag, "dispute") {
        dispute(client_ledger, tx_ledger, t.tx, t.client)
    } else if str_eq(tag, "resolve") {
        resolve(client_ledger, tx_ledger, t.tx, t.client)
    } else if str_eq(tag, "chargeback") {
        chargeback(client_ledger, tx_ledger, t.tx, t.client)
    } else {
        Err(TXProcessError::InvalidTxType)
    }
}

/// Decides, without touching the tables, whether applying `t` stays within
/// the machine bounds of the account fields, so that a caller can test the
/// bound before [`apply_transaction`].
pub fn transaction_fits(
    tx_ledger: &HashMap<u32, TransactionRecord>,
    client_ledger: &HashMap<u16, ClientAccount>,
    t: &Transaction,
) -> (b: bool)
    ensures
        b == step_fits(ledger_of(tx_ledger@, client_ledger@), t@),
{
    let limit: u128 = u64::MAX as u128;
    let amount: u64 = match t.amount {
        Some(a) => a,
        None => 0,
    };
    let tag = t.tx_type.as_str();
    if str_eq(tag, "deposit") {
        let acct = match client_ledger.get(&t.client) {
            Some(a) => *a,
            None => ClientAccount::new(t.client),
        };
        acct.locked || (acct.available as u128) + (amount as u128) + (acct.held as u128) <= limit
    } else if str_eq(tag, "withdrawal") {
        match client_ledger.get(&t.client) {
            Some(a) => {
                let acct = *a;
                if !acct.locked && acct.available >= amount {
                    ((acct.available - amount) as u128) + (acct.held as u128) <= limit
                } else {
                    true
                }
            },
            None => true,
        }
    } else if str_eq(tag, "dispute") {
        match tx_ledger.get(&t.tx) {
            Some(r) => {
                let rec = *r;
                if rec.client == t.client {
                    match client_ledger.get(&t.client) {
                        Some(a) => {
                            let acct = *a;
                            if !acct.locked && acct.available >= rec.amount {
                                (acct.available as u128) + (acct.held as u128) <= limit
                            } else {
                                true
                            }
                        },
                        None => true,
                    }
                } else {
                    true
                }
            },
            None => true,
        }
    } else if str_eq(tag, "resolve") {
        match tx_ledger.get(&t.tx) {
            Some(r) => {
                let rec = *r;
                if rec.disputed && rec.client == t.client {
                    match client_ledger.get(&t.client) {
                        Some(a) => {
                            let acct = *a;
                            if !acct.locked && acct.held >= rec.amount {
                                (acct.available as u128) + (acct.held as u128) <= limit
                            } else {
                                true
                            }
                        },
                        None => true,
                    }
                } else {
                    true
                }
            },
            None => true,
        }
    } else if str_eq(tag, "chargeback") {
        match tx_ledger.get(&t.tx) {
            Some(r) => {
                let rec = *r;
                if rec.disputed && rec.client == t.client {
                    match client_ledger.get(&t.client) {
                        Some(a) => {
                            let acct = *a;
                            if !acct.locked && acct.held >= rec.amount {
                                (acct.available as u128) + (acct.held as u128) - (rec.amount
                                    as u128) <= limit
                            } else {
                                true
                            }
                        },
                        None => true,
                    }
                } else {
                    true
                }
            },
            None => true,
        }
    } else {
        true
    }
}

/// The instruction stream as a sequence of mathematical values.
pub open spec fn tx_views(ts: Seq<Transaction>) -> Seq<TransactionV> {
    ts.map_values(|t: Transaction| t@)
}

/// Whether every instruction of the stream carries a recognized type tag.
pub open spec fn all_valid(ts: Seq<TransactionV>) -> bool {
    forall|i: int| 0 <= i < ts.len() ==> valid_tag(#[trigger] ts[i])
}

/// The transaction table after the recorder stage has consumed the stream
/// in order.
pub open spec fn record_all(txs: Map<u32, TransactionRecord>, ts: Seq<TransactionV>) -> Map<
    u32,
    TransactionRecord,
>
    decreases ts.len(),
{
    if ts.len() == 0 {
        txs
    } else {
        record_all(record_v(txs, ts[0]), ts.skip(1))
    }
}

/// The ledger state after the applier stage has consumed the stream in
/// order.
pub open spec fn apply_all(s: LedgerV, ts: Seq<TransactionV>) -> LedgerV
    decreases ts.len(),
{
    if ts.len() == 0 {
        s
    } else {
        apply_all(apply_v(s, ts[0]), ts.skip(1))
    }
}

/// Whether the whole run stays within the machine bounds of the account
/// fields; past an unrecognized type tag nothing further is applied, so
/// nothing further is demanded.
pub open spec fn run_fits(s: LedgerV, ts: Seq<TransactionV>) -> bool
    decreases ts.len(),
{
    if ts.len() == 0 {
        true
    } else if !valid_tag(ts[0]) {
        true
    } else {
        step_fits(s, ts[0]) && run_fits(apply_v(s, ts[0]), ts.skip(1))
    }
}

/// Consuming one more instruction extends the recorder's fold by one step.
pub proof fn lemma_record_all_push(txs: Map<u32, TransactionRecord>, ts: Seq<TransactionV>, t: TransactionV)
    ensures
        record_all(txs, ts.push(t)) == record_v(record_all(txs, ts), t),
    decreases ts.len(),
{
    if ts.len() == 0 {
        assert(ts.push(t)[0] == t);
        assert(ts.push(t).skip(1) =~= Seq::<TransactionV>::empty());
        assert(record_all(record_v(txs, t), Seq::<TransactionV>::empty()) == record_v(txs, t));
    } else {
        assert(ts.push(t)[0] == ts[0]);
        assert(ts.push(t).skip(1) =~= ts.skip(1).push(t));
        lemma_record_all_push(record_v(txs, ts[0]), ts.skip(1), t);
    }
}

/// Consuming one more instruction extends the applier's fold by one step.
pub proof fn lemma_apply_all_push(s: LedgerV, ts: Seq<TransactionV>, t: TransactionV)
    ensures
        apply_all(s, ts.push(t)) == apply_v(apply_all(s, ts), t),
    decreases ts.len(),
{
    if ts.len() == 0 {
        assert(ts.push(t)[0] == t);
        assert(ts.push(t).skip(1) =~= Seq::<TransactionV>::empty());
        assert(apply_all(apply_v(s, t), Seq::<TransactionV>::empty()) == apply_v(s, t));
    } else {
        assert(ts.push(t)[0] == ts[0]);
        assert(ts.push(t).skip(1) =~= ts.skip(1).push(t));
        lemma_apply_all_push(apply_v(s, ts[0]), ts.skip(1), t);
    }
}

/// Where the recorder stage aborts: the first instruction with an
/// unrecognized type tag, with the table as the fold over the instructions
/// before it.
pub open spec fn recorder_stops_at(
    txs0: Map<u32, TransactionRecord>,
    txs1: Map<u32, TransactionRecord>,
    ts: Seq<TransactionV>,
    k: int,
) -> bool {
    &&& 0 <= k < ts.len()
    &&& !valid_tag(ts[k])
    &&& forall|j: int| 0 <= j < k ==> valid_tag(#[trigger] ts[j])
    &&& txs1 == record_all(txs0, ts.take(k))
}

/// Where the applier stage aborts: the first instruction with an
/// unrecognized type tag, with the ledger as the fold over the instructions
/// before it.
pub open spec fn applier_stops_at(s0: LedgerV, s1: LedgerV, ts: Seq<TransactionV>, k: int) -> bool {
    &&& 0 <= k < ts.len()
    &&& !valid_tag(ts[k])
    &&& forall|j: int| 0 <= j < k ==> valid_tag(#[trigger] ts[j])
    &&& s1 == apply_all(s0, ts.take(k))
}

/// The recorder stage over a whole batch: consumes the instructions in
/// arrival order and upserts a record for every deposit and withdrawal. An
/// unrecognized type tag aborts the stage at that instruction, leaving the
/// records of the instructions before it.
pub fn store_transactions(
    instructions: &Vec<Transaction>,
    tx_ledger: &mut HashMap<u32, TransactionRecord>,
) -> (r: Result<(), TXProcessError>)
    ensures
        match r {
            Ok(_) => all_valid(tx_views(instructions@)) && final(tx_ledger)@ == record_all(
                old(tx_ledger)@,
                tx_views(instructions@),
            ),
            Err(e) => e == TXProcessError::InvalidTxType && exists|k: int|
                recorder_stops_at(old(tx_ledger)@, final(tx_ledger)@, tx_views(instructions@), k),
        },
{
    let ghost ts = tx_views(instructions@);
    let n = instructions.len();
    let mut i: usize = 0;
    while i < n
        invariant
            n == instructions.len(),
            0 <= i <= n,
            ts == tx_views(instructions@),
            forall|j: int| 0 <= j < i ==> valid_tag(#[trigger] ts[j]),
            tx_ledger@ == record_all(old(tx_ledger)@, ts.take(i as int)),
        decreases n - i,
    {
        let t = &instructions[i];
        match record_transaction(tx_ledger, t) {
            Ok(_) => {
                proof {
                    assert(ts.take(i + 1) =~= ts.take(i as int).push(ts[i as int]));
                    lemma_record_all_push(old(tx_ledger)@, ts.take(i as int), ts[i as int]);
                }
            },
            Err(e) => {
                proof {
                    assert(recorder_stops_at(old(tx_ledger)@, tx_ledger@, ts, i as int));
                }
                return Err(e);
            },
        }
        i = i + 1;
    }
    proof {
        assert(ts.take(n as int) =~= ts);
    }
    Ok(())
}

/// The applier stage over a whole batch: consumes the instructions in the
/// same order and applies each to the account table, referring to the
/// transaction table for the dispute-class instructions. An unrecognized
/// type tag aborts the stage at that instruction, leaving the state the
/// earlier instructions produced.
pub fn process_transactions(
    instructions: &Vec<Transaction>,
    tx_ledger: &mut HashMap<u32, TransactionRecord>,
    client_ledger: &mut HashMap<u16, ClientAccount>,
) -> (r: Result<(), TXProcessError>)
    requires
        run_fits(
            ledger_of(old(tx_ledger)@, old(client_ledger)@),
            tx_views(instructions@),
        ),
    ensures
        match r {
            Ok(_) => all_valid(tx_views(instructions@)) && ledger_of(
                final(tx_ledger)@,
                final(client_ledger)@,
            ) == apply_all(
                ledger_of(old(tx_ledger)@, old(client_ledger)@),
                tx_views(instructions@),
            ),
            Err(e) => e == TXProcessError::InvalidTxType && exists|k: int|
                applier_stops_at(
                    ledger_of(old(tx_ledger)@, old(client_ledger)@),
                    ledger_of(final(tx_ledger)@, final(client_ledger)@),
                    tx_views(instructions@),
                    k,
                ),
        },
{
    let ghost ts = tx_views(instructions@);
    let ghost s0 = ledger_of(tx_ledger@, client_ledger@);
    proof {
        assert(ts.skip(0) =~= ts);
    }
    let n = instructions.len();
    let mut i: usize = 0;
    while i < n
        invariant
            n == instructions.len(),
            0 <= i <= n,
            ts == tx_views(instructions@),
            s0 == ledger_of(old(tx_ledger)@, old(client_ledger)@),
            forall|j: int| 0 <= j < i ==> valid_tag(#[trigger] ts[j]),
            ledger_of(tx_ledger@, client_ledger@) == apply_all(s0, ts.take(i as int)),
            run_fits(ledger_of(tx_ledger@, client_ledger@), ts.skip(i as int)),
        decreases n - i,
    {
        let ghost s_here = ledger_of(tx_ledger@, client_ledger@);
        proof {
            assert(ts.skip(i as int)[0] == ts[i as int]);
        }
        let t = &instructions[i];
        match apply_transaction(tx_ledger, client_ledger, t) {
            Ok(_) => {
                proof {
                    assert(ts.take(i + 1) =~= ts.take(i as int).push(ts[i as int]));
                    lemma_apply_all_push(s0, ts.take(i as int), ts[i as int]);
                    assert(ts.skip(i as int).skip(1) =~= ts.skip(i + 1));
                }
            },
            Err(e) => {
                proof {
                    assert(applier_stops_at(
                        s0,
                        ledger_of(tx_ledger@, client_ledger@),
                        ts,
                        i as int,
                    ));
                }
                return Err(e);
            },
        }
        i = i + 1;
    }
    proof {
        assert(ts.take(n as int) =~= ts);
    }
    Ok(())
}

/// The five recognized type tags are pairwise distinct character sequences.
pub proof fn lemma_tags_distinct()
    ensures
        "deposit"@ != "withdrawal"@,
        "deposit"@ != "dispute"@,
        "deposit"@ != "resolve"@,
        "deposit"@ != "chargeback"@,
        "withdrawal"@ != "dispute"@,
        "withdrawal"@ != "resolve"@,
        "withdrawal"@ != "chargeback"@,
        "dispute"@ != "resolve"@,
        "dispute"@ != "chargeback"@,
        "resolve"@ != "chargeback"@,
{
    reveal_strlit("deposit");
    reveal_strlit("withdrawal");
    reveal_strlit("dispute");
    reveal_strlit("resolve");
    reveal_strlit("chargeback");
    assert("deposit"@[1] != "dispute"@[1]);
    assert("deposit"@[0] != "resolve"@[0]);
    assert("dispute"@[0] != "resolve"@[0]);
    assert("withdrawal"@[0] != "chargeback"@[0]);
}

/// Whether every account of the table satisfies the balance equation with
/// non-negative balances.
pub open spec fn accounts_wf(accs: Map<u16, AccountV>) -> bool {
    forall|c: u16| accs.dom().contains(c) ==> (#[trigger] accs[c]).wf()
}

/// Balance-equation invariant, one step: where every account satisfies
/// `total == available + held` with non-negative balances, it still does
/// after any one instruction is applied.
pub proof fn lemma_apply_preserves_wf(s: LedgerV, t: TransactionV)
    requires
        accounts_wf(s.accs),
    ensures
        accounts_wf(apply_v(s, t).accs),
{
}

/// Balance-equation invariant, whole run: every account satisfies
/// `total == available + held` with non-negative balances at every point of
/// a run that starts from such a table.
pub proof fn lemma_run_preserves_wf(s: LedgerV, ts: Seq<TransactionV>)
    requires
        accounts_wf(s.accs),
    ensures
        accounts_wf(apply_all(s, ts).accs),
    decreases ts.len(),
{
    if ts.len() > 0 {
        lemma_apply_preserves_wf(s, ts[0]);
        lemma_run_preserves_wf(apply_v(s, ts[0]), ts.skip(1));
    }
}

/// Lock monotonicity, one step: a locked account stays present and locked
/// under any one instruction.
pub proof fn lemma_apply_preserves_locked(s: LedgerV, t: TransactionV, client: u16)
    requires
        s.accs.dom().contains(client),
        s.accs[client].locked,
    ensures
        apply_v(s, t).accs.dom().contains(client),
        apply_v(s, t).accs[client].locked,
{
}

/// Lock monotonicity, whole run: once an account is locked, it stays
/// present and locked for the remainder of the run.
pub proof fn lemma_run_preserves_locked(s: LedgerV, ts: Seq<TransactionV>, client: u16)
    requires
        s.accs.dom().contains(client),
        s.accs[client].locked,
    ensures
        apply_all(s, ts).accs.dom().contains(client),
        apply_all(s, ts).accs[client].locked,
    decreases ts.len(),
{
    if ts.len() > 0 {
        lemma_apply_preserves_locked(s, ts[0], client);
        lemma_run_preserves_locked(apply_v(s, ts[0]), ts.skip(1), client);
    }
}

/// Referential integrity: a dispute, resolve or chargeback referring to a
/// transaction id that was never recorded, or recorded under a different
/// client, changes nothing.
pub proof fn lemma_unknown_reference_noop(s: LedgerV, t: TransactionV)
    requires
        is_dispute(t) || is_resolve(t) || is_chargeback(t),
        !s.txs.dom().contains(t.tx) || s.txs[t.tx].client != t.client,
    ensures
        apply_v(s, t) == s,
{
    lemma_tags_distinct();
}

/// A chargeback against an account that is already locked, or that does not
/// exist, changes nothing.
pub proof fn lemma_chargeback_locked_noop(s: LedgerV, t: TransactionV)
    requires
        is_chargeback(t),
        s.accs.dom().contains(t.client) ==> s.accs[t.client].locked,
    ensures
        apply_v(s, t) == s,
{
    lemma_tags_distinct();
}

/// Chargeback idempotence: applying the same chargeback twice changes no
/// more than applying it once, whether the first application succeeded (and
/// locked the account) or was a no-op.
pub proof fn lemma_chargeback_idempotent(s: LedgerV, t: TransactionV)
    requires
        is_chargeback(t),
    ensures
        apply_v(apply_v(s, t), t) == apply_v(s, t),
{
    lemma_tags_distinct();
}

} // verus!
