//! Instructions and transaction records.
//!
//! A [`Transaction`] is one decoded input record: a type tag, a client id, a
//! transaction id and an optional amount. A [`TransactionRecord`] is what the
//! recorder stage keeps of a deposit or withdrawal so that a later dispute,
//! resolve or chargeback can refer back to it.

use vstd::prelude::*;

verus! {

/// The mathematical value of a [`Transaction`]: the type tag as a character
/// sequence, the ids, and the amount in units of one ten-thousandth.
pub ghost struct TransactionV {
    pub tx_type: Seq<char>,
    pub client: u16,
    pub tx: u32,
    pub amount: Option<u64>,
}

/// One decoded instruction. The amount, where present, counts units of one
/// ten-thousandth, so four fractional digits are exact.
#[derive(Debug)]
pub struct Transaction {
    pub tx_type: String,
    pub client: u16,
    pub tx: u32,
    pub amount: Option<u64>,
}

impl View for Transaction {
    type V = TransactionV;

    open spec fn view(&self) -> TransactionV {
        TransactionV {
            tx_type: self.tx_type@,
            client: self.client,
            tx: self.tx,
            amount: self.amount,
        }
    }
}

impl Transaction {
    /// The client id the instruction targets.
    pub fn client(&self) -> (c: u16)
        ensures
            c == self@.client,
    {
        self.client
    }

    /// The transaction id the instruction carries.
    pub fn tx(&self) -> (t: u32)
        ensures
            t == self@.tx,
    {
        self.tx
    }

    /// The type tag of the instruction.
    pub fn tx_type(self) -> (t: String)
        ensures
            t@ == self@.tx_type,
    {
        self.tx_type
    }

    /// The amount the instruction carries, where it carries one.
    pub fn amount(&self) -> (a: Option<u64>)
        ensures
            a == self@.amount,
    {
        self.amount
    }
}

/// The amount a record keeps of an instruction: the carried amount, or zero
/// where the instruction carries none.
pub open spec fn amount_or_zero(amount: Option<u64>) -> u64 {
    match amount {
        Some(a) => a,
        None => 0u64,
    }
}

/// The record the recorder keeps of a deposit or withdrawal instruction.
pub open spec fn record_of(t: TransactionV) -> TransactionRecord {
    TransactionRecord { amount: amount_or_zero(t.amount), client: t.client, disputed: false }
}

/// What the ledger keeps of a recorded deposit or withdrawal: its amount in
/// units of one ten-thousandth, its client, and whether it is under dispute.
#[derive(Clone, Copy, Debug)]
pub struct TransactionRecord {
    pub amount: u64,
    pub client: u16,
    pub disputed: bool,
}

impl TransactionRecord {
    /// Builds the record of an instruction: same client, not disputed, and
    /// the instruction's amount with a missing amount read as zero.
    pub fn from(t: &Transaction) -> (r: TransactionRecord)
        ensures
            r == record_of(t@),
    {
        let amount: u64 = match t.amount {
            Some(a) => a,
            None => 0,
        };
        TransactionRecord { amount, client: t.client, disputed: false }
    }

    /// The recorded amount.
    pub fn amount(self) -> (a: u64)
        ensures
            a == self.amount,
    {
        self.amount
    }

    /// The client the record belongs to.
    pub fn client(self) -> (c: u16)
        ensures
            c == self.client,
    {
        self.client
    }

    /// Whether the record is under dispute.
    pub fn disputed(self) -> (d: bool)
        ensures
            d == self.disputed,
    {
        self.disputed
    }

    /// Marks the record as under dispute.
    pub fn dispute(&mut self)
        ensures
            *final(self) == (TransactionRecord { disputed: true, ..*old(self) }),
    {
        self.disputed = true;
    }

    /// Marks the record as no longer under dispute.
    pub fn resolve(&mut self)
        ensures
            *final(self) == (TransactionRecord { disputed: false, ..*old(self) }),
    {
        self.disputed = false;
    }
}

} // verus!
