//! A bank account and a transaction between two of them.

use vstd::prelude::*;

use crate::text::dec_text;
use crate::text::i32_to_string;

verus! {

pub struct BankAccount {
    account_number: i32,
    balance: i32,
    owner: String,
    bank_name: String,
}

impl BankAccount {
    /// The account's number.
    pub closed spec fn spec_account_number(&self) -> i32 {
        self.account_number
    }

    /// The account's balance.
    pub closed spec fn spec_balance(&self) -> i32 {
        self.balance
    }

    /// The account's owner.
    pub closed spec fn spec_owner(&self) -> Seq<char> {
        self.owner@
    }

    /// The bank's name.
    pub closed spec fn spec_bank_name(&self) -> Seq<char> {
        self.bank_name@
    }

    /// An account for `owner` at the house bank, holding `initial_balance`.
    pub fn new(owner: String, account_number: i32, initial_balance: i32) -> (a: Self)
        ensures
            a.spec_owner() == owner@,
            a.spec_account_number() == account_number,
            a.spec_balance() == initial_balance,
            a.spec_bank_name() == "Zinc Bank"@,
    {
        BankAccount {
            account_number,
            balance: initial_balance,
            owner,
            bank_name: String::from_str("Zinc Bank"),
        }
    }

    /// The current balance.
    pub fn get_balance(&self) -> (r: i32)
        ensures
            r == self.spec_balance(),
    {
        self.balance
    }

    /// Adds `amount` to the balance.
    pub fn deposit(&mut self, amount: i32)
        requires
            i32::MIN <= old(self).spec_balance() + amount <= i32::MAX,
        ensures
            final(self).spec_balance() == old(self).spec_balance() + amount,
            final(self).spec_account_number() == old(self).spec_account_number(),
            final(self).spec_owner() == old(self).spec_owner(),
            final(self).spec_bank_name() == old(self).spec_bank_name(),
    {
        self.balance = self.balance + amount;
    }

    /// Takes `amount` from the balance.
    pub fn withdraw(&mut self, amount: i32)
        requires
            i32::MIN <= old(self).spec_balance() - amount <= i32::MAX,
        ensures
            final(self).spec_balance() == old(self).spec_balance() - amount,
            final(self).spec_account_number() == old(self).spec_account_number(),
            final(self).spec_owner() == old(self).spec_owner(),
            final(self).spec_bank_name() == old(self).spec_bank_name(),
    {
        self.balance = self.balance - amount;
    }

    /// The account's owner and bank in words.
    pub fn summary(&self) -> (r: String)
        ensures
            r@ == "Account for "@ + self.spec_owner() + " at "@ + self.spec_bank_name(),
    {
        let mut s = String::from_str("Account for ");
        s.append(self.owner.as_str());
        s.append(" at ");
        s.append(self.bank_name.as_str());
        s
    }

    /// The flat fee a transfer costs.
    pub fn transfer_fee() -> (r: i64)
        ensures
            r == 5,
    {
        5
    }
}

pub struct Transaction {
    from_account: String,
    to_account: String,
    amount: i32,
    processed: bool,
}

impl Transaction {
    /// Whether the transaction has been marked processed.
    pub closed spec fn spec_processed(&self) -> bool {
        self.processed
    }

    /// The paying account's name.
    pub closed spec fn spec_from_account(&self) -> Seq<char> {
        self.from_account@
    }

    /// The receiving account's name.
    pub closed spec fn spec_to_account(&self) -> Seq<char> {
        self.to_account@
    }

    /// The amount transferred.
    pub closed spec fn spec_amount(&self) -> i32 {
        self.amount
    }

    /// A fresh, unprocessed transaction.
    pub fn new(from: String, to: String, amount: i32) -> (t: Self)
        ensures
            t.spec_from_account() == from@,
            t.spec_to_account() == to@,
            t.spec_amount() == amount,
            !t.spec_processed(),
    {
        Transaction { from_account: from, to_account: to, amount, processed: false }
    }

    /// Marks the transaction processed; nothing else moves.
    pub fn mark_processed(&mut self)
        ensures
            final(self).spec_processed(),
            final(self).spec_from_account() == old(self).spec_from_account(),
            final(self).spec_to_account() == old(self).spec_to_account(),
            final(self).spec_amount() == old(self).spec_amount(),
    {
        self.processed = true;
    }

    /// Whether the transaction has been marked processed.
    pub fn is_processed(&self) -> (r: bool)
        ensures
            r == self.spec_processed(),
    {
        self.processed
    }

    /// The transfer in words: amount, payer, payee.
    pub fn describe(&self) -> (r: String)
        ensures
            r@ == "Transfer "@ + dec_text(self.spec_amount() as int) + " from "@
                + self.spec_from_account() + " to "@ + self.spec_to_account(),
    {
        let mut s = String::from_str("Transfer ");
        let amount = i32_to_string(self.amount);
        s.append(amount.as_str());
        s.append(" from ");
        s.append(self.from_account.as_str());
        s.append(" to ");
        s.append(self.to_account.as_str());
        s
    }
}

} // verus!
