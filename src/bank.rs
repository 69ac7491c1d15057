use vstd::prelude::*;
use crate::page_helpers::{decimal, integer_text, signed_decimal};

verus! {

/// A savings account
pub struct SavingsAccount {
    balance: i32,
}

impl SavingsAccount {
    pub closed spec fn balance(&self) -> int {
        self.balance as int
    }

    /// Creates a `SavingsAccount` with a balance of 0
    pub fn new() -> (r: SavingsAccount)
        ensures
            r.balance() == 0,
    {
        SavingsAccount { balance: 0 }
    }

    pub fn get_balance(&self) -> (r: i32)
        ensures
            r == self.balance(),
    {
        self.balance
    }

    /// Adds `amount`, which may not be negative, to the balance.
    pub fn deposit(&mut self, amount: i32)
        requires
            amount >= 0,
            old(self).balance() + amount <= i32::MAX,
        ensures
            final(self).balance() == old(self).balance() + amount,
    {
        self.balance = self.balance + amount;
    }

    /// Describes a transfer of `amount` to account `acc_number`.
    pub fn transfer(&self, acc_number: u32, amount: i32) -> (r: Result<String, String>)
        ensures
            r matches Ok(text) && text@ == "Transferred $"@ + signed_decimal(amount as int) + " to "@
                + decimal(acc_number as nat),
    {
        let mut text = String::from_str("Transferred $");
        let a = integer_text(amount as i64);
        text.append(a.as_str());
        text.append(" to ");
        let n = integer_text(acc_number as i64);
        text.append(n.as_str());
        Ok(text)
    }
}

} // verus!
