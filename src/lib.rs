//! Derives a program-owned address from a payer and a bump byte, and plans
//! the single system call that creates the account behind it, funded to the
//! rent-exempt minimum.

pub mod address;
pub mod rent;
pub mod authority;
pub mod instruction;
pub mod processor;
pub mod ledger;
