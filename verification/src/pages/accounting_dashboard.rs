//! Accounting dashboard: which total an account balance counts toward.

use vstd::prelude::*;
use crate::text::str_eq;

verus! {

/// The total on the accounting dashboard that an account counts toward.
#[derive(Clone, Copy, Debug, PartialEq, Eq, Structural)]
pub enum AccountGroup {
    Asset,
    Liability,
    Equity,
    Other,
}

/// The group of an account type, as the dashboard's totals read it.
pub open spec fn account_group_of(t: Seq<char>) -> AccountGroup {
    if t == "Asset"@ || t == "asset"@ || t == "Current Asset"@ || t == "Fixed Asset"@ {
        AccountGroup::Asset
    } else if t == "Liability"@ || t == "liability"@ || t == "Current Liability"@ || t == "Long-term Liability"@ {
        AccountGroup::Liability
    } else if t == "Equity"@ || t == "equity"@ || t == "Owner's Equity"@ || t == "Retained Earnings"@ {
        AccountGroup::Equity
    } else {
        AccountGroup::Other
    }
}

/// The total that an account of type `account_type` counts toward.
pub fn account_group(account_type: &str) -> (r: AccountGroup)
    ensures
        r == account_group_of(account_type@),
{
    if str_eq(account_type, "Asset") || str_eq(account_type, "asset") || str_eq(account_type, "Current Asset")
        || str_eq(account_type, "Fixed Asset") {
        AccountGroup::Asset
    } else if str_eq(account_type, "Liability") || str_eq(account_type, "liability") || str_eq(
        account_type,
        "Current Liability",
    ) || str_eq(account_type, "Long-term Liability") {
        AccountGroup::Liability
    } else if str_eq(account_type, "Equity") || str_eq(account_type, "equity") || str_eq(account_type, "Owner's Equity")
        || str_eq(account_type, "Retained Earnings") {
        AccountGroup::Equity
    } else {
        AccountGroup::Other
    }
}


/// The dashboard's totals take exactly these account types: `Asset`, `asset`,
/// `Current Asset` and `Fixed Asset` count as assets; `Liability`, `liability`,
/// `Current Liability` and `Long-term Liability` as liabilities; `Equity`, `equity`,
/// `Owner's Equity` and `Retained Earnings` as equity; every other type counts toward none.
pub proof fn law_account_groups(t: Seq<char>)
    ensures
        (account_group_of(t) == AccountGroup::Asset) == (t == "Asset"@ || t == "asset"@ || t
            == "Current Asset"@ || t == "Fixed Asset"@),
        (account_group_of(t) == AccountGroup::Liability) == (t == "Liability"@ || t == "liability"@
            || t == "Current Liability"@ || t == "Long-term Liability"@),
        (account_group_of(t) == AccountGroup::Equity) == (t == "Equity"@ || t == "equity"@ || t
            == "Owner's Equity"@ || t == "Retained Earnings"@),
{
    reveal_strlit("Asset");
    reveal_strlit("asset");
    reveal_strlit("Current Asset");
    reveal_strlit("Fixed Asset");
    reveal_strlit("Liability");
    reveal_strlit("liability");
    reveal_strlit("Current Liability");
    reveal_strlit("Long-term Liability");
    reveal_strlit("Equity");
    reveal_strlit("equity");
    reveal_strlit("Owner's Equity");
    reveal_strlit("Retained Earnings");
    assert("Asset"@.len() == 5 && "asset"@.len() == 5 && "Current Asset"@.len() == 13);
    assert("Fixed Asset"@.len() == 11 && "Liability"@.len() == 9 && "liability"@.len() == 9);
    assert("Current Liability"@.len() == 17 && "Long-term Liability"@.len() == 19);
    assert("Equity"@.len() == 6 && "equity"@.len() == 6 && "Owner's Equity"@.len() == 14);
    assert("Retained Earnings"@.len() == 17);
    assert("Current Liability"@[0] != "Retained Earnings"@[0]);
}

} // verus!
