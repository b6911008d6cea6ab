use vstd::prelude::*;
use crate::arith::{s_add, sat_add_u128};
use crate::kv::{kv_has, kv_idx, kv_val};
use crate::smap::StrMap;

verus! {

/// The balance bound to `a`, zero for an unknown account.
pub open spec fn spec_balance(m: Seq<(Seq<char>, u128)>, a: Seq<char>) -> int {
    if kv_has(m, a) {
        kv_val(m, a) as int
    } else {
        0
    }
}

/// The ledger after saturating-crediting `amount` to `a`, creating the
/// account if needed.
pub open spec fn spec_credit(m: Seq<(Seq<char>, u128)>, a: Seq<char>, amount: u128) -> Seq<
    (Seq<char>, u128),
> {
    if kv_has(m, a) {
        m.update(kv_idx(m, a), (a, s_add(kv_val(m, a) as int, amount as int) as u128))
    } else {
        m.push((a, amount))
    }
}

/// The ledger after debiting `amount` from `a` (meaningful only when the
/// account holds at least `amount`).
pub open spec fn spec_debit(m: Seq<(Seq<char>, u128)>, a: Seq<char>, amount: u128) -> Seq<
    (Seq<char>, u128),
> {
    m.update(kv_idx(m, a), (a, (kv_val(m, a) - amount) as u128))
}

/// Reads an account's balance, zero when unknown.
pub fn balance_in(m: &StrMap<u128>, account: &str) -> (r: u128)
    requires
        m.wf(),
    ensures
        r == spec_balance(m@, account@),
{
    match m.get(account) {
        Some(b) => *b,
        None => 0,
    }
}

/// Saturating-credits `amount` to `account`, creating it if needed.
pub fn credit(m: &mut StrMap<u128>, account: String, amount: u128)
    requires
        old(m).wf(),
    ensures
        final(m).wf(),
        final(m)@ == spec_credit(old(m)@, account@, amount),
{
    let ghost pre = m@;
    match m.index_of(account.as_str()) {
        Some(i) => {
            let b = *m.val_at(i);
            m.set_val_at(i, sat_add_u128(b, amount));
            proof {
                assert(m@ =~= spec_credit(pre, account@, amount));
            }
        },
        None => {
            m.insert(account, amount);
        },
    }
}

/// Debits `amount` from `account`; says whether the account existed with a
/// sufficient balance (otherwise nothing changes).
pub fn debit(m: &mut StrMap<u128>, account: &str, amount: u128) -> (r: bool)
    requires
        old(m).wf(),
    ensures
        final(m).wf(),
        r == (kv_has(old(m)@, account@) && kv_val(old(m)@, account@) >= amount),
        r ==> final(m)@ == spec_debit(old(m)@, account@, amount),
        !r ==> *final(m) == *old(m),
{
    match m.index_of(account) {
        Some(i) => {
            let b = *m.val_at(i);
            if b < amount {
                false
            } else {
                m.set_val_at(i, b - amount);
                true
            }
        },
        None => false,
    }
}

} // verus!
