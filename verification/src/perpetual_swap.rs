use vstd::prelude::*;
use crate::arith::trunc_div;
use crate::kv::{kv_has, kv_idx, kv_val};
use crate::smap::StrMap;

verus! {

/// A perpetual position: signed size, posted margin, entry price, funding
/// paid so far, and whether it is open.
#[derive(Clone, Copy)]
pub struct Position {
    pub size: i128,
    pub margin: u128,
    pub entry_price: u128,
    pub funding_paid: i128,
    pub open: bool,
}

/// The funding charge one application of `rate_bps` adds to a position.
pub open spec fn funding_of(p: Position, rate_bps: i32) -> int {
    trunc_div(p.size * rate_bps, 10_000)
}

/// The profit of closing `p` at `exit_price`, net of funding paid.
pub open spec fn pnl_of(p: Position, exit_price: u128) -> int {
    (exit_price - p.entry_price) * p.size - p.funding_paid
}

/// A perpetual-swap book: one position per trader, periodic funding applied
/// to all open positions, and profit-or-loss settled at close.
pub struct PerpetualSwap {
    pub positions: StrMap<Position>,
    pub funding_rate_bps: i32,
}

impl PerpetualSwap {
    pub open spec fn view(&self) -> Seq<(Seq<char>, Position)> {
        self.positions@
    }

    pub open spec fn wf(&self) -> bool {
        self.positions.wf()
    }

    pub fn new() -> (r: Self)
        ensures
            r.wf(),
            r@ == Seq::<(Seq<char>, Position)>::empty(),
            r.funding_rate_bps == 0,
    {
        PerpetualSwap { positions: StrMap::new(), funding_rate_bps: 0 }
    }

    /// Opens (or replaces) a trader's position; a zero size fails.
    pub fn open_position(&mut self, trader: String, size: i128, entry_price: u128, margin: u128)
        -> (r: Result<(), &'static str>)
        requires
            old(self).wf(),
        ensures
            final(self).wf(),
            final(self).funding_rate_bps == old(self).funding_rate_bps,
            size == 0 ==> r == Err::<(), &'static str>("invalid size") && *final(self) == *old(self),
            size != 0 && kv_has(old(self)@, trader@) ==> r == Ok::<(), &'static str>(()) && final(self)@ == old(self)@.update(
                kv_idx(old(self)@, trader@),
                (
                    trader@,
                    (Position { size, margin, entry_price, funding_paid: 0, open: true }),
                ),
            ),
            size != 0 && !kv_has(old(self)@, trader@) ==> r == Ok::<(), &'static str>(()) && final(self)@ == old(self)@.push(
                (
                    trader@,
                    (Position { size, margin, entry_price, funding_paid: 0, open: true }),
                ),
            ),
    {
        if size == 0 {
            return Err("invalid size");
        }
        self.positions.insert(
            trader,
            Position { size, margin, entry_price, funding_paid: 0, open: true },
        );
        Ok(())
    }

    /// Applies a funding rate to every open position and records the rate.
    pub fn apply_funding(&mut self, rate_bps: i32)
        requires
            old(self).wf(),
            forall|i: int| 0 <= i < old(self)@.len() ==> {
                let p = (#[trigger] old(self)@[i]).1;
                i128::MIN <= p.size * rate_bps <= i128::MAX && i128::MIN <= p.funding_paid
                    + funding_of(p, rate_bps) <= i128::MAX
            },
        ensures
            final(self).wf(),
            final(self).funding_rate_bps == rate_bps,
            final(self)@.len() == old(self)@.len(),
            forall|i: int| 0 <= i < old(self)@.len() ==> {
                let p = (#[trigger] old(self)@[i]).1;
                final(self)@[i] == (
                    old(self)@[i].0,
                    (Position {
                        funding_paid: if p.open {
                            (p.funding_paid + funding_of(p, rate_bps)) as i128
                        } else {
                            p.funding_paid
                        },
                        ..p
                    }),
                )
            },
    {
        self.funding_rate_bps = rate_bps;
        let n: usize = self.positions.len();
        let mut i: usize = 0;
        proof {
            assert(self@ == old(self)@);
        }
        while i < n
            invariant
                self.wf(),
                n == self@.len(),
                n == old(self)@.len(),
                0 <= i <= n,
                self.funding_rate_bps == rate_bps,
                forall|j: int| 0 <= j < old(self)@.len() ==> {
                    let p = (#[trigger] old(self)@[j]).1;
                    i128::MIN <= p.size * rate_bps <= i128::MAX && i128::MIN <= p.funding_paid
                        + funding_of(p, rate_bps) <= i128::MAX
                },
                forall|j: int| i <= j < n ==> self@[j] == old(self)@[j],
                forall|j: int| 0 <= j < i ==> {
                    let p = (#[trigger] old(self)@[j]).1;
                    self@[j] == (
                        old(self)@[j].0,
                        (Position {
                            funding_paid: if p.open {
                                (p.funding_paid + funding_of(p, rate_bps)) as i128
                            } else {
                                p.funding_paid
                            },
                            ..p
                        }),
                    )
                },
            decreases n - i,
        {
            let p = *self.positions.val_at(i);
            proof {
                assert(p == old(self)@[i as int].1);
            }
            if p.open {
                let rate: i128 = rate_bps as i128;
                proof {
                    assert(i128::MIN <= p.size * rate_bps <= i128::MAX);
                    assert(p.size * rate == p.size * rate_bps) by (nonlinear_arith)
                        requires
                            rate == rate_bps as int,
                    ;
                    let x = p.size * rate;
                    if x >= 0 {
                        vstd::arithmetic::div_mod::lemma_div_is_ordered(x, i128::MAX as int, 10_000);
                        vstd::arithmetic::div_mod::lemma_div_pos_is_pos(x, 10_000);
                        assert(i128::MAX as int / 10_000 <= i128::MAX);
                    } else {
                        vstd::arithmetic::div_mod::lemma_div_is_ordered(-x, i128::MAX as int + 1, 10_000);
                        vstd::arithmetic::div_mod::lemma_div_pos_is_pos(-x, 10_000);
                        assert((i128::MAX as int + 1) / 10_000 <= i128::MAX as int + 1);
                        assert(trunc_div(x, 10_000) >= i128::MIN);
                        assert(trunc_div(x, 10_000) <= 0);
                    }
                }
                let charge: i128 = p.size * rate / 10_000;
                proof {
                    assert(charge == trunc_div(p.size * rate_bps, 10_000));
                }
                self.positions.set_val_at(
                    i,
                    Position { funding_paid: p.funding_paid + charge, ..p },
                );
            } else {
                proof {
                    assert(self@.update(i as int, (self@[i as int].0, p)) =~= self@);
                }
                self.positions.set_val_at(i, p);
            }
            i += 1;
        }
    }

    /// Closes a trader's open position at `exit_price` and returns the profit
    /// or loss; prices beyond the signed domain fail.
    pub fn close_position(&mut self, trader: &str, exit_price: u128) -> (r: Result<
        i128,
        &'static str,
    >)
        requires
            old(self).wf(),
            kv_has(old(self)@, trader@) && exit_price <= i128::MAX && kv_val(
                old(self)@,
                trader@,
            ).entry_price <= i128::MAX ==> i128::MIN <= pnl_of(
                kv_val(old(self)@, trader@),
                exit_price,
            ) <= i128::MAX && i128::MIN <= (exit_price - kv_val(old(self)@, trader@).entry_price)
                * kv_val(old(self)@, trader@).size <= i128::MAX,
        ensures
            final(self).wf(),
            final(self).funding_rate_bps == old(self).funding_rate_bps,
            !kv_has(old(self)@, trader@) ==> r == Err::<i128, &'static str>("no position")
                && *final(self) == *old(self),
            kv_has(old(self)@, trader@) && !kv_val(old(self)@, trader@).open ==> r == Err::<
                i128,
                &'static str,
            >("closed") && *final(self) == *old(self),
            kv_has(old(self)@, trader@) && kv_val(old(self)@, trader@).open && (exit_price
                > i128::MAX || kv_val(old(self)@, trader@).entry_price > i128::MAX) ==> r == Err::<
                i128,
                &'static str,
            >("overflow") && *final(self) == *old(self),
            kv_has(old(self)@, trader@) && kv_val(old(self)@, trader@).open && exit_price
                <= i128::MAX && kv_val(old(self)@, trader@).entry_price <= i128::MAX ==> r == Ok::<
                i128,
                &'static str,
            >(pnl_of(kv_val(old(self)@, trader@), exit_price) as i128) && final(self)@ == old(self)@.update(
                kv_idx(old(self)@, trader@),
                (trader@, (Position { open: false, ..kv_val(old(self)@, trader@) })),
            ),
    {
        match self.positions.index_of(trader) {
            Some(i) => {
                let p = *self.positions.val_at(i);
                if !p.open {
                    return Err("closed");
                }
                let max_u: u128 = i128::MAX as u128;
                if exit_price > max_u || p.entry_price > max_u {
                    return Err("overflow");
                }
                let exit_i: i128 = exit_price as i128;
                let entry_i: i128 = p.entry_price as i128;
                let price_diff: i128 = exit_i - entry_i;
                let pnl: i128 = price_diff * p.size - p.funding_paid;
                self.positions.set_val_at(i, Position { open: false, ..p });
                Ok(pnl)
            },
            None => Err("no position"),
        }
    }
}

} // verus!
