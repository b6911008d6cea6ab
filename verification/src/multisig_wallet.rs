use vstd::prelude::*;
use crate::sets::StrSet;
use crate::strutil::str_eq_string;

verus! {

/// A queued transaction: target, value, calldata, confirmations so far, and
/// whether it has executed.
pub struct Transaction {
    pub to: String,
    pub value: u128,
    pub data: Vec<u8>,
    pub executed: bool,
    pub confirmations: StrSet,
}

/// Whether `addr` is one of the wallet's owners.
pub open spec fn spec_is_owner(owners: Seq<String>, addr: Seq<char>) -> bool {
    exists|i: int| 0 <= i < owners.len() && owners[i]@ == addr
}

/// A multi-signature wallet: owners queue transactions and approve them; a
/// transaction executes once the required number of distinct owners approve.
pub struct MultisigWallet {
    pub owners: Vec<String>,
    pub required: usize,
    pub transactions: Vec<Transaction>,
}

impl MultisigWallet {
    pub open spec fn wf(&self) -> bool {
        forall|i: int| 0 <= i < self.transactions@.len()
            ==> (#[trigger] self.transactions@[i]).confirmations.wf()
    }

    pub fn new(owners: Vec<String>, required: usize) -> (r: Self)
        ensures
            r.wf(),
            r.owners == owners,
            r.required == required,
            r.transactions@ == Seq::<Transaction>::empty(),
    {
        MultisigWallet { owners, required, transactions: Vec::new() }
    }

    /// Says whether `addr` is an owner.
    fn is_owner(&self, addr: &str) -> (r: bool)
        ensures
            r == spec_is_owner(self.owners@, addr@),
    {
        let n: usize = self.owners.len();
        let mut i: usize = 0;
        while i < n
            invariant
                0 <= i <= n,
                n == self.owners@.len(),
                forall|j: int| 0 <= j < i ==> (#[trigger] self.owners@[j])@ != addr@,
            decreases n - i,
        {
            if str_eq_string(addr, &self.owners[i]) {
                return true;
            }
            i += 1;
        }
        false
    }

    /// An owner queues a transaction and gets its position back.
    pub fn submit(&mut self, caller: &str, to: String, value: u128, data: Vec<u8>) -> (r: Result<
        usize,
        &'static str,
    >)
        requires
            old(self).wf(),
        ensures
            final(self).wf(),
            final(self).owners == old(self).owners,
            final(self).required == old(self).required,
            !spec_is_owner(old(self).owners@, caller@) ==> r == Err::<usize, &'static str>(
                "not owner",
            ) && *final(self) == *old(self),
            spec_is_owner(old(self).owners@, caller@) ==> r == Ok::<usize, &'static str>(
                old(self).transactions@.len() as usize,
            ) && final(self).transactions@.len() == old(self).transactions@.len() + 1 && final(self).transactions@ == old(self).transactions@.push(final(self).transactions@.last())
                && final(self).transactions@.last().to == to && final(self).transactions@.last().value
                == value && final(self).transactions@.last().data == data && !final(self).transactions@.last().executed && final(self).transactions@.last().confirmations@
                == Seq::<Seq<char>>::empty(),
    {
        if !self.is_owner(caller) {
            return Err("not owner");
        }
        let tx = Transaction { to, value, data, executed: false, confirmations: StrSet::new() };
        self.transactions.push(tx);
        Ok(self.transactions.len() - 1)
    }

    /// An owner approves a queued transaction; once the required number of
    /// distinct owners have approved, it is marked executed.
    pub fn approve(&mut self, caller: &str, id: usize) -> (r: Result<(), &'static str>)
        requires
            old(self).wf(),
        ensures
            final(self).wf(),
            final(self).owners == old(self).owners,
            final(self).required == old(self).required,
            !spec_is_owner(old(self).owners@, caller@) ==> r == Err::<(), &'static str>("not owner")
                && *final(self) == *old(self),
            spec_is_owner(old(self).owners@, caller@) && id >= old(self).transactions@.len() ==> r
                == Err::<(), &'static str>("not found") && *final(self) == *old(self),
            spec_is_owner(old(self).owners@, caller@) && id < old(self).transactions@.len() && old(self).transactions@[id as int].executed ==> r == Err::<(), &'static str>("executed")
                && final(self).transactions@ == old(self).transactions@,
            spec_is_owner(old(self).owners@, caller@) && id < old(self).transactions@.len() && !old(self).transactions@[id as int].executed ==> r == Ok::<(), &'static str>(()) && final(self).transactions@.len() == old(self).transactions@.len() && final(self).transactions@
                == old(self).transactions@.update(
                id as int,
                final(self).transactions@[id as int],
            ) && {
                let before = old(self).transactions@[id as int];
                let after = final(self).transactions@[id as int];
                let confs = if before.confirmations@.contains(caller@) {
                    before.confirmations@
                } else {
                    before.confirmations@.push(caller@)
                };
                &&& after.to == before.to
                &&& after.value == before.value
                &&& after.data == before.data
                &&& after.confirmations@ == confs
                &&& after.executed == (confs.len() >= old(self).required)
            },
    {
        if !self.is_owner(caller) {
            return Err("not owner");
        }
        if id >= self.transactions.len() {
            return Err("not found");
        }
        if self.transactions[id].executed {
            proof {
                assert(self.transactions@ =~= old(self).transactions@);
            }
            return Err("executed");
        }
        let mut tx = self.transactions.remove(id);
        tx.confirmations.insert(caller.to_owned());
        if tx.confirmations.len() >= self.required {
            tx.executed = true;
        } else {
            tx.executed = false;
        }
        self.transactions.insert(id, tx);
        proof {
            assert(self.transactions@ =~= old(self).transactions@.update(
                id as int,
                self.transactions@[id as int],
            ));
        }
        Ok(())
    }
}

} // verus!
