use vstd::prelude::*;
use crate::idmap::IdMap;
use crate::kv::{kv_has, kv_idx, kv_val, kv_idx_unique};

verus! {

/// A recorded transfer: its parties, amount, the proof text it was admitted
/// under, and whether it has executed.
pub struct Transaction {
    pub sender: String,
    pub receiver: String,
    pub amount: u128,
    pub proof_text: String,
    pub executed: bool,
}

/// A proof-gated transaction log: the host checks each submission's proof and
/// hands the verdict in; an admitted transaction is stored once, under a
/// fresh identifier, and executes at most once.
pub struct ZKTransaction {
    pub verifying_key: String,
    pub transactions: IdMap<Transaction>,
    pub next_id: u64,
}

impl ZKTransaction {
    pub open spec fn view(&self) -> Seq<(u64, Transaction)> {
        self.transactions@
    }

    pub open spec fn wf(&self) -> bool {
        &&& self.transactions.wf()
        &&& forall|i: int| 0 <= i < self.transactions@.len() ==> (#[trigger] self.transactions@[i]).0
            <= self.next_id
    }

    pub fn new(verifying_key: String) -> (r: Self)
        ensures
            r.wf(),
            r.verifying_key == verifying_key,
            r@ == Seq::<(u64, Transaction)>::empty(),
            r.next_id == 0,
    {
        ZKTransaction { verifying_key, transactions: IdMap::new(), next_id: 0 }
    }

    /// Records a transaction whose proof the host has checked (`proof_valid`
    /// is that verdict); an invalid proof is turned away and changes nothing.
    /// An admitted transaction gets a fresh identifier and starts unexecuted.
    pub fn submit_transaction(
        &mut self,
        sender: String,
        receiver: String,
        amount: u128,
        proof_text: String,
        proof_valid: bool,
    ) -> (r: Result<u64, &'static str>)
        requires
            old(self).wf(),
            old(self).next_id < u64::MAX,
        ensures
            final(self).wf(),
            final(self).verifying_key == old(self).verifying_key,
            !proof_valid ==> r == Err::<u64, &'static str>("invalid proof") && *final(self)
                == *old(self),
            proof_valid ==> r == Ok::<u64, &'static str>((old(self).next_id + 1) as u64) && final(self).next_id == old(self).next_id + 1 && final(self)@ == old(self)@.push(
                (
                    (old(self).next_id + 1) as u64,
                    (Transaction { sender, receiver, amount, proof_text, executed: false }),
                ),
            ),
    {
        if !proof_valid {
            return Err("invalid proof");
        }
        self.next_id += 1;
        proof {
            assert(!kv_has(self.transactions@, self.next_id));
        }
        self.transactions.insert(
            self.next_id,
            Transaction { sender, receiver, amount, proof_text, executed: false },
        );
        Ok(self.next_id)
    }

    /// Executes a recorded transaction once; a second execution fails and
    /// changes nothing.
    pub fn execute(&mut self, id: u64) -> (r: Result<(), &'static str>)
        requires
            old(self).wf(),
        ensures
            final(self).wf(),
            final(self).next_id == old(self).next_id,
            final(self).verifying_key == old(self).verifying_key,
            !kv_has(old(self)@, id) ==> r == Err::<(), &'static str>("not found") && *final(self)
                == *old(self),
            kv_has(old(self)@, id) && kv_val(old(self)@, id).executed ==> r == Err::<
                (),
                &'static str,
            >("executed") && *final(self) == *old(self),
            kv_has(old(self)@, id) && !kv_val(old(self)@, id).executed ==> r == Ok::<
                (),
                &'static str,
            >(()) && final(self)@ == old(self)@.update(
                kv_idx(old(self)@, id),
                (id, kv_val(final(self)@, id)),
            ) && kv_val(final(self)@, id).executed && kv_val(final(self)@, id).sender == kv_val(
                old(self)@,
                id,
            ).sender && kv_val(final(self)@, id).receiver == kv_val(old(self)@, id).receiver
                && kv_val(final(self)@, id).amount == kv_val(old(self)@, id).amount && kv_val(
                final(self)@,
                id,
            ).proof_text == kv_val(old(self)@, id).proof_text,
    {
        match self.transactions.index_of(id) {
            Some(i) => {
                if self.transactions.val_at(i).executed {
                    return Err("executed");
                }
                let placeholder = Transaction {
                    sender: String::new(),
                    receiver: String::new(),
                    amount: 0,
                    proof_text: String::new(),
                    executed: false,
                };
                let tx = self.transactions.replace_val_at(i, placeholder);
                self.transactions.set_val_at(i, Transaction { executed: true, ..tx });
                proof {
                    kv_idx_unique(old(self)@, id, i as int);
                    kv_idx_unique(self@, id, i as int);
                }
                Ok(())
            },
            None => Err("not found"),
        }
    }
}

} // verus!
