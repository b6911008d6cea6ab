use vstd::prelude::*;
use crate::idmap::IdMap;
use crate::kv::{kv_has, kv_idx, kv_val};
use crate::sets::{StrSet, U64Set};

verus! {

/// A bridging request: the token, its owner, the chains involved, and whether
/// the transfer completed.
pub struct BridgeRequest {
    pub owner: String,
    pub token_id: u64,
    pub source_chain: String,
    pub target_chain: String,
    pub target_owner: Option<String>,
    pub completed: bool,
}

/// A token bridge: locking a token opens a request, and a registered relayer
/// releases it on the target chain, unlocking the token.
pub struct NFTBridge {
    pub relayers: StrSet,
    pub requests: IdMap<BridgeRequest>,
    pub locked_tokens: U64Set,
    pub next_id: u64,
}

impl NFTBridge {
    pub open spec fn wf(&self) -> bool {
        &&& self.relayers.wf()
        &&& self.requests.wf()
        &&& self.locked_tokens.wf()
        &&& forall|i: int| 0 <= i < self.requests@.len() ==> (#[trigger] self.requests@[i]).0
            <= self.next_id
    }

    pub fn new() -> (r: Self)
        ensures
            r.wf(),
            r.relayers@ == Seq::<Seq<char>>::empty(),
            r.requests@ == Seq::<(u64, BridgeRequest)>::empty(),
            r.locked_tokens@ == Seq::<u64>::empty(),
            r.next_id == 0,
    {
        NFTBridge {
            relayers: StrSet::new(),
            requests: IdMap::new(),
            locked_tokens: U64Set::new(),
            next_id: 0,
        }
    }

    /// Registers a relayer; registering one twice changes nothing.
    pub fn add_relayer(&mut self, relayer: String)
        requires
            old(self).wf(),
        ensures
            final(self).wf(),
            final(self).requests@ == old(self).requests@,
            final(self).locked_tokens@ == old(self).locked_tokens@,
            final(self).next_id == old(self).next_id,
            final(self).relayers@.contains(relayer@),
            old(self).relayers@.contains(relayer@) ==> final(self).relayers@ == old(self).relayers@,
            !old(self).relayers@.contains(relayer@) ==> final(self).relayers@ == old(self).relayers@.push(relayer@),
    {
        let ghost pre = self.relayers@;
        self.relayers.insert(relayer);
        proof {
            if !pre.contains(relayer@) {
                assert(self.relayers@[self.relayers@.len() - 1] == relayer@);
            }
        }
    }

    /// Locks a token and opens a bridging request for it; a token already
    /// locked fails and changes nothing.
    pub fn lock_nft(
        &mut self,
        owner: String,
        token_id: u64,
        source_chain: String,
        target_chain: String,
    ) -> (r: Result<u64, &'static str>)
        requires
            old(self).wf(),
            old(self).next_id < u64::MAX,
        ensures
            final(self).wf(),
            final(self).relayers@ == old(self).relayers@,
            old(self).locked_tokens@.contains(token_id) ==> r == Err::<u64, &'static str>("locked")
                && *final(self) == *old(self),
            !old(self).locked_tokens@.contains(token_id) ==> r == Ok::<u64, &'static str>(
                (old(self).next_id + 1) as u64,
            ) && final(self).next_id == old(self).next_id + 1 && final(self).locked_tokens@ == old(self).locked_tokens@.push(token_id) && final(self).requests@ == old(self).requests@.push(
                (
                    (old(self).next_id + 1) as u64,
                    (BridgeRequest {
                        owner,
                        token_id,
                        source_chain,
                        target_chain,
                        target_owner: None,
                        completed: false,
                    }),
                ),
            ),
    {
        if self.locked_tokens.contains(token_id) {
            return Err("locked");
        }
        self.locked_tokens.insert(token_id);
        self.next_id += 1;
        proof {
            assert(!kv_has(self.requests@, self.next_id));
        }
        self.requests.insert(
            self.next_id,
            BridgeRequest {
                owner,
                token_id,
                source_chain,
                target_chain,
                target_owner: None,
                completed: false,
            },
        );
        Ok(self.next_id)
    }

    /// A registered relayer completes a pending request, assigning the target
    /// owner and unlocking the token; the token identifier is returned.
    pub fn release(&mut self, caller: &str, request_id: u64, target_owner: String) -> (r: Result<
        u64,
        &'static str,
    >)
        requires
            old(self).wf(),
        ensures
            final(self).wf(),
            final(self).relayers@ == old(self).relayers@,
            final(self).next_id == old(self).next_id,
            !old(self).relayers@.contains(caller@) ==> r == Err::<u64, &'static str>("forbidden")
                && *final(self) == *old(self),
            old(self).relayers@.contains(caller@) && !kv_has(old(self).requests@, request_id)
                ==> r == Err::<u64, &'static str>("not found") && *final(self) == *old(self),
            old(self).relayers@.contains(caller@) && kv_has(old(self).requests@, request_id)
                && kv_val(old(self).requests@, request_id).completed ==> r == Err::<
                u64,
                &'static str,
            >("completed") && *final(self) == *old(self),
            old(self).relayers@.contains(caller@) && kv_has(old(self).requests@, request_id)
                && !kv_val(old(self).requests@, request_id).completed ==> {
                &&& r == Ok::<u64, &'static str>(kv_val(old(self).requests@, request_id).token_id)
                &&& final(self).requests@ == old(self).requests@.update(
                    kv_idx(old(self).requests@, request_id),
                    (
                        request_id,
                        (BridgeRequest {
                            owner: kv_val(old(self).requests@, request_id).owner,
                            token_id: kv_val(old(self).requests@, request_id).token_id,
                            source_chain: kv_val(old(self).requests@, request_id).source_chain,
                            target_chain: kv_val(old(self).requests@, request_id).target_chain,
                            target_owner: Some(target_owner),
                            completed: true,
                        }),
                    ),
                )
                &&& !final(self).locked_tokens@.contains(
                    kv_val(old(self).requests@, request_id).token_id,
                )
                &&& (if old(self).locked_tokens@.contains(
                    kv_val(old(self).requests@, request_id).token_id,
                ) {
                    final(self).locked_tokens@ == old(self).locked_tokens@.remove(
                        old(self).locked_tokens@.index_of(
                            kv_val(old(self).requests@, request_id).token_id,
                        ),
                    )
                } else {
                    final(self).locked_tokens@ == old(self).locked_tokens@
                })
            },
    {
        if !self.relayers.contains(caller) {
            return Err("forbidden");
        }
        match self.requests.index_of(request_id) {
            Some(i) => {
                if self.requests.val_at(i).completed {
                    return Err("completed");
                }
                let placeholder = BridgeRequest {
                    owner: String::new(),
                    token_id: 0,
                    source_chain: String::new(),
                    target_chain: String::new(),
                    target_owner: None,
                    completed: false,
                };
                let req = self.requests.replace_val_at(i, placeholder);
                let token_id = req.token_id;
                self.requests.set_val_at(
                    i,
                    BridgeRequest {
                        owner: req.owner,
                        token_id: req.token_id,
                        source_chain: req.source_chain,
                        target_chain: req.target_chain,
                        target_owner: Some(target_owner),
                        completed: true,
                    },
                );
                self.locked_tokens.remove(token_id);
                Ok(token_id)
            },
            None => Err("not found"),
        }
    }

    /// Says whether a token is locked in the bridge.
    pub fn is_locked(&self, token_id: u64) -> (r: bool)
        requires
            self.wf(),
        ensures
            r == self.locked_tokens@.contains(token_id),
    {
        self.locked_tokens.contains(token_id)
    }
}

} // verus!
