use vstd::prelude::*;
use crate::kv::{kv_has, kv_idx, kv_val, kv_idx_unique};
use crate::smap::StrMap;

verus! {

/// One event in an asset's history: when, who, what, and an optional
/// reference.
pub struct ProvenanceEvent {
    pub timestamp: u64,
    pub actor: String,
    pub action: String,
    pub reference: Option<String>,
}

/// A provenance ledger: each asset is registered once and accumulates an
/// append-only event history.
pub struct AssetProvenance {
    pub records: StrMap<Vec<ProvenanceEvent>>,
}

impl AssetProvenance {
    pub open spec fn view(&self) -> Seq<(Seq<char>, Vec<ProvenanceEvent>)> {
        self.records@
    }

    pub open spec fn wf(&self) -> bool {
        self.records.wf()
    }

    pub fn new() -> (r: Self)
        ensures
            r.wf(),
            r@ == Seq::<(Seq<char>, Vec<ProvenanceEvent>)>::empty(),
    {
        AssetProvenance { records: StrMap::new() }
    }

    /// Registers an asset with a single initial event recording the
    /// registration; an asset already present fails and changes nothing.
    pub fn register_asset(
        &mut self,
        asset_id: String,
        timestamp: u64,
        actor: String,
        reference: Option<String>,
    ) -> (r: Result<(), &'static str>)
        requires
            old(self).wf(),
        ensures
            final(self).wf(),
            kv_has(old(self)@, asset_id@) ==> r == Err::<(), &'static str>("asset exists")
                && *final(self) == *old(self),
            !kv_has(old(self)@, asset_id@) ==> r == Ok::<(), &'static str>(()) && final(self)@.len()
                == old(self)@.len() + 1 && final(self)@ == old(self)@.push(
                (asset_id@, final(self)@.last().1),
            ) && final(self)@.last().1@.len() == 1 && final(self)@.last().1@[0].timestamp
                == timestamp && final(self)@.last().1@[0].actor == actor && final(self)@.last().1@[0].action@ == "registered"@ && final(self)@.last().1@[0].reference
                == reference,
    {
        if self.records.contains_key(asset_id.as_str()) {
            return Err("asset exists");
        }
        let tag: &str = "registered";
        let event = ProvenanceEvent { timestamp, actor, action: tag.to_owned(), reference };
        let mut events: Vec<ProvenanceEvent> = Vec::new();
        events.push(event);
        self.records.insert(asset_id, events);
        Ok(())
    }

    /// Appends an event to a registered asset's history.
    pub fn add_event(
        &mut self,
        asset_id: &str,
        action: String,
        actor: String,
        timestamp: u64,
        reference: Option<String>,
    ) -> (r: Result<(), &'static str>)
        requires
            old(self).wf(),
        ensures
            final(self).wf(),
            !kv_has(old(self)@, asset_id@) ==> r == Err::<(), &'static str>("missing asset")
                && *final(self) == *old(self),
            kv_has(old(self)@, asset_id@) ==> r == Ok::<(), &'static str>(()) && final(self)@
                == old(self)@.update(
                kv_idx(old(self)@, asset_id@),
                (asset_id@, kv_val(final(self)@, asset_id@)),
            ) && kv_val(final(self)@, asset_id@)@ == kv_val(old(self)@, asset_id@)@.push(
                (ProvenanceEvent { timestamp, actor, action, reference }),
            ),
    {
        match self.records.index_of(asset_id) {
            Some(i) => {
                let mut events = self.records.replace_val_at(i, Vec::new());
                events.push(ProvenanceEvent { timestamp, actor, action, reference });
                self.records.set_val_at(i, events);
                proof {
                    kv_idx_unique(self@, asset_id@, i as int);
                    assert(self@ =~= old(self)@.update(
                        kv_idx(old(self)@, asset_id@),
                        (asset_id@, kv_val(self@, asset_id@)),
                    ));
                }
                Ok(())
            },
            None => Err("missing asset"),
        }
    }

    /// Reads an asset's event history.
    pub fn history(&self, asset_id: &str) -> (r: Option<&Vec<ProvenanceEvent>>)
        requires
            self.wf(),
        ensures
            match r {
                Some(events) => kv_has(self@, asset_id@) && *events == kv_val(self@, asset_id@),
                None => !kv_has(self@, asset_id@),
            },
    {
        self.records.get(asset_id)
    }
}

} // verus!
