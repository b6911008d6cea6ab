use vstd::prelude::*;
use crate::kv::{kv_has, kv_idx, kv_val, kv_idx_unique};
use crate::smap::StrMap;
use crate::strutil::str_eq_string;

verus! {

/// A licence on an asset: who holds it, under which terms, and whether it
/// still stands.
pub struct License {
    pub licensee: String,
    pub terms: String,
    pub active: bool,
}

/// An intellectual-property asset: its owner, metadata and granted licences.
pub struct IPAsset {
    pub owner: String,
    pub metadata: String,
    pub licenses: Vec<License>,
}

/// The active licences of `ls`, in granting order.
pub open spec fn active_of(ls: Seq<License>) -> Seq<License>
    decreases ls.len(),
{
    if ls.len() == 0 {
        Seq::empty()
    } else {
        let rest = active_of(ls.drop_last());
        if ls.last().active {
            rest.push(ls.last())
        } else {
            rest
        }
    }
}

/// An intellectual-property licensing register.
pub struct IPLicensing {
    pub assets: StrMap<IPAsset>,
}

impl IPLicensing {
    pub open spec fn view(&self) -> Seq<(Seq<char>, IPAsset)> {
        self.assets@
    }

    pub open spec fn wf(&self) -> bool {
        self.assets.wf()
    }

    pub fn new() -> (r: Self)
        ensures
            r.wf(),
            r@ == Seq::<(Seq<char>, IPAsset)>::empty(),
    {
        IPLicensing { assets: StrMap::new() }
    }

    /// Registers (or replaces) an asset with no licences.
    pub fn register_asset(&mut self, asset_id: String, owner: String, metadata: String)
        requires
            old(self).wf(),
        ensures
            final(self).wf(),
            kv_has(old(self)@, asset_id@) ==> final(self)@ == old(self)@.update(
                kv_idx(old(self)@, asset_id@),
                (asset_id@, final(self)@[kv_idx(old(self)@, asset_id@)].1),
            ) && final(self)@[kv_idx(old(self)@, asset_id@)].1.owner == owner && final(self)@[kv_idx(
                old(self)@,
                asset_id@,
            )].1.metadata == metadata && final(self)@[kv_idx(old(self)@, asset_id@)].1.licenses@
                == Seq::<License>::empty(),
            !kv_has(old(self)@, asset_id@) ==> final(self)@ == old(self)@.push(
                (asset_id@, final(self)@.last().1),
            ) && final(self)@.last().1.owner == owner && final(self)@.last().1.metadata == metadata
                && final(self)@.last().1.licenses@ == Seq::<License>::empty(),
    {
        self.assets.insert(asset_id, IPAsset { owner, metadata, licenses: Vec::new() });
        proof {
            if kv_has(old(self)@, asset_id@) {
                kv_idx_unique(old(self)@, self@[kv_idx(old(self)@, asset_id@)].0, kv_idx(
                    old(self)@,
                    asset_id@,
                ));
            }
        }
    }

    /// The owner hands the asset to a new owner; licences are kept.
    pub fn transfer(&mut self, asset_id: &str, caller: &str, new_owner: String) -> (r: Result<
        (),
        &'static str,
    >)
        requires
            old(self).wf(),
        ensures
            final(self).wf(),
            !kv_has(old(self)@, asset_id@) ==> r == Err::<(), &'static str>("unknown") && *final(self) == *old(self),
            kv_has(old(self)@, asset_id@) && kv_val(old(self)@, asset_id@).owner@ != caller@
                ==> r == Err::<(), &'static str>("forbidden") && *final(self) == *old(self),
            kv_has(old(self)@, asset_id@) && kv_val(old(self)@, asset_id@).owner@ == caller@
                ==> r == Ok::<(), &'static str>(()) && final(self)@ == old(self)@.update(
                kv_idx(old(self)@, asset_id@),
                (
                    asset_id@,
                    (IPAsset {
                        owner: new_owner,
                        metadata: kv_val(old(self)@, asset_id@).metadata,
                        licenses: kv_val(old(self)@, asset_id@).licenses,
                    }),
                ),
            ),
    {
        match self.assets.index_of(asset_id) {
            Some(i) => {
                if !str_eq_string(caller, &self.assets.val_at(i).owner) {
                    return Err("forbidden");
                }
                let placeholder = IPAsset {
                    owner: String::new(),
                    metadata: String::new(),
                    licenses: Vec::new(),
                };
                let prior = self.assets.replace_val_at(i, placeholder);
                self.assets.set_val_at(
                    i,
                    IPAsset { owner: new_owner, metadata: prior.metadata, licenses: prior.licenses },
                );
                proof {
                    assert(self@ =~= old(self)@.update(
                        kv_idx(old(self)@, asset_id@),
                        (asset_id@, self@[i as int].1),
                    ));
                }
                Ok(())
            },
            None => Err("unknown"),
        }
    }

    /// The owner grants an active licence to `licensee` under `terms`.
    pub fn grant_license(&mut self, asset_id: &str, caller: &str, licensee: String, terms: String)
        -> (r: Result<(), &'static str>)
        requires
            old(self).wf(),
        ensures
            final(self).wf(),
            !kv_has(old(self)@, asset_id@) ==> r == Err::<(), &'static str>("unknown") && *final(self) == *old(self),
            kv_has(old(self)@, asset_id@) && kv_val(old(self)@, asset_id@).owner@ != caller@
                ==> r == Err::<(), &'static str>("forbidden") && *final(self) == *old(self),
            kv_has(old(self)@, asset_id@) && kv_val(old(self)@, asset_id@).owner@ == caller@
                ==> r == Ok::<(), &'static str>(()) && final(self)@ == old(self)@.update(
                kv_idx(old(self)@, asset_id@),
                (asset_id@, kv_val(final(self)@, asset_id@)),
            ) && kv_val(final(self)@, asset_id@).owner == kv_val(old(self)@, asset_id@).owner
                && kv_val(final(self)@, asset_id@).metadata == kv_val(
                old(self)@,
                asset_id@,
            ).metadata && kv_val(final(self)@, asset_id@).licenses@ == kv_val(
                old(self)@,
                asset_id@,
            ).licenses@.push((License { licensee, terms, active: true })),
    {
        match self.assets.index_of(asset_id) {
            Some(i) => {
                if !str_eq_string(caller, &self.assets.val_at(i).owner) {
                    return Err("forbidden");
                }
                let placeholder = IPAsset {
                    owner: String::new(),
                    metadata: String::new(),
                    licenses: Vec::new(),
                };
                let mut prior = self.assets.replace_val_at(i, placeholder);
                prior.licenses.push(License { licensee, terms, active: true });
                self.assets.set_val_at(i, prior);
                proof {
                    kv_idx_unique(self@, asset_id@, i as int);
                    assert(self@ =~= old(self)@.update(
                        kv_idx(old(self)@, asset_id@),
                        (asset_id@, kv_val(self@, asset_id@)),
                    ));
                }
                Ok(())
            },
            None => Err("unknown"),
        }
    }

    /// The owner revokes the first licence held by `licensee`; holding none
    /// fails and changes nothing.
    pub fn revoke_license(&mut self, asset_id: &str, caller: &str, licensee: &str) -> (r: Result<
        (),
        &'static str,
    >)
        requires
            old(self).wf(),
        ensures
            final(self).wf(),
            !kv_has(old(self)@, asset_id@) ==> r == Err::<(), &'static str>("unknown") && *final(self) == *old(self),
            kv_has(old(self)@, asset_id@) && kv_val(old(self)@, asset_id@).owner@ != caller@
                ==> r == Err::<(), &'static str>("forbidden") && *final(self) == *old(self),
            kv_has(old(self)@, asset_id@) && kv_val(old(self)@, asset_id@).owner@ == caller@
                && r == Err::<(), &'static str>("not found") ==> final(self)@ == old(self)@
                && (forall|j: int|
                    0 <= j < kv_val(old(self)@, asset_id@).licenses@.len() ==> (#[trigger] kv_val(
                        old(self)@,
                        asset_id@,
                    ).licenses@[j]).licensee@ != licensee@),
            kv_has(old(self)@, asset_id@) && kv_val(old(self)@, asset_id@).owner@ == caller@
                && r == Ok::<(), &'static str>(()) ==> (exists|j: int|
                #![trigger kv_val(old(self)@, asset_id@).licenses@[j]]
                {
                    let ls = kv_val(old(self)@, asset_id@).licenses@;
                    &&& 0 <= j < ls.len()
                    &&& ls[j].licensee@ == licensee@
                    &&& (forall|k: int| 0 <= k < j ==> (#[trigger] ls[k]).licensee@ != licensee@)
                    &&& final(self)@ == old(self)@.update(
                        kv_idx(old(self)@, asset_id@),
                        (asset_id@, kv_val(final(self)@, asset_id@)),
                    )
                    &&& kv_val(final(self)@, asset_id@).owner == kv_val(
                        old(self)@,
                        asset_id@,
                    ).owner
                    &&& kv_val(final(self)@, asset_id@).metadata == kv_val(
                        old(self)@,
                        asset_id@,
                    ).metadata
                    &&& kv_val(final(self)@, asset_id@).licenses@ == ls.update(
                        j,
                        License { licensee: ls[j].licensee, terms: ls[j].terms, active: false },
                    )
                }),
            kv_has(old(self)@, asset_id@) && kv_val(old(self)@, asset_id@).owner@ == caller@
                ==> (r == Ok::<(), &'static str>(()) || r == Err::<(), &'static str>("not found")),
    {
        match self.assets.index_of(asset_id) {
            Some(i) => {
                if !str_eq_string(caller, &self.assets.val_at(i).owner) {
                    return Err("forbidden");
                }
                let placeholder = IPAsset {
                    owner: String::new(),
                    metadata: String::new(),
                    licenses: Vec::new(),
                };
                let mut prior = self.assets.replace_val_at(i, placeholder);
                let ghost snap = *self;
                let ghost ls = prior.licenses@;
                let n: usize = prior.licenses.len();
                let mut j: usize = 0;
                while j < n
                    invariant
                        0 <= j <= n,
                        *self == snap,
                        self.wf(),
                        i < self@.len(),
                        n == prior.licenses@.len(),
                        prior.licenses@ == ls,
                        prior == kv_val(old(self)@, asset_id@),
                        ls == kv_val(old(self)@, asset_id@).licenses@,
                        kv_val(old(self)@, asset_id@).owner@ == caller@,
                        kv_has(old(self)@, asset_id@),
                        i == kv_idx(old(self)@, asset_id@),
                        self@ == old(self)@.update(i as int, (old(self)@[i as int].0, self@[i as int].1)),
                        self@[i as int].0 == asset_id@,
                        forall|k: int| 0 <= k < j ==> (#[trigger] ls[k]).licensee@ != licensee@,
                    decreases n - j,
                {
                    if str_eq_string(licensee, &prior.licenses[j].licensee) {
                        let lic = prior.licenses.remove(j);
                        let lic2 = License {
                            licensee: lic.licensee,
                            terms: lic.terms,
                            active: false,
                        };
                        prior.licenses.insert(j, lic2);
                        proof {
                            assert(prior.licenses@ =~= ls.update(
                                j as int,
                                License {
                                    licensee: ls[j as int].licensee,
                                    terms: ls[j as int].terms,
                                    active: false,
                                },
                            ));
                        }
                        self.assets.set_val_at(i, prior);
                        proof {
                            kv_idx_unique(self@, asset_id@, i as int);
                            assert(self@ =~= old(self)@.update(
                                kv_idx(old(self)@, asset_id@),
                                (asset_id@, kv_val(self@, asset_id@)),
                            ));
                        }
                        return Ok(());
                    }
                    j += 1;
                }
                self.assets.set_val_at(i, prior);
                proof {
                    assert(self@ =~= old(self)@);
                }
                Err("not found")
            },
            None => Err("unknown"),
        }
    }

    /// The still-active licences of an asset, in granting order.
    pub fn active_licenses(&self, asset_id: &str) -> (r: Option<Vec<License>>)
        requires
            self.wf(),
        ensures
            match r {
                Some(v) => kv_has(self@, asset_id@) && v@ == active_of(
                    kv_val(self@, asset_id@).licenses@,
                ),
                None => !kv_has(self@, asset_id@),
            },
    {
        match self.assets.get(asset_id) {
            Some(asset) => {
                let n: usize = asset.licenses.len();
                let mut result: Vec<License> = Vec::new();
                let mut j: usize = 0;
                while j < n
                    invariant
                        0 <= j <= n,
                        n == asset.licenses@.len(),
                        result@ == active_of(asset.licenses@.take(j as int)),
                    decreases n - j,
                {
                    proof {
                        assert(asset.licenses@.take(j as int + 1).drop_last()
                            =~= asset.licenses@.take(j as int));
                        assert(asset.licenses@.take(j as int + 1).last()
                            == asset.licenses@[j as int]);
                    }
                    let lic = &asset.licenses[j];
                    if lic.active {
                        result.push(
                            License {
                                licensee: lic.licensee.clone(),
                                terms: lic.terms.clone(),
                                active: lic.active,
                            },
                        );
                    }
                    j += 1;
                }
                proof {
                    assert(asset.licenses@.take(n as int) =~= asset.licenses@);
                }
                Some(result)
            },
            None => None,
        }
    }
}

} // verus!
