use vstd::prelude::*;
use crate::kv::{kv_has, kv_idx, kv_val};
use crate::smap::StrMap;

verus! {

/// Reported sustainability metrics of one entity, each on a 0..=100 scale
/// (values above 100 are tolerated and merely cap the score).
#[derive(Clone, Copy)]
pub struct Metrics {
    pub emissions_intensity: u8,
    pub renewable_ratio: u8,
    pub waste_recycled: u8,
}

/// The weighted score of a set of metrics: low emissions and renewables count
/// four-fold, recycling two-fold, scaled to at most 100.
pub open spec fn spec_score(m: Metrics) -> int {
    let emissions: int = if m.emissions_intensity <= 100 {
        100 - m.emissions_intensity
    } else {
        0
    };
    let weighted = emissions * 4 + m.renewable_ratio * 4 + m.waste_recycled * 2;
    if weighted / 10 < 100 {
        weighted / 10
    } else {
        100
    }
}

/// A registry of per-entity sustainability metrics with a derived score.
pub struct SustainabilityScore {
    pub metrics: StrMap<Metrics>,
}

impl SustainabilityScore {
    pub open spec fn view(&self) -> Seq<(Seq<char>, Metrics)> {
        self.metrics@
    }

    pub open spec fn wf(&self) -> bool {
        self.metrics.wf()
    }

    pub fn new() -> (r: Self)
        ensures
            r.wf(),
            r@ == Seq::<(Seq<char>, Metrics)>::empty(),
    {
        SustainabilityScore { metrics: StrMap::new() }
    }

    /// Records an entity's metrics, replacing any prior ones.
    pub fn update_metrics(
        &mut self,
        entity: String,
        emissions_intensity: u8,
        renewable_ratio: u8,
        waste_recycled: u8,
    )
        requires
            old(self).wf(),
        ensures
            final(self).wf(),
            kv_has(old(self)@, entity@) ==> final(self)@ == old(self)@.update(
                kv_idx(old(self)@, entity@),
                (entity@, (Metrics { emissions_intensity, renewable_ratio, waste_recycled })),
            ),
            !kv_has(old(self)@, entity@) ==> final(self)@ == old(self)@.push(
                (entity@, (Metrics { emissions_intensity, renewable_ratio, waste_recycled })),
            ),
    {
        self.metrics.insert(
            entity,
            Metrics { emissions_intensity, renewable_ratio, waste_recycled },
        );
    }

    /// The entity's weighted score, or nothing for an unknown entity.
    pub fn score(&self, entity: &str) -> (r: Option<u8>)
        requires
            self.wf(),
        ensures
            match r {
                Some(s) => kv_has(self@, entity@) && s == spec_score(kv_val(self@, entity@)),
                None => !kv_has(self@, entity@),
            },
    {
        match self.metrics.get(entity) {
            Some(m) => {
                let emissions_component: u32 = if m.emissions_intensity <= 100 {
                    100 - (m.emissions_intensity as u32)
                } else {
                    0
                };
                let renewable_component: u32 = m.renewable_ratio as u32;
                let waste_component: u32 = m.waste_recycled as u32;
                let weighted: u32 = emissions_component * 4 + renewable_component * 4
                    + waste_component * 2;
                let scaled: u32 = weighted / 10;
                let capped: u32 = if scaled < 100 {
                    scaled
                } else {
                    100
                };
                Some(capped as u8)
            },
            None => None,
        }
    }
}

} // verus!
