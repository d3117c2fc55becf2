use vstd::prelude::*;
use crate::models::SoilType;

verus! {

/// Analyses how well the ground under a tower carries it.
#[derive(Clone, Copy, Debug)]
pub struct GroundAnalyzer;

/// The largest settlement, in millimetres, that a soil tolerates before the
/// settlement score starts to fall.
pub open spec fn max_settlement_mm(soil: SoilType) -> u32 {
    match soil {
        SoilType::Rock => 10,
        SoilType::Sand => 50,
        SoilType::Loam => 75,
        SoilType::Silt => 100,
        SoilType::Clay => 150,
    }
}

impl GroundAnalyzer {
    /// A ground analyser.
    pub fn new() -> (g: GroundAnalyzer)
        ensures
            g == GroundAnalyzer,
    {
        GroundAnalyzer
    }

    /// The settlement, in millimetres, that `soil` tolerates: 10 on rock,
    /// 50 on sand, 75 on loam, 100 on silt and 150 on clay.
    pub fn max_allowed_settlement(&self, soil: SoilType) -> (mm: u32)
        ensures
            mm == max_settlement_mm(soil),
    {
        match soil {
            SoilType::Rock => 10,
            SoilType::Sand => 50,
            SoilType::Loam => 75,
            SoilType::Silt => 100,
            SoilType::Clay => 150,
        }
    }
}

/// The softer the soil, the more settlement it tolerates: rock, sand, loam,
/// silt and clay tolerate strictly increasing settlements.
pub proof fn lemma_settlement_limits_increase()
    ensures
        max_settlement_mm(SoilType::Rock) < max_settlement_mm(SoilType::Sand),
        max_settlement_mm(SoilType::Sand) < max_settlement_mm(SoilType::Loam),
        max_settlement_mm(SoilType::Loam) < max_settlement_mm(SoilType::Silt),
        max_settlement_mm(SoilType::Silt) < max_settlement_mm(SoilType::Clay),
{
}

} // verus!
