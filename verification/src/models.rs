use vstd::prelude::*;

verus! {

/// Static description of a siege tower.
///
/// Every measured quantity is held as an exact count of thousandths of the
/// unit in which the service reports it (fixed point with scale 1000):
/// `total_height`, `base_width` and `base_depth` in millimetres,
/// `total_weight` in kilograms (thousandths of a tonne), `design_load` in
/// thousandths of a kilonewton, `design_wind_speed` in millimetres per second,
/// `material_strength` and `elastic_modulus` in thousandths of a megapascal,
/// and `poisson_ratio` in thousandths.
#[derive(Clone, Debug)]
pub struct TowerMetadata {
    pub tower_id: u32,
    pub tower_name: String,
    pub build_date: String,
    pub material: String,
    pub total_height: u32,
    pub total_layers: u8,
    pub base_width: u32,
    pub base_depth: u32,
    pub total_weight: u32,
    pub design_load: u32,
    pub design_wind_speed: u32,
    pub material_strength: u32,
    pub elastic_modulus: u32,
    pub poisson_ratio: u32,
}

/// The soil on which a tower stands.
#[derive(Clone, Copy, Debug, PartialEq, Eq, Structural)]
pub enum SoilType {
    Rock,
    Sand,
    Loam,
    Silt,
    Clay,
}

/// The name under which a soil is reported and requested.
pub open spec fn soil_name(soil: SoilType) -> Seq<char> {
    match soil {
        SoilType::Rock => "rock"@,
        SoilType::Sand => "sand"@,
        SoilType::Loam => "loam"@,
        SoilType::Silt => "silt"@,
        SoilType::Clay => "clay"@,
    }
}

impl SoilType {
    /// The soil's name: `rock`, `sand`, `loam`, `silt` or `clay`.
    pub fn as_str(&self) -> (name: &'static str)
        ensures
            name@ == soil_name(*self),
    {
        match self {
            SoilType::Rock => "rock",
            SoilType::Sand => "sand",
            SoilType::Loam => "loam",
            SoilType::Silt => "silt",
            SoilType::Clay => "clay",
        }
    }
}

} // verus!
