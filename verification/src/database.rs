use vstd::prelude::*;
use crate::config::ClickHouseConfig;
use crate::models::TowerMetadata;

verus! {

/// The identifier of the catalogue tower that `get_default_tower` answers for
/// `tower_id`: tower 2 for 2, tower 1 for every other identifier.
pub open spec fn default_tower_id(tower_id: u32) -> u32 {
    if tower_id == 2 { 2 } else { 1 }
}

/// Tower 1 of the built-in catalogue.
pub open spec fn is_tower_one(t: TowerMetadata) -> bool {
    &&& t.tower_id == 1
    &&& t.tower_name@ == "临冲吕公车-一号"@
    &&& t.build_date@ == "1450-03-15"@
    &&& t.material@ == "松木+铁木"@
    &&& t.total_height == 18_500
    &&& t.total_layers == 5
    &&& t.base_width == 6_200
    &&& t.base_depth == 4_800
    &&& t.total_weight == 28_500
    &&& t.design_load == 850_000
    &&& t.design_wind_speed == 35_000
    &&& t.material_strength == 45_000
    &&& t.elastic_modulus == 12_000_000
    &&& t.poisson_ratio == 380
}

/// Tower 2 of the built-in catalogue.
pub open spec fn is_tower_two(t: TowerMetadata) -> bool {
    &&& t.tower_id == 2
    &&& t.tower_name@ == "临冲吕公车-二号"@
    &&& t.build_date@ == "1452-07-22"@
    &&& t.material@ == "柏木+楠木"@
    &&& t.total_height == 21_000
    &&& t.total_layers == 6
    &&& t.base_width == 6_800
    &&& t.base_depth == 5_200
    &&& t.total_weight == 36_800
    &&& t.design_load == 1_020_000
    &&& t.design_wind_speed == 40_000
    &&& t.material_strength == 52_000
    &&& t.elastic_modulus == 13_500_000
    &&& t.poisson_ratio == 360
}

/// The catalogue entry of `tower_id`: tower 2 for identifier 2 and tower 1
/// for any other identifier.
pub fn get_default_tower(tower_id: u32) -> (t: TowerMetadata)
    ensures
        t.tower_id == default_tower_id(tower_id),
        tower_id == 2 ==> is_tower_two(t),
        tower_id != 2 ==> is_tower_one(t),
{
    if tower_id == 2 {
        TowerMetadata {
            tower_id: 2,
            tower_name: "临冲吕公车-二号".to_string(),
            build_date: "1452-07-22".to_string(),
            material: "柏木+楠木".to_string(),
            total_height: 21_000,
            total_layers: 6,
            base_width: 6_800,
            base_depth: 5_200,
            total_weight: 36_800,
            design_load: 1_020_000,
            design_wind_speed: 40_000,
            material_strength: 52_000,
            elastic_modulus: 13_500_000,
            poisson_ratio: 360,
        }
    } else {
        TowerMetadata {
            tower_id: 1,
            tower_name: "临冲吕公车-一号".to_string(),
            build_date: "1450-03-15".to_string(),
            material: "松木+铁木".to_string(),
            total_height: 18_500,
            total_layers: 5,
            base_width: 6_200,
            base_depth: 4_800,
            total_weight: 28_500,
            design_load: 850_000,
            design_wind_speed: 35_000,
            material_strength: 45_000,
            elastic_modulus: 12_000_000,
            poisson_ratio: 380,
        }
    }
}

/// The whole catalogue, as the tower listing reports it: tower 1, then
/// tower 2.
pub fn all_default_towers() -> (towers: Vec<TowerMetadata>)
    ensures
        towers@.len() == 2,
        is_tower_one(towers@[0]),
        is_tower_two(towers@[1]),
{
    let mut towers: Vec<TowerMetadata> = Vec::new();
    towers.push(get_default_tower(1));
    towers.push(get_default_tower(2));
    towers
}

/// Looking a tower up again by the identifier of the tower returned gives the
/// same catalogue entry: the catalogue choice is idempotent.
pub proof fn lemma_default_tower_idempotent(tower_id: u32)
    ensures
        default_tower_id(default_tower_id(tower_id)) == default_tower_id(tower_id),
{
}

/// The ClickHouse endpoint that the client connects to: the configured URL
/// with the configured database selected by a `database` query parameter.
pub fn connection_url(config: &ClickHouseConfig) -> (url: String)
    ensures
        url@ == config.url@ + "?database="@ + config.database@,
{
    let mut url: String = config.url.clone();
    url.append("?database=");
    url.append(config.database.as_str());
    url
}

} // verus!
