use vstd::prelude::*;
use crate::models::{soil_name, SoilType};

verus! {

/// Paging and filtering parameters of the query endpoints.
#[derive(Clone, Debug)]
pub struct PaginationQuery {
    pub limit: Option<u64>,
    pub offset: Option<u64>,
    pub start: Option<String>,
    pub end: Option<String>,
    pub layer_id: Option<u8>,
}

/// The requested limit, or `default` when none was given, capped at `cap`.
pub open spec fn capped_limit(limit: Option<u64>, default: u64, cap: u64) -> u64 {
    let wanted = match limit {
        Some(n) => n,
        None => default,
    };
    if wanted < cap { wanted } else { cap }
}

/// The soil that a request names: `sand`, `clay`, `silt` and `rock` name
/// those soils; any other name, or none, means loam.
pub open spec fn requested_soil(soil: Option<Seq<char>>) -> SoilType {
    match soil {
        Some(s) => if s == "sand"@ {
            SoilType::Sand
        } else if s == "clay"@ {
            SoilType::Clay
        } else if s == "silt"@ {
            SoilType::Silt
        } else if s == "rock"@ {
            SoilType::Rock
        } else {
            SoilType::Loam
        },
        None => SoilType::Loam,
    }
}

/// How many sensor records a query returns: the requested limit (100 when
/// none is given), at most 1000.
pub fn sensor_query_limit(limit: Option<u64>) -> (n: u64)
    ensures
        n == capped_limit(limit, 100, 1000),
        n <= 1000,
        limit is None ==> n == 100,
        limit matches Some(k) ==> (k <= 1000 ==> n == k) && (k > 1000 ==> n == 1000),
{
    let wanted: u64 = match limit {
        Some(n) => n,
        None => 100,
    };
    if wanted < 1000 { wanted } else { 1000 }
}

/// How many alert events a query returns: the requested limit (50 when none
/// is given), at most 500.
pub fn alert_query_limit(limit: Option<u64>) -> (n: u64)
    ensures
        n == capped_limit(limit, 50, 500),
        n <= 500,
        limit is None ==> n == 50,
        limit matches Some(k) ==> (k <= 500 ==> n == k) && (k > 500 ==> n == 500),
{
    let wanted: u64 = match limit {
        Some(n) => n,
        None => 50,
    };
    if wanted < 500 { wanted } else { 500 }
}

/// A requested limit no larger than the cap is used as requested; a larger
/// one is cut to the cap; without a request the default is used (capped).
pub proof fn lemma_capped_limit_keeps_small_requests(limit: Option<u64>, default: u64, cap: u64)
    ensures
        capped_limit(limit, default, cap) <= cap,
        limit matches Some(k) ==> (k <= cap ==> capped_limit(limit, default, cap) == k),
        limit matches Some(k) ==> (k > cap ==> capped_limit(limit, default, cap) == cap),
        (limit is None && default <= cap) ==> capped_limit(limit, default, cap) == default,
{
}

/// The soil named by a request's `soil_type` parameter; loam when the name is
/// missing or unknown.
pub fn soil_type_from_query(soil: Option<&str>) -> (t: SoilType)
    ensures
        t == requested_soil(
            match soil {
                Some(s) => Some(s@),
                None => None,
            },
        ),
{
    match soil {
        Some(s) => {
            let name: String = s.to_string();
            if name == "sand".to_string() {
                SoilType::Sand
            } else if name == "clay".to_string() {
                SoilType::Clay
            } else if name == "silt".to_string() {
                SoilType::Silt
            } else if name == "rock".to_string() {
                SoilType::Rock
            } else {
                SoilType::Loam
            }
        },
        None => SoilType::Loam,
    }
}

/// A soil's reported name, sent back as a request's `soil_type`, names that
/// same soil.
pub proof fn lemma_soil_name_round_trip(soil: SoilType)
    ensures
        requested_soil(Some(soil_name(soil))) == soil,
{
    reveal_strlit("rock");
    reveal_strlit("sand");
    reveal_strlit("loam");
    reveal_strlit("silt");
    reveal_strlit("clay");
    assert("rock"@[0] != "sand"@[0]);
    assert("rock"@[0] != "clay"@[0]);
    assert("rock"@[0] != "silt"@[0]);
    assert("loam"@[0] != "sand"@[0]);
    assert("loam"@[0] != "clay"@[0]);
    assert("loam"@[0] != "silt"@[0]);
    assert("loam"@[0] != "rock"@[0]);
    assert("silt"@[1] != "sand"@[1]);
    assert("silt"@[0] != "clay"@[0]);
    assert("clay"@[0] != "sand"@[0]);
}

} // verus!
