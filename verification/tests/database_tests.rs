use siege_tower_backend::config::ClickHouseConfig;
use siege_tower_backend::database::{connection_url, get_default_tower};

#[test]
fn default_tower_one() {
    let t = get_default_tower(1);
    assert_eq!(t.tower_id, 1);
    assert_eq!(t.tower_name, "临冲吕公车-一号");
    assert_eq!(t.build_date, "1450-03-15");
    assert_eq!(t.material, "松木+铁木");
    assert_eq!(t.total_height, 18_500);
    assert_eq!(t.total_layers, 5);
    assert_eq!(t.base_width, 6_200);
    assert_eq!(t.base_depth, 4_800);
    assert_eq!(t.total_weight, 28_500);
    assert_eq!(t.design_load, 850_000);
    assert_eq!(t.design_wind_speed, 35_000);
    assert_eq!(t.material_strength, 45_000);
    assert_eq!(t.elastic_modulus, 12_000_000);
    assert_eq!(t.poisson_ratio, 380);
}

#[test]
fn default_tower_two() {
    let t = get_default_tower(2);
    assert_eq!(t.tower_id, 2);
    assert_eq!(t.tower_name, "临冲吕公车-二号");
    assert_eq!(t.build_date, "1452-07-22");
    assert_eq!(t.material, "柏木+楠木");
    assert_eq!(t.total_height, 21_000);
    assert_eq!(t.total_layers, 6);
    assert_eq!(t.base_width, 6_800);
    assert_eq!(t.base_depth, 5_200);
    assert_eq!(t.total_weight, 36_800);
    assert_eq!(t.design_load, 1_020_000);
    assert_eq!(t.design_wind_speed, 40_000);
    assert_eq!(t.material_strength, 52_000);
    assert_eq!(t.elastic_modulus, 13_500_000);
    assert_eq!(t.poisson_ratio, 360);
}

#[test]
fn unknown_towers_fall_back_to_tower_one() {
    for id in [0u32, 3, 7, 1000, u32::MAX] {
        let t = get_default_tower(id);
        assert_eq!(t.tower_id, 1);
        assert_eq!(t.tower_name, "临冲吕公车-一号");
        assert_eq!(t.total_layers, 5);
    }
}

#[test]
fn looking_up_the_returned_id_is_idempotent() {
    for id in [0u32, 1, 2, 3, 99] {
        let t = get_default_tower(id);
        let again = get_default_tower(t.tower_id);
        assert_eq!(again.tower_id, t.tower_id);
        assert_eq!(again.tower_name, t.tower_name);
    }
}

#[test]
fn fixed_point_values_convert_to_the_reported_decimals() {
    let t = get_default_tower(1);
    assert_eq!(t.total_height as f64 / 1000.0, 18.5);
    assert_eq!(t.base_width as f64 / 1000.0, 6.2);
    assert_eq!(t.poisson_ratio as f64 / 1000.0, 0.38);
    let u = get_default_tower(2);
    assert_eq!(u.base_depth as f64 / 1000.0, 5.2);
    assert_eq!(u.poisson_ratio as f64 / 1000.0, 0.36);
}

#[test]
fn connection_url_selects_the_database() {
    let c = ClickHouseConfig::from_env_values(None, None, None, None);
    assert_eq!(connection_url(&c), "http://localhost:8123?database=siege_tower");
    let d = ClickHouseConfig::from_env_values(
        Some("http://db:9000".to_string()),
        None,
        None,
        Some("towers".to_string()),
    );
    assert_eq!(connection_url(&d), "http://db:9000?database=towers");
}

#[test]
fn the_catalogue_lists_both_towers_in_order() {
    let all = siege_tower_backend::database::all_default_towers();
    assert_eq!(all.len(), 2);
    assert_eq!(all[0].tower_id, 1);
    assert_eq!(all[0].tower_name, "临冲吕公车-一号");
    assert_eq!(all[1].tower_id, 2);
    assert_eq!(all[1].tower_name, "临冲吕公车-二号");
}
