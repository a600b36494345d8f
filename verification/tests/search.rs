use athenut_mint::amount::Unit;
use athenut_mint::config::SearchSettings;
use athenut_mint::db::SearchCount;

#[test]
fn search_count_grows_by_one() {
    let count = SearchCount { all_time_search_count: 41 };
    assert_eq!(count.incremented(), Some(SearchCount { all_time_search_count: 42 }));
    assert_eq!(SearchCount { all_time_search_count: u64::MAX }.incremented(), None);
    assert_eq!(
        SearchCount { all_time_search_count: 0 }.incremented(),
        Some(SearchCount { all_time_search_count: 1 })
    );
}

#[test]
fn search_settings_hold_the_token() {
    let settings = SearchSettings { kagi_auth_token: "token".to_string() };
    assert_eq!(settings.clone().kagi_auth_token, "token");
    assert_eq!(SearchSettings::default().kagi_auth_token, "");
}

#[test]
fn units_compare_by_name() {
    let xsr = Unit::settlement();
    assert_eq!(xsr, Unit::Custom("xsr".to_string()));
    assert!(xsr.is_settlement());
    assert!(xsr.same_as(&xsr.duplicate()));
    assert!(!xsr.same_as(&Unit::Custom("usd".to_string())));
    assert!(!Unit::Sat.same_as(&Unit::Msat));
    assert!(Unit::Eur.same_as(&Unit::Eur));
    assert!(!Unit::Sat.is_settlement());
}
