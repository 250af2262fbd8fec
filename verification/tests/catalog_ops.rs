use hshopper::catalog::{Catalog, CatalogError};

#[test]
fn insert_then_lookup_resolves_id() {
    let mut c = Catalog::new();
    assert_eq!(c.add_title(77, "Mario"), Ok(77));
    assert_eq!(c.get_title_id("mario"), 77);
}

#[test]
fn lookup_never_inserted_returns_sentinel() {
    let mut c = Catalog::new();
    assert_eq!(c.get_title_id("zelda"), -1);
    assert_eq!(c.add_title(1, "mario"), Ok(1));
    assert_eq!(c.get_title_id("zelda"), -1);
}

#[test]
fn lookup_matches_normalized_name_exactly() {
    let mut c = Catalog::new();
    assert_eq!(c.add_title(5, "Mario Kart 7"), Ok(5));
    assert_eq!(c.get_title_id("mario-kart-7"), 5);
    assert_eq!(c.get_title_id("Mario Kart 7"), -1);
}

#[test]
fn insert_same_id_twice_conflicts() {
    let mut c = Catalog::new();
    assert_eq!(c.add_title(9, "first"), Ok(9));
    assert_eq!(c.add_title(9, "second"), Err(CatalogError::IdConflict));
    assert_eq!(c.add_title(9, "first"), Err(CatalogError::IdConflict));
    assert_eq!(c.get_title_id("first"), 9);
    assert_eq!(c.get_title_id("second"), -1);
}

#[test]
fn search_returns_matches_in_catalog_order() {
    let mut c = Catalog::new();
    assert_eq!(c.add_title(1, "Super Mario Land"), Ok(1));
    assert_eq!(c.add_title(2, "Zelda"), Ok(2));
    assert_eq!(c.add_title(3, "Mario Kart"), Ok(3));
    let r = c.search_titles_by_name("mario");
    assert_eq!(r, vec!["super-mario-land".to_string(), "mario-kart".to_string()]);
}

#[test]
fn search_is_case_insensitive_via_normalization() {
    let mut c = Catalog::new();
    assert_eq!(c.add_title(1, "Super Mario Land"), Ok(1));
    let r = c.search_titles_by_name("MARIO");
    assert_eq!(r, vec!["super-mario-land".to_string()]);
    let spaced = c.search_titles_by_name("Mario La");
    assert_eq!(spaced, vec!["super-mario-land".to_string()]);
}

#[test]
fn search_caps_at_ten_results() {
    let mut c = Catalog::new();
    for i in 0..12u32 {
        let name = format!("mario {i}");
        assert_eq!(c.add_title(i, &name), Ok(i));
    }
    let r = c.search_titles_by_name("mario");
    assert_eq!(r.len(), 10);
    for (i, name) in r.iter().enumerate() {
        assert_eq!(name, &format!("mario-{i}"));
        assert!(name.contains("mario"));
    }
}

#[test]
fn search_without_match_is_empty() {
    let mut c = Catalog::new();
    assert_eq!(c.add_title(1, "mario"), Ok(1));
    assert!(c.search_titles_by_name("zelda").is_empty());
}

#[test]
fn get_supported_titles_lists_all_in_order() {
    let mut c = Catalog::new();
    assert!(c.get_supported_titles().is_empty());
    assert_eq!(c.add_title(3, "C Title"), Ok(3));
    assert_eq!(c.add_title(1, "A Title"), Ok(1));
    assert_eq!(c.add_title(2, "B Title"), Ok(2));
    let all = c.get_supported_titles();
    assert_eq!(
        all,
        vec!["c-title".to_string(), "a-title".to_string(), "b-title".to_string()]
    );
}
