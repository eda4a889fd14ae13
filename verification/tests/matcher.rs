use tracker_bridge::matcher::chars_of;
use tracker_bridge::matcher::contains_chars;
use tracker_bridge::matcher::is_tracker;
use tracker_bridge::matcher::matches_at;
use tracker_bridge::matcher::name_matches;
use tracker_bridge::matcher::PeripheralProperties;
use tracker_bridge::matcher::TARGET_NAME;

fn named(name: &str) -> PeripheralProperties {
    PeripheralProperties { local_name: Some(name.to_string()) }
}

#[test]
fn tracker_name_matches() {
    assert!(is_tracker(Some(&named("ID107Plus HR"))));
    assert!(name_matches("ID107Plus HR"));
    assert_eq!(TARGET_NAME, "ID107Plus HR");
}

#[test]
fn name_around_the_product_string_matches() {
    assert!(is_tracker(Some(&named("My ID107Plus HR"))));
    assert!(is_tracker(Some(&named("ID107Plus HR (2)"))));
    assert!(is_tracker(Some(&named("xxID107Plus HRyy"))));
    assert!(is_tracker(Some(&named("ID107ID107Plus HR"))));
    assert!(is_tracker(Some(&named("\u{00e9}t\u{00e9} ID107Plus HR \u{2764}"))));
}

#[test]
fn generic_fitness_band_is_not_the_tracker() {
    assert!(!is_tracker(Some(&named("Generic Fitness Band"))));
}

#[test]
fn absent_name_is_not_the_tracker() {
    assert!(!is_tracker(Some(&PeripheralProperties { local_name: None })));
}

#[test]
fn unknown_properties_are_not_the_tracker() {
    assert!(!is_tracker(None));
}

#[test]
fn empty_name_is_not_the_tracker() {
    assert!(!is_tracker(Some(&named(""))));
}

#[test]
fn other_names_are_not_the_tracker() {
    assert!(!is_tracker(Some(&named("ID107 Lite"))));
    assert!(!is_tracker(Some(&named("ID107Plus H"))));
    assert!(!is_tracker(Some(&named("D107Plus HR"))));
    assert!(!is_tracker(Some(&named("id107plus hr"))));
    assert!(!is_tracker(Some(&named("ID107PlusHR"))));
    assert!(!is_tracker(Some(&named("ID107Plus  HR"))));
    assert!(!is_tracker(Some(&named("RH sulP701DI"))));
}

#[test]
fn chars_of_lists_the_characters() {
    assert_eq!(chars_of(""), Vec::<char>::new());
    assert_eq!(chars_of("HR"), vec!['H', 'R']);
    assert_eq!(chars_of("\u{00e9}a"), vec!['\u{00e9}', 'a']);
}

#[test]
fn search_finds_every_position() {
    let hay = chars_of("abcabd");
    assert!(contains_chars(&hay, &chars_of("abc")));
    assert!(contains_chars(&hay, &chars_of("abd")));
    assert!(contains_chars(&hay, &chars_of("d")));
    assert!(contains_chars(&hay, &chars_of("abcabd")));
    assert!(contains_chars(&hay, &chars_of("")));
    assert!(contains_chars(&chars_of(""), &chars_of("")));
    assert!(!contains_chars(&hay, &chars_of("abe")));
    assert!(!contains_chars(&hay, &chars_of("abcabda")));
    assert!(!contains_chars(&chars_of(""), &chars_of("a")));
}

#[test]
fn matches_at_compares_in_place() {
    let hay = chars_of("abcabd");
    assert!(matches_at(&hay, &chars_of("abc"), 0));
    assert!(!matches_at(&hay, &chars_of("abc"), 3));
    assert!(matches_at(&hay, &chars_of("abd"), 3));
    assert!(matches_at(&hay, &chars_of(""), 6));
}
