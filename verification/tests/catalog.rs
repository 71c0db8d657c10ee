use indexmap::IndexMap;
use verusnft::nft::config::{check_catalog, Attribute, Config, ConfigError, Entry, Group};
use verusnft::text::first_repeated;

fn standard(key: &str) -> Entry {
    Entry { key: key.to_string(), attribute: Attribute::Standard(1) }
}

fn keyed(key: &str) -> Entry {
    Entry { key: key.to_string(), attribute: Attribute::Keyed(IndexMap::new()) }
}

fn group(name: &str, entries: Vec<Entry>) -> Group {
    Group { name: name.to_string(), entries }
}

fn catalog(attributes: Vec<Group>) -> Config {
    Config {
        name: "Goofy Gecko".to_string(),
        identity: "geckotest".to_string(),
        description: "A gecko".to_string(),
        attributes,
    }
}

fn texts(names: &[&str]) -> Vec<String> {
    names.iter().map(|n| n.to_string()).collect()
}

#[test]
fn a_catalog_of_distinct_names_and_keys_is_sound() {
    assert_eq!(check_catalog(&catalog(Vec::new())), Ok(()));
    assert_eq!(
        check_catalog(&catalog(vec![
            group("background", vec![standard("blue"), standard("red"), keyed("_")]),
            group("eyes", vec![standard("blue"), keyed("background:blue"), keyed("_")]),
            group("hat", Vec::new()),
        ])),
        Ok(())
    );
}

#[test]
fn a_repeated_group_name_is_a_fault() {
    assert_eq!(
        check_catalog(&catalog(vec![
            group("background", vec![standard("blue"), standard("blue")]),
            group("eyes", Vec::new()),
            group("background", Vec::new()),
            group("eyes", Vec::new()),
        ])),
        Err(ConfigError::DuplicateGroup { group: 2 })
    );
}

#[test]
fn a_repeated_key_within_a_group_is_a_fault() {
    assert_eq!(
        check_catalog(&catalog(vec![
            group("background", vec![standard("blue"), standard("red")]),
            group("eyes", vec![standard("a"), keyed("b"), standard("c"), keyed("b"), keyed("a")]),
            group("hat", vec![standard("x"), standard("x")]),
        ])),
        Err(ConfigError::DuplicateKey { group: 1, entry: 3 })
    );
}

#[test]
fn the_first_text_that_repeats_an_earlier_one_is_found() {
    assert_eq!(first_repeated(&texts(&[])), 0);
    assert_eq!(first_repeated(&texts(&["a"])), 1);
    assert_eq!(first_repeated(&texts(&["a", "b", "c"])), 3);
    assert_eq!(first_repeated(&texts(&["a", "b", "a", "b"])), 2);
    assert_eq!(first_repeated(&texts(&["a", "b", "c", "c", "a"])), 3);
    assert_eq!(first_repeated(&texts(&["", ""])), 1);
}
