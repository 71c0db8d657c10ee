use verusnft::nft::art::{
    composite_arguments, document_file_name, escape_spaces, image_file_name, is_mandatory,
    layer_location, plan_layers,
};
use verusnft::nft::config::ConfigError;
use verusnft::nft::metadata::Trait;

fn picked(trait_type: &str, value: &str) -> Trait {
    Trait { trait_type: trait_type.to_string(), value: value.to_string(), rarity: 1 }
}

fn three() -> Vec<Trait> {
    vec![picked("background", "red"), picked("mood", "grim"), picked("eyes", "laser")]
}

#[test]
fn a_layer_is_kept_under_its_group_in_a_file_named_after_its_value() {
    assert_eq!(
        layer_location(&picked("eyes", "laser beam")),
        ("eyes".to_string(), "laser beam.png".to_string())
    );
}

#[test]
fn files_of_an_artifact_are_named_after_the_requester() {
    assert_eq!(document_file_name(138515381), "138515381.json");
    assert_eq!(image_file_name(138515381), "138515381.png");
}

#[test]
fn layers_that_were_found_go_in_and_others_are_skipped() {
    assert_eq!(plan_layers(&three(), &vec![true, false, true], &Vec::new()), Ok(vec![0, 2]));
    assert_eq!(plan_layers(&three(), &vec![true, true, true], &Vec::new()), Ok(vec![0, 1, 2]));
    assert_eq!(plan_layers(&three(), &vec![false, false, false], &Vec::new()), Ok(Vec::new()));
    assert_eq!(plan_layers(&Vec::new(), &Vec::new(), &Vec::new()), Ok(Vec::new()));
}

#[test]
fn a_layer_nothing_is_said_of_counts_as_not_found() {
    assert_eq!(plan_layers(&three(), &vec![true], &Vec::new()), Ok(vec![0]));
    assert_eq!(
        plan_layers(&three(), &vec![true], &vec!["eyes".to_string()]),
        Err(ConfigError::MissingLayer { index: 2 })
    );
}

#[test]
fn a_missing_layer_of_a_mandatory_group_fails_the_plan() {
    let mandatory = vec!["background".to_string(), "eyes".to_string()];
    assert_eq!(plan_layers(&three(), &vec![true, false, true], &mandatory), Ok(vec![0, 2]));
    assert_eq!(
        plan_layers(&three(), &vec![true, false, false], &mandatory),
        Err(ConfigError::MissingLayer { index: 2 })
    );
    assert_eq!(
        plan_layers(&three(), &vec![false, false, false], &mandatory),
        Err(ConfigError::MissingLayer { index: 0 })
    );
}

#[test]
fn a_group_is_mandatory_when_it_is_named_so() {
    let mandatory = vec!["background".to_string(), "eyes".to_string()];
    assert!(is_mandatory(&"eyes".to_string(), &mandatory));
    assert!(!is_mandatory(&"mood".to_string(), &mandatory));
    assert!(!is_mandatory(&"eyes".to_string(), &Vec::new()));
}

#[test]
fn spaces_in_a_path_are_escaped() {
    assert_eq!(escape_spaces("assets/eyes/laser beam.png"), "assets/eyes/laser\\ beam.png");
    assert_eq!(escape_spaces("plain"), "plain");
}

#[test]
fn the_compositing_tool_gets_the_layers_in_order_then_the_target() {
    let layers = vec!["assets/background/red.png".to_string(), "assets/eyes/laser beam.png".to_string()];
    assert_eq!(
        composite_arguments(&layers, "/out/5.png"),
        vec![
            "composite".to_string(),
            "assets/background/red.png assets/eyes/laser\\ beam.png".to_string(),
            "/out/5.png".to_string(),
            "2".to_string(),
        ]
    );
    assert_eq!(
        composite_arguments(&Vec::new(), "/out/5.png"),
        vec!["composite".to_string(), "".to_string(), "/out/5.png".to_string(), "2".to_string()]
    );
}
