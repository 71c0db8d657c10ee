use verusnft::nft::config::{Attribute, Config, Entry, Group};
use verusnft::nft::metadata::{
    create_metadata, patch_image, rarity_of, NFTMetadata, Properties, PropertyFile, Trait,
};
use verusnft::nft::rarity::Rarity;
use verusnft::nft::selector::select;

fn picked(trait_type: &str, value: &str, rarity: u64) -> Trait {
    Trait { trait_type: trait_type.to_string(), value: value.to_string(), rarity }
}

fn series() -> Config {
    Config {
        name: "Goofy Gecko".to_string(),
        identity: "geckotest".to_string(),
        description: "A gecko of its own".to_string(),
        attributes: vec![
            Group {
                name: "background".to_string(),
                entries: vec![
                    Entry { key: "blue".to_string(), attribute: Attribute::Standard(1_000_000) },
                    Entry { key: "red".to_string(), attribute: Attribute::Standard(1_000_000) },
                ],
            },
            Group {
                name: "eyes".to_string(),
                entries: vec![
                    Entry { key: "normal".to_string(), attribute: Attribute::Standard(900_000) },
                    Entry { key: "laser".to_string(), attribute: Attribute::Standard(100_000) },
                ],
            },
        ],
    }
}

fn small(rarity: &Rarity) -> u128 {
    let limbs = rarity.limbs();
    assert!(limbs.iter().skip(4).all(|l| *l == 0));
    limbs.iter().take(4).rev().fold(0u128, |acc, l| (acc << 32) | *l as u128)
}

#[test]
fn it_works() {
    for i in 1..=9u64 {
        let traits = select(&series(), 16843548430 + i).unwrap();
        let document = create_metadata(16843548430 + i, i, traits, &series());
        assert_eq!(document.name, format!("Goofy Gecko #{}", i));
        assert_eq!(document.attributes.len(), 2);
    }
}

#[test]
fn an_assembled_document_reads_as_laid_down() {
    let traits = vec![picked("background", "red", 1_000_000), picked("eyes", "laser", 100_000)];
    let document = create_metadata(138515381, 7001, traits.clone(), &series());
    assert_eq!(
        document,
        NFTMetadata {
            name: "Goofy Gecko #7001".to_string(),
            identity: "7001.geckotest".to_string(),
            description: "A gecko of its own".to_string(),
            rarity: Rarity::one().times(100_000_000_000),
            image: "138515381.png".to_string(),
            edition: 0,
            attributes: traits,
            properties: Properties {
                files: vec![PropertyFile {
                    uri: "138515381.png".to_string(),
                    content_type: "image/png".to_string(),
                }],
                category: "image".to_string(),
            },
        }
    );
}

#[test]
fn rarity_is_the_product_of_the_selected_weights() {
    for seed in 0..50u64 {
        let traits = select(&series(), seed).unwrap();
        let expected = traits.iter().fold(1u128, |acc, t| acc * t.rarity as u128);
        let document = create_metadata(seed, seed, traits, &series());
        assert_eq!(small(&document.rarity), expected);
    }
}

#[test]
fn rarity_is_a_product_and_no_share_of_a_sum() {
    let traits = vec![picked("a", "x", 3), picked("b", "y", 5), picked("c", "z", 7)];
    assert_eq!(small(&rarity_of(&traits)), 105);
}

#[test]
fn rarity_of_no_traits_is_one() {
    assert_eq!(small(&rarity_of(&Vec::new())), 1);
    assert_eq!(Rarity::one().limbs(), &vec![1u32]);
}

#[test]
fn rarity_with_a_weight_of_zero_is_zero() {
    let traits = vec![picked("a", "x", 3), picked("b", "y", 0), picked("c", "z", 7)];
    assert_eq!(small(&rarity_of(&traits)), 0);
}

#[test]
fn rarity_outgrows_machine_integers_and_stays_exact() {
    let mut traits = Vec::new();
    for _ in 0..10 {
        traits.push(picked("g", "v", 1 << 32));
    }
    let limbs = rarity_of(&traits).limbs().clone();
    let significant: Vec<u32> =
        limbs.iter().rev().skip_while(|l| **l == 0).map(|l| *l).collect();
    assert_eq!(significant, vec![1, 0, 0, 0, 0, 0, 0, 0, 0, 0, 0]);
}

#[test]
fn multiplying_carries_across_limbs() {
    let r = Rarity::one().times(u64::MAX).times(u64::MAX);
    let expected: u128 = (u64::MAX as u128) * (u64::MAX as u128);
    assert_eq!(small(&r), expected);
    let s = r.times(2);
    let significant: Vec<u32> =
        s.limbs().iter().rev().skip_while(|l| **l == 0).map(|l| *l).collect();
    assert_eq!(significant, vec![1, 0xffff_ffff, 0xffff_fffc, 0, 2]);
}

#[test]
fn one_number_is_written_in_one_way() {
    let a = Rarity::one().times(1 << 40).times(1 << 40).times(3);
    let b = Rarity::one().times(3).times(1 << 20).times(1 << 60);
    assert_eq!(a, b);
    assert!(a.same(&b));
    assert!(a.clone().same(&a));
    assert!(a.same(&b.times(1)));
    assert!(!a.same(&b.times(2)));
    assert_eq!(a.limbs(), &vec![0u32, 0, 3 << 16]);
    let zero = a.times(0);
    assert_eq!(zero.limbs(), &Vec::<u32>::new());
    assert_eq!(zero, Rarity::one().times(0));
    assert_eq!(zero.times(7), zero);
    assert!(!zero.same(&Rarity::one()));
}

#[test]
fn a_patch_replaces_the_image_reference_and_nothing_else() {
    let traits = vec![picked("background", "red", 1_000_000)];
    let document = create_metadata(5, 6, traits, &series());
    let before = document.clone();
    let patched = patch_image(document, "tx-hash".to_string());
    assert_eq!(patched.image, "tx-hash");
    assert_eq!(NFTMetadata { image: before.image.clone(), ..patched }, before);
}

#[test]
fn patching_twice_with_the_same_identifier_gives_the_same_document() {
    let traits = vec![picked("background", "red", 1_000_000)];
    let document = create_metadata(5, 6, traits, &series());
    let once = patch_image(document, "tx-hash".to_string());
    let twice = patch_image(once.clone(), "tx-hash".to_string());
    assert_eq!(once, twice);
    assert_eq!(format!("{:?}", once), format!("{:?}", twice));
}
