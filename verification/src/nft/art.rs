//! Composing the image of an artifact: which layers go into it, in which
//! order, and what the compositing tool is told.
//!
//! Each selected trait may have a layer image, kept under the trait's group in
//! a file named after the trait's value. A trait without one only steered the
//! selection. A group can be declared mandatory: a trait of such a group must
//! have its layer.

use crate::nft::config::ConfigError;
use crate::nft::metadata::{traits_view, Trait, TraitView};
use crate::text::{decimal, decimal_text, joined, replace_char, replaced, texts_view};
use vstd::prelude::*;

verus! {

/// The name of the file that holds the layer of a trait with this value.
pub open spec fn layer_file(value: Seq<char>) -> Seq<char> {
    value + ".png"@
}

/// The name of the file that holds the document of the artifact made for
/// `user_id`.
pub open spec fn document_file(user_id: u64) -> Seq<char> {
    decimal_text(user_id as nat) + ".json"@
}

/// The name of the file that holds the image of the artifact made for
/// `user_id`.
pub open spec fn image_file(user_id: u64) -> Seq<char> {
    decimal_text(user_id as nat) + ".png"@
}

/// Whether the layer of trait `i` was found.
pub open spec fn is_present(present: Seq<bool>, i: int) -> bool {
    0 <= i < present.len() && present[i]
}

/// Whether trait `i` must have a layer and has none.
pub open spec fn is_missing(
    attributes: Seq<TraitView>,
    present: Seq<bool>,
    mandatory: Seq<Seq<char>>,
    i: int,
) -> bool {
    !is_present(present, i) && mandatory.contains(attributes[i].trait_type)
}

/// The positions before `upto` of the traits whose layer was found, in order.
pub open spec fn found_layers(present: Seq<bool>, upto: int) -> Seq<usize>
    decreases upto,
{
    if upto <= 0 {
        Seq::empty()
    } else if is_present(present, upto - 1) {
        found_layers(present, upto - 1).push((upto - 1) as usize)
    } else {
        found_layers(present, upto - 1)
    }
}

/// `parts` in a row, with `separator` between each two.
pub open spec fn joined_with(parts: Seq<Seq<char>>, separator: Seq<char>) -> Seq<char>
    decreases parts.len(),
{
    if parts.len() == 0 {
        Seq::empty()
    } else if parts.len() == 1 {
        parts[0]
    } else {
        joined_with(parts.drop_last(), separator) + separator + parts.last()
    }
}

/// `path` with a backslash before each space.
pub open spec fn escaped(path: Seq<char>) -> Seq<char> {
    replaced(path, ' ', seq!['\\', ' '])
}

/// What the compositing tool is told, to lay the images at `layers` over one
/// another into the image at `image_path`.
pub open spec fn composite_command(layers: Seq<Seq<char>>, image_path: Seq<char>) -> Seq<
    Seq<char>,
> {
    seq![
        "composite"@,
        joined_with(layers.map_values(|l: Seq<char>| escaped(l)), seq![' ']),
        image_path,
        "2"@,
    ]
}

/// The group a trait's layer is kept under and the name of its file.
pub fn layer_location(attribute: &Trait) -> (r: (String, String))
    ensures
        r.0@ == attribute@.trait_type,
        r.1@ == layer_file(attribute@.value),
{
    (attribute.trait_type.clone(), joined(attribute.value.as_str(), ".png"))
}

/// The name of the file that holds the document of the artifact made for
/// `user_id`.
pub fn document_file_name(user_id: u64) -> (r: String)
    ensures
        r@ == document_file(user_id),
{
    joined(decimal(user_id).as_str(), ".json")
}

/// The name of the file that holds the image of the artifact made for
/// `user_id`.
pub fn image_file_name(user_id: u64) -> (r: String)
    ensures
        r@ == image_file(user_id),
{
    joined(decimal(user_id).as_str(), ".png")
}

/// Whether `group` is one of `mandatory`.
pub fn is_mandatory(group: &String, mandatory: &Vec<String>) -> (r: bool)
    ensures
        r == texts_view(mandatory@).contains(group@),
{
    let ghost names = texts_view(mandatory@);
    let mut i: usize = 0;
    while i < mandatory.len()
        invariant
            i <= mandatory.len(),
            names == texts_view(mandatory@),
            forall|j: int| 0 <= j < i ==> names[j] != group@,
        decreases mandatory.len() - i,
    {
        if mandatory[i] == *group {
            assert(names[i as int] == group@);
            return true;
        }
        i += 1;
    }
    false
}

/// Decides which layers go into the image of an artifact with the traits
/// `attributes`, where `present` says of each trait whether its layer image
/// was found and `mandatory` names the groups whose traits must have one.
///
/// Gives the positions of the traits whose layer was found, in the order of
/// the traits. Fails at the first trait of a mandatory group without a layer.
pub fn plan_layers(attributes: &Vec<Trait>, present: &Vec<bool>, mandatory: &Vec<String>) -> (r:
    Result<Vec<usize>, ConfigError>)
    ensures
        match r {
            Ok(layers) => {
                &&& layers@ == found_layers(present@, attributes.len() as int)
                &&& forall|i: int|
                    0 <= i < attributes.len() ==> !is_missing(
                        traits_view(attributes@),
                        present@,
                        texts_view(mandatory@),
                        i,
                    )
            },
            Err(ConfigError::MissingLayer { index }) => {
                &&& index < attributes.len()
                &&& is_missing(
                    traits_view(attributes@),
                    present@,
                    texts_view(mandatory@),
                    index as int,
                )
                &&& forall|i: int|
                    0 <= i < index ==> !is_missing(
                        traits_view(attributes@),
                        present@,
                        texts_view(mandatory@),
                        i,
                    )
            },
            Err(_) => false,
        },
{
    let ghost views = traits_view(attributes@);
    let ghost names = texts_view(mandatory@);
    let mut layers: Vec<usize> = Vec::new();
    let mut i: usize = 0;
    while i < attributes.len()
        invariant
            i <= attributes.len(),
            views == traits_view(attributes@),
            names == texts_view(mandatory@),
            layers@ == found_layers(present@, i as int),
            forall|j: int| 0 <= j < i ==> !is_missing(views, present@, names, j),
        decreases attributes.len() - i,
    {
        assert(views[i as int] == attributes[i as int]@);
        if i < present.len() && present[i] {
            layers.push(i);
        } else if is_mandatory(&attributes[i].trait_type, mandatory) {
            return Err(ConfigError::MissingLayer { index: i });
        }
        i += 1;
    }
    Ok(layers)
}

/// `path` with a backslash before each space.
pub fn escape_spaces(path: &str) -> (r: String)
    ensures
        r@ == escaped(path@),
{
    proof {
        reveal_strlit("\\ ");
        assert("\\ "@ =~= seq!['\\', ' ']);
    }
    replace_char(path, ' ', "\\ ")
}

/// The arguments for the compositing tool, to lay the images at `layers`
/// over one another, in their order, into the image at `image_path`.
pub fn composite_arguments(layers: &Vec<String>, image_path: &str) -> (r: Vec<String>)
    ensures
        texts_view(r@) == composite_command(texts_view(layers@), image_path@),
{
    let ghost paths = texts_view(layers@);
    let ghost clean = paths.map_values(|l: Seq<char>| escaped(l));
    let mut all = String::new();
    let mut i: usize = 0;
    proof {
        reveal_strlit(" ");
        assert(" "@ =~= seq![' ']);
        assert(clean.take(0) =~= Seq::<Seq<char>>::empty());
    }
    while i < layers.len()
        invariant
            i <= layers.len(),
            paths == texts_view(layers@),
            clean == paths.map_values(|l: Seq<char>| escaped(l)),
            " "@ == seq![' '],
            all@ == joined_with(clean.take(i as int), seq![' ']),
        decreases layers.len() - i,
    {
        proof {
            let next = clean.take(i + 1);
            assert(next.drop_last() =~= clean.take(i as int));
            assert(next.last() == escaped(layers[i as int]@));
            if i == 0 {
                assert(next[0] == next.last());
            }
        }
        if i > 0 {
            all.append(" ");
        }
        all.append(escape_spaces(layers[i].as_str()).as_str());
        assert(all@ =~= joined_with(clean.take(i + 1), seq![' ']));
        i += 1;
    }
    assert(clean.take(layers.len() as int) =~= clean);
    let mut r: Vec<String> = Vec::new();
    r.push("composite".to_owned());
    r.push(all);
    r.push(image_path.to_owned());
    r.push("2".to_owned());
    assert(texts_view(r@) =~= composite_command(paths, image_path@));
    r
}

} // verus!
