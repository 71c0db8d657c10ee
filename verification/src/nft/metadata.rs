//! The descriptive document of an artifact: how it is assembled from the
//! selected traits, and how the reference to its image is filled in once the
//! image is published.

use crate::nft::config::{Config, ConfigView};
use crate::nft::rarity::Rarity;
use crate::text::{decimal, decimal_text, joined};
use vstd::prelude::*;

verus! {

/// One selected trait: the group it was drawn for, the value drawn, and the
/// weight the value had in the table it was drawn from.
#[derive(Debug, Clone, PartialEq, Eq)]
pub struct Trait {
    pub trait_type: String,
    pub value: String,
    pub rarity: u64,
}

pub struct TraitView {
    pub trait_type: Seq<char>,
    pub value: Seq<char>,
    pub rarity: u64,
}

impl View for Trait {
    type V = TraitView;

    open spec fn view(&self) -> TraitView {
        TraitView { trait_type: self.trait_type@, value: self.value@, rarity: self.rarity }
    }
}

/// The views of a sequence of traits.
pub open spec fn traits_view(traits: Seq<Trait>) -> Seq<TraitView> {
    traits.map_values(|t: Trait| t@)
}

/// A file that belongs to an artifact.
#[derive(Debug, Clone, PartialEq, Eq)]
pub struct PropertyFile {
    pub uri: String,
    pub content_type: String,
}

pub struct PropertyFileView {
    pub uri: Seq<char>,
    pub content_type: Seq<char>,
}

impl View for PropertyFile {
    type V = PropertyFileView;

    open spec fn view(&self) -> PropertyFileView {
        PropertyFileView { uri: self.uri@, content_type: self.content_type@ }
    }
}

/// The files of an artifact and the category they fall under.
#[derive(Debug, Clone, PartialEq, Eq)]
pub struct Properties {
    pub files: Vec<PropertyFile>,
    pub category: String,
}

pub struct PropertiesView {
    pub files: Seq<PropertyFileView>,
    pub category: Seq<char>,
}

impl View for Properties {
    type V = PropertiesView;

    open spec fn view(&self) -> PropertiesView {
        PropertiesView {
            files: self.files@.map_values(|f: PropertyFile| f@),
            category: self.category@,
        }
    }
}

/// The document that describes one artifact.
#[derive(Debug, Clone, PartialEq, Eq)]
pub struct NFTMetadata {
    pub name: String,
    pub identity: String,
    pub description: String,
    pub rarity: Rarity,
    pub image: String,
    pub edition: u16,
    pub attributes: Vec<Trait>,
    pub properties: Properties,
}

pub struct NFTMetadataView {
    pub name: Seq<char>,
    pub identity: Seq<char>,
    pub description: Seq<char>,
    pub rarity: nat,
    pub image: Seq<char>,
    pub edition: u16,
    pub attributes: Seq<TraitView>,
    pub properties: PropertiesView,
}

impl View for NFTMetadata {
    type V = NFTMetadataView;

    open spec fn view(&self) -> NFTMetadataView {
        NFTMetadataView {
            name: self.name@,
            identity: self.identity@,
            description: self.description@,
            rarity: self.rarity@,
            image: self.image@,
            edition: self.edition,
            attributes: traits_view(self.attributes@),
            properties: self.properties@,
        }
    }
}

/// The product of the weights of `traits`, taken in their order.
pub open spec fn weight_product(traits: Seq<TraitView>) -> nat
    decreases traits.len(),
{
    if traits.len() == 0 {
        1
    } else {
        weight_product(traits.drop_last()) * traits.last().rarity as nat
    }
}

/// The name of the image file of the artifact made for `user_id`, which stands
/// in a document until the image is published.
pub open spec fn placeholder_image(user_id: u64) -> Seq<char> {
    decimal_text(user_id as nat) + seq!['.', 'p', 'n', 'g']
}

/// The media type of an artifact's image.
pub open spec fn image_media_type() -> Seq<char> {
    seq!['i', 'm', 'a', 'g', 'e', '/', 'p', 'n', 'g']
}

/// The category of an artifact.
pub open spec fn image_category() -> Seq<char> {
    seq!['i', 'm', 'a', 'g', 'e']
}

/// The document assembled for the artifact with number `sequence`, made for
/// `user_id` with the traits `attributes` of the series that `config`
/// describes.
pub open spec fn assembled(
    user_id: u64,
    sequence: u64,
    attributes: Seq<TraitView>,
    config: ConfigView,
) -> NFTMetadataView {
    NFTMetadataView {
        name: config.name + seq![' ', '#'] + decimal_text(sequence as nat),
        identity: decimal_text(sequence as nat) + seq!['.'] + config.identity,
        description: config.description,
        rarity: weight_product(attributes),
        image: placeholder_image(user_id),
        edition: 0,
        attributes,
        properties: PropertiesView {
            files: seq![
                PropertyFileView {
                    uri: placeholder_image(user_id),
                    content_type: image_media_type(),
                },
            ],
            category: image_category(),
        },
    }
}

/// `document` with `content_id` as its image reference and nothing else
/// changed.
pub open spec fn patched(document: NFTMetadata, content_id: String) -> NFTMetadata {
    NFTMetadata { image: content_id, ..document }
}

/// The product of the weights of `traits`, in their order.
pub fn rarity_of(traits: &Vec<Trait>) -> (r: Rarity)
    ensures
        r@ == weight_product(traits_view(traits@)),
{
    let ghost views = traits_view(traits@);
    let mut r = Rarity::one();
    let mut i: usize = 0;
    assert(views.take(0) =~= Seq::<TraitView>::empty());
    while i < traits.len()
        invariant
            i <= traits.len(),
            views == traits_view(traits@),
            r@ == weight_product(views.take(i as int)),
        decreases traits.len() - i,
    {
        proof {
            let next = views.take(i + 1);
            assert(next.drop_last() =~= views.take(i as int));
            assert(next.last() == traits[i as int]@);
        }
        r = r.times(traits[i].rarity);
        i += 1;
    }
    assert(views.take(traits.len() as int) =~= views);
    r
}

/// Assembles the document of the artifact with number `sequence`, made for
/// `user_id` with the selected traits `attributes`.
///
/// The rarity is the product of the traits' weights. The image reference is
/// the name of the image file, to be replaced once the image is published.
pub fn create_metadata(user_id: u64, sequence: u64, attributes: Vec<Trait>, config: &Config) -> (r:
    NFTMetadata)
    ensures
        r@ == assembled(user_id, sequence, traits_view(attributes@), config@),
        r.attributes == attributes,
{
    proof {
        reveal_strlit(".png");
        reveal_strlit(" #");
        reveal_strlit(".");
        reveal_strlit("image/png");
        reveal_strlit("image");
    }
    let number = decimal(sequence);
    let image_name = joined(decimal(user_id).as_str(), ".png");
    assert(image_name@ =~= placeholder_image(user_id));
    let mut name = joined(config.name.as_str(), " #");
    name.append(number.as_str());
    assert(name@ =~= config@.name + seq![' ', '#'] + decimal_text(sequence as nat));
    let mut identity = joined(number.as_str(), ".");
    identity.append(config.identity.as_str());
    assert(identity@ =~= decimal_text(sequence as nat) + seq!['.'] + config@.identity);
    let rarity = rarity_of(&attributes);
    let mut files: Vec<PropertyFile> = Vec::new();
    let content_type = "image/png".to_owned();
    assert(content_type@ =~= image_media_type());
    files.push(PropertyFile { uri: image_name.clone(), content_type });
    let category = "image".to_owned();
    assert(category@ =~= image_category());
    let properties = Properties { files, category };
    assert(properties@.files =~= seq![
        PropertyFileView { uri: placeholder_image(user_id), content_type: image_media_type() },
    ]);
    NFTMetadata {
        name,
        identity,
        description: config.description.clone(),
        rarity,
        image: image_name,
        edition: 0,
        attributes,
        properties,
    }
}

/// Puts `content_id` in place of the image reference of `document`. Nothing
/// else of the document changes.
pub fn patch_image(document: NFTMetadata, content_id: String) -> (r: NFTMetadata)
    ensures
        r == patched(document, content_id),
{
    let mut r = document;
    r.image = content_id;
    r
}

/// Idempotent patch: patching a patched document with the same content
/// identifier again changes nothing.
pub proof fn lemma_patch_idempotent(document: NFTMetadata, content_id: String)
    ensures
        patched(patched(document, content_id), content_id) == patched(document, content_id),
{
}

/// A patch touches the image reference alone: every other part of the
/// document reads as before.
pub proof fn lemma_patch_keeps_rest(document: NFTMetadata, content_id: String)
    ensures
        patched(document, content_id)@ == (NFTMetadataView {
            image: content_id@,
            ..document@
        }),
{
}

/// Rarity: an assembled document's rarity is the product of the weights of
/// its own attributes, in their order.
pub proof fn lemma_rarity_is_weight_product(
    user_id: u64,
    sequence: u64,
    attributes: Seq<TraitView>,
    config: ConfigView,
)
    ensures
        assembled(user_id, sequence, attributes, config).rarity == weight_product(
            assembled(user_id, sequence, attributes, config).attributes,
        ),
{
}

/// The product of positive weights is positive: the rarity of a selection
/// is never zero.
pub proof fn lemma_rarity_is_positive(traits: Seq<TraitView>)
    requires
        forall|k: int| 0 <= k < traits.len() ==> (#[trigger] traits[k]).rarity > 0,
    ensures
        weight_product(traits) > 0,
    decreases traits.len(),
{
    if traits.len() > 0 {
        let before = traits.drop_last();
        assert forall|k: int| 0 <= k < before.len() implies (#[trigger] before[k]).rarity > 0 by {
            assert(before[k] == traits[k]);
        }
        lemma_rarity_is_positive(before);
        assert(weight_product(before) * traits.last().rarity as nat > 0) by (nonlinear_arith)
            requires
                weight_product(before) > 0,
                traits.last().rarity > 0,
        ;
    }
}

} // verus!
