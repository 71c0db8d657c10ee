//! The identity that binds an address to a published artifact: what is asked
//! for, and what must hold of a request before anything is published for it.

use crate::codec::{
    base64_url_bytes, base64_url_decode, base64_url_encode, base64_url_text, hex_bytes,
    hex_decode, hex_digit, hex_encode, hex_text,
};
use crate::text::{decimal, decimal_text};
use vstd::prelude::*;

verus! {

/// An address and the network it belongs to.
#[derive(Debug, Clone, PartialEq, Eq)]
pub struct Address {
    pub text: String,
    pub testnet: bool,
}

/// A request to register an identity: a name in a namespace, the address
/// that controls it, and the content it points to.
#[derive(Debug, Clone, PartialEq, Eq)]
pub struct IdentityRequest {
    pub name: String,
    pub namespace: String,
    pub address: Address,
    pub content_map: Vec<(String, String)>,
    /// Whether the identity is asked for on the test network.
    pub testnet: bool,
}

pub struct IdentityRequestView {
    pub name: Seq<char>,
    pub namespace: Seq<char>,
    pub address: Seq<char>,
    pub address_testnet: bool,
    pub content_map: Seq<(Seq<char>, Seq<char>)>,
    pub testnet: bool,
}

impl View for IdentityRequest {
    type V = IdentityRequestView;

    open spec fn view(&self) -> IdentityRequestView {
        IdentityRequestView {
            name: self.name@,
            namespace: self.namespace@,
            address: self.address.text@,
            address_testnet: self.address.testnet,
            content_map: self.content_map@.map_values(|e: (String, String)| (e.0@, e.1@)),
            testnet: self.testnet,
        }
    }
}

/// A registered identity.
#[derive(Debug, Clone, PartialEq, Eq)]
pub struct IdentityRecord {
    pub name: String,
    pub registration_ref: String,
}

/// Why a request cannot be registered.
#[derive(Debug, Clone, Copy, PartialEq, Eq, Structural)]
pub enum ValidationError {
    /// The name is empty.
    EmptyName,
    /// The namespace does not resolve.
    UnresolvedNamespace,
    /// The address belongs to the other network.
    WrongNetwork,
    /// The key of this entry of the content map is not 40 lower-case
    /// hexadecimal digits.
    MalformedKey { index: usize },
    /// The value of this entry of the content map is not lower-case
    /// hexadecimal text.
    MalformedValue { index: usize },
    /// The content identifier is no URL-safe base 64.
    UndecodableContent,
}

/// Whether `c` is a lower-case hexadecimal digit.
pub open spec fn is_lower_hex(c: char) -> bool {
    ('0' <= c <= '9') || ('a' <= c <= 'f')
}

/// Whether `s` holds lower-case hexadecimal digits only.
pub open spec fn all_lower_hex(s: Seq<char>) -> bool {
    forall|i: int| 0 <= i < s.len() ==> is_lower_hex(#[trigger] s[i])
}

/// Whether `key` is a key of a content map: 160 bits in hexadecimal.
pub open spec fn is_map_key(key: Seq<char>) -> bool {
    key.len() == 40 && all_lower_hex(key)
}

/// Whether `value` is a value of a content map: whole bytes in hexadecimal.
pub open spec fn is_map_value(value: Seq<char>) -> bool {
    value.len() % 2 == 0 && all_lower_hex(value)
}

/// The first fault among the entries of a content map from `from` on.
pub open spec fn map_fault(map: Seq<(Seq<char>, Seq<char>)>, from: int) -> Option<ValidationError>
    decreases map.len() - from,
{
    if from < 0 || from >= map.len() {
        None
    } else if !is_map_key(map[from].0) {
        Some(ValidationError::MalformedKey { index: from as usize })
    } else if !is_map_value(map[from].1) {
        Some(ValidationError::MalformedValue { index: from as usize })
    } else {
        map_fault(map, from + 1)
    }
}

/// What validation finds of `request`, where `namespace_resolves` says
/// whether its namespace is known to the network: the first of an empty name,
/// an unresolved namespace, an address of the other network and a fault in the
/// content map; or nothing.
pub open spec fn validation(request: IdentityRequestView, namespace_resolves: bool) -> Result<
    (),
    ValidationError,
> {
    if request.name.len() == 0 {
        Err(ValidationError::EmptyName)
    } else if !namespace_resolves {
        Err(ValidationError::UnresolvedNamespace)
    } else if request.address_testnet != request.testnet {
        Err(ValidationError::WrongNetwork)
    } else {
        match map_fault(request.content_map, 0) {
            Some(e) => Err(e),
            None => Ok(()),
        }
    }
}

/// The key under which an identity's content map points to the document of
/// its artifact.
pub open spec fn metadata_key_text() -> Seq<char> {
    "9a55eaaad7bacc9f37a449e315ff32fedc07b126"@
}

/// The key under which an identity's content map points to the document of
/// its artifact.
pub fn metadata_key() -> (key: &'static str)
    ensures
        key@ == metadata_key_text(),
        is_map_key(key@),
{
    let key = "9a55eaaad7bacc9f37a449e315ff32fedc07b126";
    proof {
        reveal_strlit("9a55eaaad7bacc9f37a449e315ff32fedc07b126");
        assert(key@.len() == 40);
        assert forall|i: int| 0 <= i < key@.len() implies is_lower_hex(#[trigger] key@[i]) by {}
    }
    key
}

/// Whether `s` holds lower-case hexadecimal digits only.
pub fn is_lower_hex_text(s: &str) -> (r: bool)
    ensures
        r == all_lower_hex(s@),
{
    let n = s.unicode_len();
    let mut i: usize = 0;
    while i < n
        invariant
            i <= n,
            n == s@.len(),
            forall|j: int| 0 <= j < i ==> is_lower_hex(#[trigger] s@[j]),
        decreases n - i,
    {
        let c = s.get_char(i);
        if !((c >= '0' && c <= '9') || (c >= 'a' && c <= 'f')) {
            assert(!is_lower_hex(s@[i as int]));
            return false;
        }
        i += 1;
    }
    true
}

/// Checks `request` before anything is published for it.
#[verifier::loop_isolation(false)]
pub fn validate(request: &IdentityRequest, namespace_resolves: bool) -> (r: Result<
    (),
    ValidationError,
>)
    ensures
        r == validation(request@, namespace_resolves),
{
    if request.name.as_str().unicode_len() == 0 {
        return Err(ValidationError::EmptyName);
    }
    if !namespace_resolves {
        return Err(ValidationError::UnresolvedNamespace);
    }
    if request.address.testnet != request.testnet {
        return Err(ValidationError::WrongNetwork);
    }
    let ghost map = request@.content_map;
    let n = request.content_map.len();
    let mut i: usize = 0;
    while i < n
        invariant
            i <= n,
            n == request.content_map.len(),
            map == request@.content_map,
            map_fault(map, 0) == map_fault(map, i as int),
        decreases n - i,
    {
        let entry = &request.content_map[i];
        assert(map[i as int] == (entry.0@, entry.1@));
        if !(entry.0.as_str().unicode_len() == 40 && is_lower_hex_text(entry.0.as_str())) {
            return Err(ValidationError::MalformedKey { index: i });
        }
        if !(entry.1.as_str().unicode_len() % 2 == 0 && is_lower_hex_text(entry.1.as_str())) {
            return Err(ValidationError::MalformedValue { index: i });
        }
        i += 1;
    }
    Ok(())
}

/// The entry of a content map that points to the document published under
/// the content identifier that decodes to `decoded`.
pub fn content_entry(decoded: &Vec<u8>) -> (entry: (String, String))
    ensures
        entry.0@ == metadata_key_text(),
        entry.1@ == hex_text(decoded@),
        is_map_key(entry.0@),
        is_map_value(entry.1@),
{
    proof {
        lemma_hex_text_is_value(decoded@);
    }
    (metadata_key().to_owned(), hex_encode(decoded))
}

/// The content map of the identity of the artifact whose document is
/// published under `content_id`: one entry, whose value is the identifier's
/// bytes in hexadecimal.
pub fn content_map_for(content_id: &str) -> (r: Result<Vec<(String, String)>, ValidationError>)
    ensures
        match base64_url_bytes(content_id@) {
            Some(bytes) => r matches Ok(map) && map@.map_values(|e: (String, String)| (e.0@, e.1@))
                == seq![(metadata_key_text(), hex_text(bytes))],
            None => r == Err::<Vec<(String, String)>, ValidationError>(
                ValidationError::UndecodableContent,
            ),
        },
{
    match base64_url_decode(content_id) {
        Err(_) => Err(ValidationError::UndecodableContent),
        Ok(decoded) => {
            let mut map: Vec<(String, String)> = Vec::new();
            map.push(content_entry(&decoded));
            assert(map@.map_values(|e: (String, String)| (e.0@, e.1@)) =~= seq![
                (metadata_key_text(), hex_text(decoded@)),
            ]);
            Ok(map)
        },
    }
}

/// The request for the identity of the artifact with number `sequence` of the
/// series `edition`: named by the number, in the namespace of the series,
/// controlled by `address`, and pointing to the document published under
/// `content_id`.
pub fn identity_request(
    sequence: u64,
    edition: &str,
    address: Address,
    content_id: &str,
    testnet: bool,
) -> (r: Result<IdentityRequest, ValidationError>)
    ensures
        match base64_url_bytes(content_id@) {
            Some(bytes) => r matches Ok(request) && request@ == (IdentityRequestView {
                name: decimal_text(sequence as nat),
                namespace: edition@,
                address: address.text@,
                address_testnet: address.testnet,
                content_map: seq![(metadata_key_text(), hex_text(bytes))],
                testnet,
            }),
            None => r == Err::<IdentityRequest, ValidationError>(
                ValidationError::UndecodableContent,
            ),
        },
{
    match content_map_for(content_id) {
        Err(e) => Err(e),
        Ok(content_map) => Ok(
            IdentityRequest {
                name: decimal(sequence),
                namespace: edition.to_owned(),
                address,
                content_map,
                testnet,
            },
        ),
    }
}

/// The content identifier that the value `value` of a content map stands
/// for: its bytes in URL-safe base 64. `None` if `value` is no hexadecimal
/// text.
pub fn content_id_of(value: &str) -> (r: Option<String>)
    ensures
        match hex_bytes(value@) {
            Some(bytes) => r matches Some(id) && id@ == base64_url_text(bytes),
            None => r is None,
        },
{
    match hex_decode(value) {
        Some(bytes) => Some(base64_url_encode(&bytes)),
        None => None,
    }
}

/// Bytes written in hexadecimal are a value of a content map.
pub proof fn lemma_hex_text_is_value(bytes: Seq<u8>)
    ensures
        is_map_value(hex_text(bytes)),
{
    let text = hex_text(bytes);
    assert forall|i: int| 0 <= i < text.len() implies is_lower_hex(#[trigger] text[i]) by {
        lemma_hex_digit_is_lower((bytes[i / 2] / 16) as nat);
        lemma_hex_digit_is_lower((bytes[i / 2] % 16) as nat);
    }
}

/// A hexadecimal digit is written in lower case.
pub proof fn lemma_hex_digit_is_lower(n: nat)
    requires
        n < 16,
    ensures
        is_lower_hex(hex_digit(n)),
{
}

/// The decimal form of a number is never empty.
pub proof fn lemma_decimal_is_not_empty(n: nat)
    ensures
        decimal_text(n).len() > 0,
    decreases n,
{
    if n >= 10 {
        lemma_decimal_is_not_empty(n / 10);
    }
}

/// A request built for an artifact passes validation whenever its namespace
/// resolves and its address belongs to the network it is asked for on.
pub proof fn lemma_built_request_is_valid(
    sequence: u64,
    edition: Seq<char>,
    address: Seq<char>,
    bytes: Seq<u8>,
    testnet: bool,
)
    ensures
        validation(
            IdentityRequestView {
                name: decimal_text(sequence as nat),
                namespace: edition,
                address,
                address_testnet: testnet,
                content_map: seq![(metadata_key_text(), hex_text(bytes))],
                testnet,
            },
            true,
        ) is Ok,
{
    lemma_decimal_is_not_empty(sequence as nat);
    lemma_hex_text_is_value(bytes);
    lemma_metadata_key_is_key();
    let map = seq![(metadata_key_text(), hex_text(bytes))];
    assert(map_fault(map, 1) is None);
    assert(map_fault(map, 0) is None);
}

/// The metadata key is 40 lower-case hexadecimal digits.
pub proof fn lemma_metadata_key_is_key()
    ensures
        is_map_key(metadata_key_text()),
{
    reveal_strlit("9a55eaaad7bacc9f37a449e315ff32fedc07b126");
    let key = metadata_key_text();
    assert(key.len() == 40);
    assert forall|i: int| 0 <= i < key.len() implies is_lower_hex(#[trigger] key[i]) by {}
}

} // verus!
