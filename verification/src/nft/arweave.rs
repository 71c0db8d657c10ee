//! Publishing to the storage network: what is sent with an upload, how an
//! upload moves from created to confirmed, and how the network's answers are
//! read.

use crate::codec::{base64_url_bytes, base64_url_decode};
use crate::json::{
    json_first, json_first_of, json_from_slice, json_integer, json_integer_of, json_member,
    json_member_of, json_parsed, json_text, json_text_of,
};
use crate::text::{decimal, decimal_text, joined, trim_matches, trimmed};
use base64_url::base64::DecodeError;
use serde_json::Value;
use vstd::prelude::*;

verus! {

#[verifier::external_type_specification]
#[verifier::external_body]
pub struct ExReqwestError(reqwest::Error);

/// What went wrong with a request to the storage network.
#[derive(Debug)]
pub enum ErrorKind {
    /// The answer was JSON, but not of the expected shape.
    InvalidJson(String),
    /// The transaction is known but not confirmed yet.
    NotConfirmed,
    /// The network had nothing to answer with.
    NoData,
    /// The request did not get through.
    ReqwestError(reqwest::Error),
    /// The answer was no JSON.
    JsonError(serde_json::Error),
    /// The answer was no URL-safe base 64.
    Base64DecodeError(DecodeError),
}

/// An error of the storage network.
#[derive(Debug)]
pub struct ArweaveError {
    pub kind: ErrorKind,
}

impl ErrorKind {
    /// Whether asking again may succeed: the transaction is not confirmed
    /// yet, or the request did not get through.
    pub open spec fn transient(&self) -> bool {
        *self is NotConfirmed || *self is ReqwestError
    }

    /// Whether asking again may succeed. What is not transient is permanent.
    pub fn is_transient(&self) -> (r: bool)
        ensures
            r == self.transient(),
    {
        match self {
            ErrorKind::NotConfirmed => true,
            ErrorKind::ReqwestError(_) => true,
            _ => false,
        }
    }
}

impl From<ErrorKind> for ArweaveError {
    fn from(kind: ErrorKind) -> (r: ArweaveError) {
        ArweaveError { kind }
    }
}

impl vstd::std_specs::convert::FromSpecImpl<ErrorKind> for ArweaveError {
    open spec fn obeys_from_spec() -> bool {
        true
    }

    open spec fn from_spec(kind: ErrorKind) -> ArweaveError {
        ArweaveError { kind }
    }
}

impl From<reqwest::Error> for ArweaveError {
    fn from(e: reqwest::Error) -> (r: ArweaveError) {
        ArweaveError { kind: ErrorKind::ReqwestError(e) }
    }
}

impl vstd::std_specs::convert::FromSpecImpl<reqwest::Error> for ArweaveError {
    open spec fn obeys_from_spec() -> bool {
        true
    }

    open spec fn from_spec(e: reqwest::Error) -> ArweaveError {
        ArweaveError { kind: ErrorKind::ReqwestError(e) }
    }
}

impl From<serde_json::Error> for ArweaveError {
    fn from(e: serde_json::Error) -> (r: ArweaveError) {
        ArweaveError { kind: ErrorKind::JsonError(e) }
    }
}

impl vstd::std_specs::convert::FromSpecImpl<serde_json::Error> for ArweaveError {
    open spec fn obeys_from_spec() -> bool {
        true
    }

    open spec fn from_spec(e: serde_json::Error) -> ArweaveError {
        ArweaveError { kind: ErrorKind::JsonError(e) }
    }
}

impl From<DecodeError> for ArweaveError {
    fn from(e: DecodeError) -> (r: ArweaveError) {
        ArweaveError { kind: ErrorKind::Base64DecodeError(e) }
    }
}

impl vstd::std_specs::convert::FromSpecImpl<DecodeError> for ArweaveError {
    open spec fn obeys_from_spec() -> bool {
        true
    }

    open spec fn from_spec(e: DecodeError) -> ArweaveError {
        ArweaveError { kind: ErrorKind::Base64DecodeError(e) }
    }
}

/// The tag that ties a published file to the artifact with number `sequence`
/// of the series `edition`: the number, a dot, the series and `@`.
pub open spec fn correlation(sequence: u64, edition: Seq<char>) -> Seq<char> {
    decimal_text(sequence as nat) + seq!['.'] + edition + seq!['@']
}

/// The correlation tag of the artifact with number `sequence` of `edition`.
pub fn correlation_tag(sequence: u64, edition: &str) -> (r: String)
    ensures
        r@ == correlation(sequence, edition@),
{
    proof {
        reveal_strlit(".");
        reveal_strlit("@");
    }
    let mut r = joined(decimal(sequence).as_str(), ".");
    r.append(edition);
    r.append("@");
    assert(r@ =~= correlation(sequence, edition@));
    r
}

/// The views of a list of tags.
pub open spec fn tags_view(tags: Seq<(String, String)>) -> Seq<(Seq<char>, Seq<char>)> {
    tags.map_values(|t: (String, String)| (t.0@, t.1@))
}

/// The two tags of an upload: its content type, and under `label` the
/// correlation tag of the artifact.
pub fn upload_tags(content_type: &str, label: &str, sequence: u64, edition: &str) -> (tags: Vec<
    (String, String),
>)
    ensures
        tags_view(tags@) == seq![
            ("Content-Type"@, content_type@),
            (label@, correlation(sequence, edition@)),
        ],
{
    let mut tags: Vec<(String, String)> = Vec::new();
    tags.push(("Content-Type".to_owned(), content_type.to_owned()));
    tags.push((label.to_owned(), correlation_tag(sequence, edition)));
    assert(tags_view(tags@) =~= seq![
        ("Content-Type"@, content_type@),
        (label@, correlation(sequence, edition@)),
    ]);
    tags
}

/// The tags an artifact's image is published with.
pub fn image_tags(sequence: u64, edition: &str) -> (tags: Vec<(String, String)>)
    ensures
        tags_view(tags@) == seq![
            ("Content-Type"@, "image/png"@),
            ("identity"@, correlation(sequence, edition@)),
        ],
{
    upload_tags("image/png", "identity", sequence, edition)
}

/// The tags an artifact's document is published with.
pub fn metadata_tags(sequence: u64, edition: &str) -> (tags: Vec<(String, String)>)
    ensures
        tags_view(tags@) == seq![
            ("Content-Type"@, "application/json"@),
            ("vdxfid"@, correlation(sequence, edition@)),
        ],
{
    upload_tags("application/json", "vdxfid", sequence, edition)
}

/// The address under `gateway` of the part `what` of the transaction `txid`.
/// Quotation marks around `txid` are left out.
pub open spec fn transaction_address(gateway: Seq<char>, txid: Seq<char>, what: Seq<char>) -> Seq<
    char,
> {
    gateway + "/tx/"@ + trimmed(txid, '"') + seq!['/'] + what
}

fn transaction_url(gateway: &str, txid: &str, what: &str) -> (r: String)
    ensures
        r@ == transaction_address(gateway@, txid@, what@),
{
    proof {
        reveal_strlit("/");
    }
    let mut r = joined(gateway, "/tx/");
    r.append(trim_matches(txid, '"').as_str());
    r.append("/");
    r.append(what);
    assert(r@ =~= transaction_address(gateway@, txid@, what@));
    r
}

/// Where the status of the transaction `txid` is asked for.
pub fn status_url(gateway: &str, txid: &str) -> (r: String)
    ensures
        r@ == transaction_address(gateway@, txid@, "status"@),
{
    transaction_url(gateway, txid, "status")
}

/// Where the data of the transaction `tx_id` is fetched from.
pub fn data_url(gateway: &str, tx_id: &str) -> (r: String)
    ensures
        r@ == transaction_address(gateway@, tx_id@, "data"@),
{
    transaction_url(gateway, tx_id, "data")
}

/// The query for the transactions of `owner` that carry the document of the
/// identity `identity_name`.
pub open spec fn query_text(owner: Seq<char>, identity_name: Seq<char>) -> Seq<char> {
    "\n    query {\n      transactions(\n        owners:[\""@ + owner
        + "\"],\n        tags: [\n            {\n                name: \"vdxfid\",\n                values: [\""@
        + identity_name
        + "\"]\n            },\n            {\n                name: \"Content-Type\",\n                values: [\"application/json\"]\n            }\n        ]\n      ) {\n        edges {\n          node {\n            id\n          }\n        }\n      }\n    }"@
}

/// Writes the query for the transactions of `owner` that carry the document
/// of the identity `identity_name`.
pub fn transaction_query(owner: &str, identity_name: &str) -> (r: String)
    ensures
        r@ == query_text(owner@, identity_name@),
{
    let mut r = joined("\n    query {\n      transactions(\n        owners:[\"", owner);
    r.append(
        "\"],\n        tags: [\n            {\n                name: \"vdxfid\",\n                values: [\"",
    );
    r.append(identity_name);
    r.append(
        "\"]\n            },\n            {\n                name: \"Content-Type\",\n                values: [\"application/json\"]\n            }\n        ]\n      ) {\n        edges {\n          node {\n            id\n          }\n        }\n      }\n    }",
    );
    r
}

/// The identifier of the first transaction in the answer to a transaction
/// query, as the JSON text it is given in.
pub open spec fn first_id_of(data: Value) -> Option<Seq<char>> {
    match json_first_of(json_member_of(json_member_of(data, "transactions"@), "edges"@)) {
        Some(edge) => Some(json_text_of(json_member_of(json_member_of(edge, "node"@), "id"@))),
        None => None,
    }
}

/// Reads the identifier of the first transaction from the answer to a
/// transaction query; `None` if the answer lists no transaction.
pub fn first_transaction_id(data: &Value) -> (r: Option<String>)
    ensures
        r is Some <==> first_id_of(*data) is Some,
        r matches Some(id) ==> Some(id@) == first_id_of(*data),
{
    let edges = json_member(json_member(data, "transactions"), "edges");
    match json_first(edges) {
        Some(edge) => Some(json_text(json_member(json_member(edge, "node"), "id"))),
        None => None,
    }
}

/// Whether `r` is the number of confirmations `field`, or the complaint that
/// a status answer holds no such number.
pub open spec fn confirmations_or_refusal(
    field: Option<i64>,
    r: Result<i64, ArweaveError>,
) -> bool {
    match field {
        Some(n) => r == Ok::<i64, ArweaveError>(n),
        None => r matches Err(e) && e.kind matches ErrorKind::InvalidJson(message) && message@
            == "Expected key 'number_of_confirmations' and i64 as value"@,
    }
}

/// The number of confirmations in a status answer whose member
/// `number_of_confirmations` reads as `field`; an answer without that number
/// is of the wrong shape.
pub fn confirmations_from(field: Option<i64>) -> (r: Result<i64, ArweaveError>)
    ensures
        confirmations_or_refusal(field, r),
{
    match field {
        Some(confirmations) => Ok(confirmations),
        None => Err(
            ArweaveError {
                kind: ErrorKind::InvalidJson(
                    "Expected key 'number_of_confirmations' and i64 as value".to_owned(),
                ),
            },
        ),
    }
}

/// The number of confirmations that the status answer `transaction_status`
/// reports.
pub fn get_transaction_confirmations(transaction_status: &Value) -> (r: Result<i64, ArweaveError>)
    ensures
        confirmations_or_refusal(
            json_integer_of(json_member_of(*transaction_status, "number_of_confirmations"@)),
            r,
        ),
{
    confirmations_from(json_integer(json_member(transaction_status, "number_of_confirmations")))
}

/// A parsed document as the outcome of a request: what failed to parse was no
/// JSON.
pub fn parsed_document(parsed: Result<Value, serde_json::Error>) -> (r: Result<Value, ArweaveError>)
    ensures
        match parsed {
            Ok(v) => r == Ok::<Value, ArweaveError>(v),
            Err(x) => r matches Err(e) && e.kind == ErrorKind::JsonError(x),
        },
{
    match parsed {
        Ok(v) => Ok(v),
        Err(e) => Err(ArweaveError { kind: ErrorKind::JsonError(e) }),
    }
}

/// The document that decoded data holds: data that did not decode was no
/// base 64, and bytes that do not parse are no JSON.
pub fn decoded_document(bytes: Result<Vec<u8>, DecodeError>) -> (r: Result<Value, ArweaveError>)
    ensures
        match bytes {
            Err(x) => r matches Err(e) && e.kind == ErrorKind::Base64DecodeError(x),
            Ok(b) => match json_parsed(b@) {
                Some(v) => r == Ok::<Value, ArweaveError>(v),
                None => r matches Err(e) && e.kind is JsonError,
            },
        },
{
    match bytes {
        Err(e) => Err(ArweaveError { kind: ErrorKind::Base64DecodeError(e) }),
        Ok(json_text) => parsed_document(json_from_slice(&json_text)),
    }
}

/// Decodes the data of a transaction, fetched as URL-safe base 64 text, into
/// the JSON document it holds. Empty data is no data.
pub fn get_metadata_json(base64_data: &str) -> (r: Result<Value, ArweaveError>)
    ensures
        base64_data@.len() == 0 ==> (r matches Err(e) && e.kind is NoData),
        base64_data@.len() > 0 ==> match base64_url_bytes(base64_data@) {
            None => r matches Err(e) && e.kind is Base64DecodeError,
            Some(bytes) => match json_parsed(bytes) {
                Some(v) => r == Ok::<Value, ArweaveError>(v),
                None => r matches Err(e) && e.kind is JsonError,
            },
        },
{
    if base64_data.unicode_len() == 0 {
        return Err(ArweaveError { kind: ErrorKind::NoData });
    }
    decoded_document(base64_url_decode(base64_data))
}

/// How far an upload has come.
#[derive(Debug, Clone, Copy, PartialEq, Eq, Structural)]
pub enum UploadState {
    /// Nothing has been done yet.
    Created,
    /// The transaction over the file has been built and signed.
    Signed,
    /// The network has accepted the transaction; the bytes are published.
    Submitted,
    /// The network has been asked and had not confirmed the transaction.
    Pending,
    /// The network has confirmed the transaction this many times.
    Confirmed(u64),
    /// The upload has failed for good.
    Failed,
}

/// What the network reports of a submitted transaction.
#[derive(Debug, Clone, Copy, PartialEq, Eq, Structural)]
pub enum Status {
    Pending,
    Confirmed(u64),
}

/// What happened to an upload.
#[derive(Debug)]
pub enum UploadEvent {
    /// The transaction over the file was built and signed.
    Signed { file_location: String, content_type: String },
    /// The network accepted the transaction under this identifier.
    Accepted { id: String },
    /// The transaction could not be built, signed or submitted.
    Refused,
    /// The network was asked for the status and answered, or failed to.
    Polled(Result<Status, ArweaveError>),
}

/// One upload to the storage network.
#[derive(Debug)]
pub struct ArweaveTransaction {
    pub keypair_location: String,
    pub file_location: Option<String>,
    pub content_type: Option<String>,
    pub id: Option<String>,
    pub state: UploadState,
}

/// The upload `tx` after `event`.
///
/// An upload is signed, then submitted, then polled until it is confirmed.
/// While it is polled, an answer of pending and an error that may pass leave
/// it pending; an error that will not pass fails it. An event that does not
/// fit the state changes nothing.
pub open spec fn after(tx: ArweaveTransaction, event: UploadEvent) -> ArweaveTransaction {
    match (tx.state, event) {
        (UploadState::Created, UploadEvent::Signed { file_location, content_type }) => {
            ArweaveTransaction {
                file_location: Some(file_location),
                content_type: Some(content_type),
                state: UploadState::Signed,
                ..tx
            }
        },
        (UploadState::Signed, UploadEvent::Accepted { id }) => ArweaveTransaction {
            id: Some(id),
            state: UploadState::Submitted,
            ..tx
        },
        (UploadState::Created, UploadEvent::Refused) | (
            UploadState::Signed,
            UploadEvent::Refused,
        ) => ArweaveTransaction { state: UploadState::Failed, ..tx },
        (UploadState::Submitted, UploadEvent::Polled(answer)) | (
            UploadState::Pending,
            UploadEvent::Polled(answer),
        ) => ArweaveTransaction { state: polled_state(answer), ..tx },
        _ => tx,
    }
}

/// The state of a submitted upload after the network answered `answer`.
pub open spec fn polled_state(answer: Result<Status, ArweaveError>) -> UploadState {
    match answer {
        Ok(Status::Pending) => UploadState::Pending,
        Ok(Status::Confirmed(n)) => UploadState::Confirmed(n),
        Err(e) => if e.kind.transient() {
            UploadState::Pending
        } else {
            UploadState::Failed
        },
    }
}

impl ArweaveTransaction {
    /// An upload that nothing has been done for yet.
    pub fn new(keypair_location: String) -> (tx: ArweaveTransaction)
        ensures
            tx == (ArweaveTransaction {
                keypair_location,
                file_location: None,
                content_type: None,
                id: None,
                state: UploadState::Created,
            }),
    {
        ArweaveTransaction {
            keypair_location,
            file_location: None,
            content_type: None,
            id: None,
            state: UploadState::Created,
        }
    }

    /// Takes the upload on by `event`.
    pub fn advance(&mut self, event: &UploadEvent)
        ensures
            *final(self) == after(*old(self), *event),
    {
        match (self.state, event) {
            (UploadState::Created, UploadEvent::Signed { file_location, content_type }) => {
                self.file_location = Some(file_location.clone());
                self.content_type = Some(content_type.clone());
                self.state = UploadState::Signed;
            },
            (UploadState::Signed, UploadEvent::Accepted { id }) => {
                self.id = Some(id.clone());
                self.state = UploadState::Submitted;
            },
            (UploadState::Created, UploadEvent::Refused) => {
                self.state = UploadState::Failed;
            },
            (UploadState::Signed, UploadEvent::Refused) => {
                self.state = UploadState::Failed;
            },
            (UploadState::Submitted, UploadEvent::Polled(answer)) => {
                self.state = state_after_poll(answer);
            },
            (UploadState::Pending, UploadEvent::Polled(answer)) => {
                self.state = state_after_poll(answer);
            },
            _ => {},
        }
    }

    /// The identifier to ask the network about: that of an upload the network
    /// has accepted and neither confirmed nor failed yet.
    pub fn pollable(&self) -> (id: Option<&String>)
        ensures
            id is Some <==> (self.state is Submitted || self.state is Pending) && self.id is Some,
            id matches Some(i) ==> Some(*i) == self.id,
    {
        match (self.state, &self.id) {
            (UploadState::Submitted, Some(id)) => Some(id),
            (UploadState::Pending, Some(id)) => Some(id),
            _ => None,
        }
    }
}

/// The state of a submitted upload after the network answered `answer`.
pub fn state_after_poll(answer: &Result<Status, ArweaveError>) -> (state: UploadState)
    ensures
        state == polled_state(*answer),
{
    match answer {
        Ok(Status::Pending) => UploadState::Pending,
        Ok(Status::Confirmed(n)) => UploadState::Confirmed(*n),
        Err(e) => if e.kind.is_transient() {
            UploadState::Pending
        } else {
            UploadState::Failed
        },
    }
}

/// The uploads after each of `events` in turn.
pub open spec fn after_all(tx: ArweaveTransaction, events: Seq<UploadEvent>) -> ArweaveTransaction
    decreases events.len(),
{
    if events.len() == 0 {
        tx
    } else {
        after(after_all(tx, events.drop_last()), events.last())
    }
}

/// Whether an upload has reached a state it never leaves.
pub open spec fn settled(state: UploadState) -> bool {
    state is Confirmed || state is Failed
}

/// A confirmed upload, and a failed one, stays as it is whatever happens.
pub proof fn lemma_settled_is_final(tx: ArweaveTransaction, events: Seq<UploadEvent>)
    requires
        settled(tx.state),
    ensures
        after_all(tx, events) == tx,
    decreases events.len(),
{
    if events.len() > 0 {
        lemma_settled_is_final(tx, events.drop_last());
    }
}

/// Once the network has accepted an upload, its identifier never changes, nor
/// does the file it was made from.
pub proof fn lemma_identifier_is_kept(tx: ArweaveTransaction, events: Seq<UploadEvent>)
    requires
        tx.id is Some,
        !(tx.state is Created || tx.state is Signed),
    ensures
        after_all(tx, events).id == tx.id,
        after_all(tx, events).file_location == tx.file_location,
        !(after_all(tx, events).state is Created || after_all(tx, events).state is Signed),
    decreases events.len(),
{
    if events.len() > 0 {
        lemma_identifier_is_kept(tx, events.drop_last());
    }
}

/// Whether `event` reports that the network has not confirmed the upload yet:
/// a status of pending, or an error that may pass.
pub open spec fn inconclusive(event: UploadEvent) -> bool {
    event matches UploadEvent::Polled(answer) && match answer {
        Ok(Status::Pending) => true,
        Ok(Status::Confirmed(_)) => false,
        Err(e) => e.kind.transient(),
    }
}

/// A submitted upload that is polled without a conclusive answer is pending,
/// however often: it does not fail.
pub proof fn lemma_inconclusive_polls_keep_pending(
    tx: ArweaveTransaction,
    events: Seq<UploadEvent>,
)
    requires
        tx.state is Submitted || tx.state is Pending,
        events.len() > 0,
        forall|i: int| 0 <= i < events.len() ==> inconclusive(#[trigger] events[i]),
    ensures
        after_all(tx, events) == (ArweaveTransaction { state: UploadState::Pending, ..tx }),
    decreases events.len(),
{
    let before = events.drop_last();
    if before.len() > 0 {
        assert forall|i: int| 0 <= i < before.len() implies inconclusive(#[trigger] before[i]) by {
            assert(before[i] == events[i]);
        }
        lemma_inconclusive_polls_keep_pending(tx, before);
    }
    let last = events.last();
    let mid = after_all(tx, before);
    assert(inconclusive(last));
    assert(mid == tx || mid == (ArweaveTransaction { state: UploadState::Pending, ..tx }));
    assert(after_all(tx, events) == after(mid, last));
    match last {
        UploadEvent::Polled(answer) => {
            assert(polled_state(answer) == UploadState::Pending);
        },
        _ => {},
    }
}

} // verus!
