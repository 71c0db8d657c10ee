use verusnft::nft::arweave::{
    confirmations_from, correlation_tag, data_url, decoded_document, first_transaction_id,
    get_metadata_json, get_transaction_confirmations, image_tags, metadata_tags, parsed_document,
    state_after_poll, status_url, transaction_query, upload_tags, ArweaveError,
    ArweaveTransaction, ErrorKind, Status, UploadEvent, UploadState,
};

fn json(text: &str) -> serde_json::Value {
    serde_json::from_str(text).unwrap()
}

fn no_json() -> serde_json::Error {
    serde_json::from_str::<serde_json::Value>("{").unwrap_err()
}

fn pair(a: &str, b: &str) -> (String, String) {
    (a.to_string(), b.to_string())
}

fn after(mut tx: ArweaveTransaction, events: Vec<UploadEvent>) -> ArweaveTransaction {
    for event in &events {
        tx.advance(event);
    }
    tx
}

fn signed() -> UploadEvent {
    UploadEvent::Signed {
        file_location: "generated/5.png".to_string(),
        content_type: "image/png".to_string(),
    }
}

fn accepted(id: &str) -> UploadEvent {
    UploadEvent::Accepted { id: id.to_string() }
}

fn polled(status: Status) -> UploadEvent {
    UploadEvent::Polled(Ok(status))
}

fn refused_with(kind: ErrorKind) -> UploadEvent {
    UploadEvent::Polled(Err(ArweaveError { kind }))
}

fn submitted() -> ArweaveTransaction {
    after(ArweaveTransaction::new("wallet.json".to_string()), vec![signed(), accepted("tx-1")])
}

#[test]
fn the_correlation_tag_is_number_dot_series_at() {
    assert_eq!(correlation_tag(7001, "geckotest"), "7001.geckotest@");
    assert_eq!(correlation_tag(0, ""), "0.@");
}

#[test]
fn an_image_is_published_with_its_type_and_its_identity() {
    assert_eq!(
        image_tags(7001, "geckotest"),
        vec![pair("Content-Type", "image/png"), pair("identity", "7001.geckotest@")]
    );
}

#[test]
fn a_document_is_published_with_its_type_and_its_key() {
    assert_eq!(
        metadata_tags(7001, "geckotest"),
        vec![pair("Content-Type", "application/json"), pair("vdxfid", "7001.geckotest@")]
    );
}

#[test]
fn every_upload_carries_two_tags() {
    assert_eq!(
        upload_tags("text/plain", "note", 3, "s"),
        vec![pair("Content-Type", "text/plain"), pair("note", "3.s@")]
    );
}

#[test]
fn addresses_of_a_transaction_leave_out_quotation_marks() {
    assert_eq!(
        status_url("https://arweave.net", "\"abc\""),
        "https://arweave.net/tx/abc/status"
    );
    assert_eq!(status_url("https://arweave.net", "abc"), "https://arweave.net/tx/abc/status");
    assert_eq!(data_url("https://arweave.net", "\"abc\""), "https://arweave.net/tx/abc/data");
}

#[test]
fn the_query_asks_for_the_documents_of_one_identity_of_one_owner() {
    let expected = format!(
        r#"
    query {{
      transactions(
        owners:["{}"],
        tags: [
            {{
                name: "vdxfid",
                values: ["{}"]
            }},
            {{
                name: "Content-Type",
                values: ["application/json"]
            }}
        ]
      ) {{
        edges {{
          node {{
            id
          }}
        }}
      }}
    }}"#,
        "8YMcuOtpKW9bAh3Jhzd5Pm9m3kw-32NJSr9M_YBP5pY", "7001.geckotest@",
    );
    assert_eq!(
        transaction_query("8YMcuOtpKW9bAh3Jhzd5Pm9m3kw-32NJSr9M_YBP5pY", "7001.geckotest@"),
        expected
    );
}

#[test]
fn the_first_transaction_of_an_answer_is_read_as_json_text() {
    let answer = json(
        r#"{"transactions":{"edges":[{"node":{"id":"first"}},{"node":{"id":"second"}}]}}"#,
    );
    assert_eq!(first_transaction_id(&answer), Some("\"first\"".to_string()));
}

#[test]
fn an_answer_without_transactions_has_no_first() {
    assert_eq!(first_transaction_id(&json(r#"{"transactions":{"edges":[]}}"#)), None);
    assert_eq!(first_transaction_id(&json(r#"{"transactions":{}}"#)), None);
    assert_eq!(first_transaction_id(&json(r#"[1,2]"#)), None);
}

#[test]
fn an_edge_without_an_identifier_reads_as_null() {
    let answer = json(r#"{"transactions":{"edges":[{"node":{}}]}}"#);
    assert_eq!(first_transaction_id(&answer), Some("null".to_string()));
}

#[test]
fn confirmations_are_read_from_a_status_answer() {
    let status = json(
        r#"{"block_height":1,"block_indep_hash":"h","number_of_confirmations":12}"#,
    );
    assert_eq!(get_transaction_confirmations(&status).unwrap(), 12);
}

#[test]
fn a_status_answer_without_a_count_is_of_the_wrong_shape() {
    for text in [r#"{}"#, r#"{"number_of_confirmations":"12"}"#, r#"{"number_of_confirmations":1.5}"#, r#""Pending""#] {
        let e = get_transaction_confirmations(&json(text)).unwrap_err();
        assert!(matches!(
            e.kind,
            ErrorKind::InvalidJson(ref m) if m == "Expected key 'number_of_confirmations' and i64 as value"
        ));
    }
}

#[test]
fn a_count_that_was_read_is_the_number_of_confirmations() {
    assert_eq!(confirmations_from(Some(3)).unwrap(), 3);
    assert_eq!(confirmations_from(Some(-1)).unwrap(), -1);
    assert!(matches!(confirmations_from(None).unwrap_err().kind, ErrorKind::InvalidJson(_)));
}

#[test]
fn empty_data_is_no_data() {
    assert!(matches!(get_metadata_json("").unwrap_err().kind, ErrorKind::NoData));
}

#[test]
fn data_that_is_no_base_64_is_refused() {
    assert!(matches!(
        get_metadata_json("not base64!").unwrap_err().kind,
        ErrorKind::Base64DecodeError(_)
    ));
    assert!(matches!(get_metadata_json("e").unwrap_err().kind, ErrorKind::Base64DecodeError(_)));
}

#[test]
fn data_that_is_no_json_is_refused() {
    assert!(matches!(get_metadata_json("bm90IGpzb24").unwrap_err().kind, ErrorKind::JsonError(_)));
}

#[test]
fn data_is_decoded_into_its_document() {
    assert_eq!(get_metadata_json("eyJhIjoxfQ").unwrap(), json(r#"{"a":1}"#));
}

#[test]
fn decoded_bytes_are_parsed() {
    assert_eq!(decoded_document(Ok(b"[1, 2]".to_vec())).unwrap(), json("[1,2]"));
    assert!(matches!(
        decoded_document(Ok(b"[1, 2".to_vec())).unwrap_err().kind,
        ErrorKind::JsonError(_)
    ));
    let undecodable = base64_url::decode("*").unwrap_err();
    assert!(matches!(
        decoded_document(Err(undecodable)).unwrap_err().kind,
        ErrorKind::Base64DecodeError(_)
    ));
}

#[test]
fn a_parsed_document_is_handed_on_and_a_failure_is_wrapped() {
    assert_eq!(parsed_document(Ok(json("7"))).unwrap(), json("7"));
    assert!(matches!(parsed_document(Err(no_json())).unwrap_err().kind, ErrorKind::JsonError(_)));
}

#[test]
fn errors_that_may_pass_are_told_from_those_that_will_not() {
    assert!(ErrorKind::NotConfirmed.is_transient());
    assert!(!ErrorKind::NoData.is_transient());
    assert!(!ErrorKind::InvalidJson("x".to_string()).is_transient());
    assert!(!ErrorKind::JsonError(no_json()).is_transient());
    assert!(!ErrorKind::Base64DecodeError(base64_url::decode("*").unwrap_err()).is_transient());
}

fn no_request() -> reqwest::Error {
    reqwest::Client::new().get("not an address").build().unwrap_err()
}

#[test]
fn a_request_that_did_not_get_through_may_pass() {
    assert!(ErrorKind::ReqwestError(no_request()).is_transient());
    assert!(matches!(ArweaveError::from(no_request()).kind, ErrorKind::ReqwestError(_)));
    assert_eq!(
        state_after_poll(&Err(ArweaveError::from(no_request()))),
        UploadState::Pending
    );
}

#[test]
fn errors_of_other_crates_become_errors_of_the_network() {
    assert!(matches!(ArweaveError::from(ErrorKind::NoData).kind, ErrorKind::NoData));
    assert!(matches!(ArweaveError::from(no_json()).kind, ErrorKind::JsonError(_)));
    assert!(matches!(
        ArweaveError::from(base64_url::decode("*").unwrap_err()).kind,
        ErrorKind::Base64DecodeError(_)
    ));
}

#[test]
fn a_new_upload_has_nothing_yet() {
    let tx = ArweaveTransaction::new("wallet.json".to_string());
    assert_eq!(tx.keypair_location, "wallet.json");
    assert_eq!(tx.file_location, None);
    assert_eq!(tx.content_type, None);
    assert_eq!(tx.id, None);
    assert_eq!(tx.state, UploadState::Created);
    assert_eq!(tx.pollable(), None);
}

#[test]
fn an_upload_is_signed_then_submitted() {
    let mut tx = ArweaveTransaction::new("wallet.json".to_string());
    tx.advance(&signed());
    assert_eq!(tx.state, UploadState::Signed);
    assert_eq!(tx.file_location, Some("generated/5.png".to_string()));
    assert_eq!(tx.content_type, Some("image/png".to_string()));
    assert_eq!(tx.pollable(), None);
    tx.advance(&accepted("tx-1"));
    assert_eq!(tx.state, UploadState::Submitted);
    assert_eq!(tx.id, Some("tx-1".to_string()));
    assert_eq!(tx.pollable(), Some(&"tx-1".to_string()));
}

#[test]
fn an_upload_cannot_be_submitted_before_it_is_signed() {
    let tx = after(ArweaveTransaction::new("wallet.json".to_string()), vec![accepted("tx-1")]);
    assert_eq!(tx.state, UploadState::Created);
    assert_eq!(tx.id, None);
}

#[test]
fn a_refused_upload_has_failed() {
    let tx = after(ArweaveTransaction::new("wallet.json".to_string()), vec![UploadEvent::Refused]);
    assert_eq!(tx.state, UploadState::Failed);
    assert_eq!(after(submitted(), vec![UploadEvent::Refused]).state, UploadState::Submitted);
}

#[test]
fn a_pending_upload_stays_pending_however_often_it_is_polled() {
    let mut tx = submitted();
    for round in 0..50 {
        if round % 2 == 0 {
            tx.advance(&polled(Status::Pending));
        } else {
            tx.advance(&refused_with(ErrorKind::NotConfirmed));
        }
        assert_eq!(tx.state, UploadState::Pending);
        assert_eq!(tx.pollable(), Some(&"tx-1".to_string()));
    }
    tx.advance(&polled(Status::Confirmed(4)));
    assert_eq!(tx.state, UploadState::Confirmed(4));
    assert_eq!(tx.pollable(), None);
}

#[test]
fn a_lasting_error_fails_the_upload() {
    let tx = after(submitted(), vec![refused_with(ErrorKind::NoData)]);
    assert_eq!(tx.state, UploadState::Failed);
}

#[test]
fn a_confirmed_upload_keeps_its_identifier_whatever_happens() {
    let tx = after(
        submitted(),
        vec![
            polled(Status::Confirmed(1)),
            accepted("tx-2"),
            polled(Status::Pending),
            refused_with(ErrorKind::NoData),
            UploadEvent::Refused,
            UploadEvent::Signed {
                file_location: "other".to_string(),
                content_type: "other".to_string(),
            },
        ],
    );
    assert_eq!(tx.state, UploadState::Confirmed(1));
    assert_eq!(tx.id, Some("tx-1".to_string()));
    assert_eq!(tx.file_location, Some("generated/5.png".to_string()));
}

#[test]
fn an_answer_to_a_poll_decides_the_state() {
    assert_eq!(state_after_poll(&Ok(Status::Pending)), UploadState::Pending);
    assert_eq!(state_after_poll(&Ok(Status::Confirmed(9))), UploadState::Confirmed(9));
    assert_eq!(
        state_after_poll(&Err(ArweaveError { kind: ErrorKind::NotConfirmed })),
        UploadState::Pending
    );
    assert_eq!(
        state_after_poll(&Err(ArweaveError { kind: ErrorKind::InvalidJson(String::new()) })),
        UploadState::Failed
    );
}
