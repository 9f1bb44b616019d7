use record_service::identifier::{is_canonical, resolve_identifier};
use record_service::record::{
    CreateRequest, ErrorKind, InsertOutcome, PendingCreate, Record, SelectOutcome, ServiceError,
    StoredRow,
};
use record_service::request::decode_create;
use record_service::service::{
    assemble_create, complete_create, complete_fetch, fetch_target, prepare_create,
    record_from_row,
};
use record_service::surface::{response_status, status_code, RequestStage};
use serde_json::{Number, Value};
use std::collections::{HashMap, HashSet};

fn hello_world() -> Value {
    let mut object = serde_json::Map::new();
    object.insert("hello".to_string(), Value::String("world".to_string()));
    Value::Object(object)
}

fn one_two_three() -> Value {
    Value::Array(vec![
        Value::Number(Number::from(1u64)),
        Value::Number(Number::from(2u64)),
        Value::Number(Number::from(3u64)),
    ])
}

fn request(id: Option<&str>, kind: &str, payload: Value) -> CreateRequest {
    CreateRequest { id: id.map(|s| s.to_string()), kind: kind.to_string(), payload }
}

/// A backend that keeps rows in memory and answers as a working backend does.
fn insert(rows: &mut HashMap<String, StoredRow>, row: &StoredRow) -> InsertOutcome {
    if rows.contains_key(&row.id) {
        InsertOutcome::UniqueViolation
    } else {
        rows.insert(row.id.clone(), row.clone());
        InsertOutcome::Inserted
    }
}

fn select(rows: &HashMap<String, StoredRow>, id: &str) -> SelectOutcome {
    match rows.get(id) {
        Some(row) => SelectOutcome::Found(row.clone()),
        None => SelectOutcome::Missing,
    }
}

fn create(rows: &mut HashMap<String, StoredRow>, req: CreateRequest) -> Result<Record, ServiceError> {
    let pending = prepare_create(req)?;
    let outcome = insert(rows, &pending.row);
    complete_create(pending, outcome)
}

fn fetch(rows: &HashMap<String, StoredRow>, id: Option<&str>) -> Result<Record, ServiceError> {
    let id = fetch_target(id.map(|s| s.to_string()))?;
    complete_fetch(select(rows, &id))
}

#[test]
fn canonical_form_is_recognised() {
    assert!(is_canonical("123e4567-e89b-42d3-a456-426614174000"));
    assert!(is_canonical("00000000-0000-0000-0000-000000000000"));
    assert!(is_canonical("ffffffff-ffff-ffff-ffff-ffffffffffff"));
}

#[test]
fn non_canonical_forms_are_refused() {
    assert!(!is_canonical(""));
    assert!(!is_canonical("fixed-1"));
    assert!(!is_canonical("123E4567-E89B-42D3-A456-426614174000"));
    assert!(!is_canonical("123e4567e89b42d3a456426614174000"));
    assert!(!is_canonical("123e4567-e89b-42d3-a456-42661417400"));
    assert!(!is_canonical("123e4567-e89b-42d3-a456-4266141740000"));
    assert!(!is_canonical("123e4567-e89b-42d3-a456_426614174000"));
    assert!(!is_canonical("123e4567-e89b-42d3-a456-42661417400g"));
    assert!(!is_canonical("123e4567-e89b-42d3-a45--426614174000"));
    assert!(!is_canonical("123e4567ae89b-42d3-a456-426614174000"));
    assert!(!is_canonical("123e4567-e89b-42d3-a456-42661417400\u{e9}"));
}

#[test]
fn empty_identifier_gets_a_canonical_one() {
    let id = resolve_identifier(Some(String::new()));
    assert!(is_canonical(&id));
    assert_eq!(id.len(), 36);
}

#[test]
fn absent_identifier_gets_a_canonical_one() {
    let id = resolve_identifier(None);
    assert!(is_canonical(&id));
}

#[test]
fn client_identifier_is_kept_verbatim() {
    assert_eq!(resolve_identifier(Some("fixed-1".to_string())), "fixed-1");
    assert_eq!(resolve_identifier(Some("MiXeD Case".to_string())), "MiXeD Case");
    assert_eq!(resolve_identifier(Some(" ".to_string())), " ");
}

#[test]
fn fresh_identifiers_differ() {
    let mut seen = HashSet::new();
    for _ in 0..100 {
        let id = resolve_identifier(None);
        assert!(is_canonical(&id));
        assert!(seen.insert(id));
    }
    assert_eq!(seen.len(), 100);
}

#[test]
fn prepare_writes_payload_as_compact_text() {
    let pending = prepare_create(request(Some("a"), "note", hello_world())).unwrap();
    assert_eq!(pending.row.payload_text, "{\"hello\":\"world\"}");
    assert_eq!(pending.row.id, "a");
    assert_eq!(pending.row.kind, "note");
    assert_eq!(pending.record.id, "a");
    assert_eq!(pending.record.kind, "note");
    assert_eq!(pending.record.payload, hello_world());
}

#[test]
fn prepare_writes_array_and_null() {
    let pending = prepare_create(request(Some("fixed-1"), "x", one_two_three())).unwrap();
    assert_eq!(pending.row.payload_text, "[1,2,3]");
    let pending = prepare_create(request(None, "n", Value::Null)).unwrap();
    assert_eq!(pending.row.payload_text, "null");
    assert!(is_canonical(&pending.row.id));
    assert_eq!(pending.row.id, pending.record.id);
}

#[test]
fn prepare_allows_empty_kind() {
    let pending = prepare_create(request(Some("k"), "", Value::Bool(true))).unwrap();
    assert_eq!(pending.row.kind, "");
    assert_eq!(pending.row.payload_text, "true");
}

#[test]
fn assemble_keeps_what_it_is_given() {
    let pending = assemble_create(
        "id-1".to_string(),
        "kind-1".to_string(),
        Value::Bool(false),
        Ok("false".to_string()),
    )
    .unwrap();
    assert_eq!(
        pending,
        PendingCreate {
            record: Record {
                id: "id-1".to_string(),
                kind: "kind-1".to_string(),
                payload: Value::Bool(false),
            },
            row: StoredRow {
                id: "id-1".to_string(),
                kind: "kind-1".to_string(),
                payload_text: "false".to_string(),
            },
        }
    );
}

#[test]
fn assemble_reports_codec_failure() {
    let error = assemble_create(
        "id-1".to_string(),
        "kind-1".to_string(),
        Value::Null,
        Err("cannot write".to_string()),
    )
    .unwrap_err();
    assert_eq!(
        error,
        ServiceError { kind: ErrorKind::StorageFailure, detail: "cannot write".to_string() }
    );
}

#[test]
fn complete_create_for_each_outcome() {
    let pending = || prepare_create(request(Some("fixed-1"), "x", one_two_three())).unwrap();
    let record = complete_create(pending(), InsertOutcome::Inserted).unwrap();
    assert_eq!(
        record,
        Record { id: "fixed-1".to_string(), kind: "x".to_string(), payload: one_two_three() }
    );
    let error = complete_create(pending(), InsertOutcome::UniqueViolation).unwrap_err();
    assert_eq!(error.kind, ErrorKind::Conflict);
    assert_eq!(error.detail, "Item id already exists");
    let error =
        complete_create(pending(), InsertOutcome::BackendError("disk full".to_string()))
            .unwrap_err();
    assert_eq!(
        error,
        ServiceError { kind: ErrorKind::StorageFailure, detail: "disk full".to_string() }
    );
}

#[test]
fn record_from_row_for_each_codec_answer() {
    let row = || StoredRow {
        id: "r".to_string(),
        kind: "t".to_string(),
        payload_text: "[1,2,3]".to_string(),
    };
    assert_eq!(
        record_from_row(row(), Ok(one_two_three())),
        Ok(Record { id: "r".to_string(), kind: "t".to_string(), payload: one_two_three() })
    );
    assert_eq!(
        record_from_row(row(), Err("bad".to_string())),
        Err(ServiceError { kind: ErrorKind::CorruptPayload, detail: "bad".to_string() })
    );
}

#[test]
fn complete_fetch_reads_payload_text() {
    let row = StoredRow {
        id: "r".to_string(),
        kind: "t".to_string(),
        payload_text: " { \"hello\" :\n \"world\" } ".to_string(),
    };
    let record = complete_fetch(SelectOutcome::Found(row)).unwrap();
    assert_eq!(record.id, "r");
    assert_eq!(record.kind, "t");
    assert_eq!(record.payload, hello_world());
}

#[test]
fn complete_fetch_missing_is_not_found() {
    let error = complete_fetch(SelectOutcome::Missing).unwrap_err();
    assert_eq!(
        error,
        ServiceError { kind: ErrorKind::NotFound, detail: "Item not found".to_string() }
    );
    assert_eq!(status_code(error.kind), 404);
}

#[test]
fn complete_fetch_backend_error_is_storage_failure() {
    let error = complete_fetch(SelectOutcome::BackendError("pool closed".to_string())).unwrap_err();
    assert_eq!(
        error,
        ServiceError { kind: ErrorKind::StorageFailure, detail: "pool closed".to_string() }
    );
    assert_eq!(status_code(error.kind), 500);
}

#[test]
fn complete_fetch_corrupt_text_is_reported() {
    for text in ["", "not-json", "{\"a\":", "[1,2,3", "nul"] {
        let row = StoredRow {
            id: "r".to_string(),
            kind: "t".to_string(),
            payload_text: text.to_string(),
        };
        let result = complete_fetch(SelectOutcome::Found(row));
        assert_eq!(response_status(&result), 500);
        let error = result.unwrap_err();
        assert_eq!(error.kind, ErrorKind::CorruptPayload);
        let complaint = serde_json::from_str::<Value>(text).unwrap_err().to_string();
        assert!(!error.detail.is_empty());
        assert_eq!(error.detail, complaint);
    }
}

#[test]
fn fetch_target_needs_an_identifier() {
    assert_eq!(fetch_target(Some("abc".to_string())), Ok("abc".to_string()));
    assert_eq!(fetch_target(Some(String::new())), Ok(String::new()));
    let error = fetch_target(None).unwrap_err();
    assert_eq!(error.kind, ErrorKind::MalformedRequest);
    assert_eq!(error.detail, "Missing id query parameter");
    assert_eq!(status_code(error.kind), 400);
}

#[test]
fn every_kind_has_its_status() {
    assert_eq!(status_code(ErrorKind::MalformedRequest), 400);
    assert_eq!(status_code(ErrorKind::NotFound), 404);
    assert_eq!(status_code(ErrorKind::Conflict), 409);
    assert_eq!(status_code(ErrorKind::StorageFailure), 500);
    assert_eq!(status_code(ErrorKind::CorruptPayload), 500);
}

#[test]
fn response_status_of_results() {
    let ok: Result<Record, ServiceError> =
        Ok(Record { id: "a".to_string(), kind: "b".to_string(), payload: Value::Null });
    assert_eq!(response_status(&ok), 200);
    let conflict: Result<Record, ServiceError> =
        Err(ServiceError { kind: ErrorKind::Conflict, detail: String::new() });
    assert_eq!(response_status(&conflict), 409);
}

#[test]
fn create_then_fetch_with_assigned_identifier() {
    let mut rows = HashMap::new();
    let created = create(&mut rows, request(Some(""), "note", hello_world()));
    assert_eq!(response_status(&created), 200);
    let created = created.unwrap();
    assert!(is_canonical(&created.id));
    let fetched = fetch(&rows, Some(&created.id));
    assert_eq!(response_status(&fetched), 200);
    let fetched = fetched.unwrap();
    assert_eq!(fetched.payload, hello_world());
    assert_eq!(fetched, created);
}

#[test]
fn second_create_with_same_identifier_conflicts() {
    let mut rows = HashMap::new();
    let first = create(&mut rows, request(Some("fixed-1"), "x", one_two_three()));
    assert_eq!(response_status(&first), 200);
    assert_eq!(first.unwrap().id, "fixed-1");
    let second = create(&mut rows, request(Some("fixed-1"), "x", one_two_three()));
    assert_eq!(response_status(&second), 409);
    assert_eq!(second.unwrap_err().kind, ErrorKind::Conflict);
}

#[test]
fn conflict_does_not_overwrite() {
    let mut rows = HashMap::new();
    create(&mut rows, request(Some("k"), "first", one_two_three())).unwrap();
    let second = create(&mut rows, request(Some("k"), "second", Value::Null));
    assert_eq!(response_status(&second), 409);
    let fetched = fetch(&rows, Some("k")).unwrap();
    assert_eq!(fetched.kind, "first");
    assert_eq!(fetched.payload, one_two_three());
    assert_eq!(rows.len(), 1);
}

#[test]
fn identifiers_are_case_sensitive() {
    let mut rows = HashMap::new();
    create(&mut rows, request(Some("abc"), "lower", Value::Null)).unwrap();
    let upper = create(&mut rows, request(Some("ABC"), "upper", Value::Null));
    assert_eq!(response_status(&upper), 200);
    assert_eq!(fetch(&rows, Some("abc")).unwrap().kind, "lower");
    assert_eq!(fetch(&rows, Some("ABC")).unwrap().kind, "upper");
}

#[test]
fn fetch_of_unknown_identifier_is_not_found() {
    let mut rows = HashMap::new();
    let missing = fetch(&rows, Some("does-not-exist"));
    assert_eq!(response_status(&missing), 404);
    create(&mut rows, request(Some("exists"), "x", Value::Null)).unwrap();
    let missing = fetch(&rows, Some("does-not-exist"));
    assert_eq!(response_status(&missing), 404);
    assert_eq!(missing.unwrap_err().kind, ErrorKind::NotFound);
    let empty = fetch(&rows, Some(""));
    assert_eq!(response_status(&empty), 404);
}

#[test]
fn fetch_without_identifier_is_malformed() {
    let rows = HashMap::new();
    assert_eq!(response_status(&fetch(&rows, None)), 400);
}

#[test]
fn null_payload_round_trips() {
    let mut rows = HashMap::new();
    let created = create(&mut rows, request(None, "n", Value::Null)).unwrap();
    let fetched = fetch(&rows, Some(&created.id)).unwrap();
    assert_eq!(fetched.payload, Value::Null);
    assert_eq!(fetched.kind, "n");
}

#[test]
fn payloads_of_every_shape_round_trip() {
    let mut nested = serde_json::Map::new();
    nested.insert("list".to_string(), one_two_three());
    nested.insert("inner".to_string(), hello_world());
    nested.insert("neg".to_string(), Value::Number(Number::from(-7i64)));
    nested.insert("text".to_string(), Value::String("line\n\"quoted\" \u{e9}".to_string()));
    nested.insert("flag".to_string(), Value::Bool(false));
    nested.insert("nothing".to_string(), Value::Null);
    let payloads = vec![
        Value::Null,
        Value::Bool(true),
        Value::Number(Number::from(u64::MAX)),
        Value::String(String::new()),
        Value::Array(Vec::new()),
        Value::Object(serde_json::Map::new()),
        one_two_three(),
        hello_world(),
        Value::Object(nested),
    ];
    let mut rows = HashMap::new();
    for payload in payloads {
        let expected = payload.clone();
        let created = create(&mut rows, request(None, "any", payload)).unwrap();
        assert_eq!(created.payload, expected);
        let fetched = fetch(&rows, Some(&created.id)).unwrap();
        assert_eq!(fetched.payload, expected);
        assert_eq!(fetched, created);
    }
}

#[test]
fn successive_fetches_agree() {
    let mut rows = HashMap::new();
    create(&mut rows, request(Some("p"), "x", hello_world())).unwrap();
    let text_before = rows.get("p").unwrap().payload_text.clone();
    let first = fetch(&rows, Some("p")).unwrap();
    create(&mut rows, request(None, "other", Value::Null)).unwrap();
    create(&mut rows, request(Some("p"), "again", Value::Null)).unwrap_err();
    let second = fetch(&rows, Some("p")).unwrap();
    assert_eq!(first, second);
    assert_eq!(rows.get("p").unwrap().payload_text, text_before);
    assert_eq!(text_before.as_bytes(), b"{\"hello\":\"world\"}");
}

#[test]
fn hundred_creates_get_distinct_identifiers() {
    let mut rows = HashMap::new();
    let mut ids = Vec::new();
    for _ in 0..100 {
        let created = create(&mut rows, request(Some(""), "same", hello_world()));
        assert_eq!(response_status(&created), 200);
        ids.push(created.unwrap().id);
    }
    let distinct: HashSet<&String> = ids.iter().collect();
    assert_eq!(distinct.len(), 100);
    for id in &ids {
        let fetched = fetch(&rows, Some(id)).unwrap();
        assert_eq!(&fetched.id, id);
        assert_eq!(fetched.kind, "same");
        assert_eq!(fetched.payload, hello_world());
    }
}

#[test]
fn corrupt_payload_carries_the_codec_complaint() {
    let row = StoredRow {
        id: "r".to_string(),
        kind: "t".to_string(),
        payload_text: "not-json".to_string(),
    };
    let error = complete_fetch(SelectOutcome::Found(row)).unwrap_err();
    assert_eq!(
        error,
        ServiceError {
            kind: ErrorKind::CorruptPayload,
            detail: "expected ident at line 1 column 2".to_string(),
        }
    );
}

#[test]
fn payload_nested_beyond_the_codec_limit_does_not_read_back() {
    let mut payload = Value::Null;
    for _ in 0..200 {
        payload = Value::Array(vec![payload]);
    }
    let mut rows = HashMap::new();
    let created = create(&mut rows, request(Some("deep"), "x", payload)).unwrap();
    assert_eq!(created.id, "deep");
    let text = &rows.get("deep").unwrap().payload_text;
    assert_eq!(text.len(), 404);
    assert!(text.starts_with("[[[[") && text.ends_with("]]]]"));
    let fetched = fetch(&rows, Some("deep"));
    assert_eq!(response_status(&fetched), 500);
    assert_eq!(fetched.unwrap_err().kind, ErrorKind::CorruptPayload);
}

#[test]
fn request_passes_through_its_stages() {
    let mut stage = RequestStage::Received;
    assert!(!stage.finished());
    stage = stage.advance(None);
    assert_eq!(stage, RequestStage::Decoded);
    stage = stage.advance(None);
    assert_eq!(stage, RequestStage::Serviced);
    stage = stage.advance(None);
    assert_eq!(stage, RequestStage::Encoded);
    assert!(!stage.finished());
    stage = stage.advance(None);
    assert_eq!(stage, RequestStage::Sent);
    assert!(stage.finished());
    assert_eq!(stage.advance(None), RequestStage::Sent);
    assert_eq!(stage.advance(Some(ErrorKind::NotFound)), RequestStage::Sent);
}

#[test]
fn request_fails_from_any_stage_under_way() {
    let under_way = [
        RequestStage::Received,
        RequestStage::Decoded,
        RequestStage::Serviced,
        RequestStage::Encoded,
    ];
    for stage in under_way {
        assert_eq!(stage.advance(Some(ErrorKind::MalformedRequest)), RequestStage::Failed(400));
        assert_eq!(stage.advance(Some(ErrorKind::NotFound)), RequestStage::Failed(404));
        assert_eq!(stage.advance(Some(ErrorKind::Conflict)), RequestStage::Failed(409));
        assert_eq!(stage.advance(Some(ErrorKind::StorageFailure)), RequestStage::Failed(500));
        assert_eq!(stage.advance(Some(ErrorKind::CorruptPayload)), RequestStage::Failed(500));
    }
    let failed = RequestStage::Failed(404);
    assert!(failed.finished());
    assert_eq!(failed.advance(None), failed);
    assert_eq!(failed.advance(Some(ErrorKind::Conflict)), failed);
}

#[test]
fn bodies_go_through_decode_create_and_fetch() {
    let mut rows = HashMap::new();
    let body = "{\"id\":\"\",\"type\":\"note\",\"payload\":{\"hello\":\"world\"}}";
    let created = create(&mut rows, decode_create(body).unwrap()).unwrap();
    assert!(is_canonical(&created.id));
    assert_eq!(fetch(&rows, Some(&created.id)).unwrap().payload, hello_world());

    let body = "{\"id\":\"fixed-1\",\"type\":\"x\",\"payload\":[1,2,3]}";
    let first = create(&mut rows, decode_create(body).unwrap());
    assert_eq!(response_status(&first), 200);
    assert_eq!(first.unwrap().id, "fixed-1");
    let second = create(&mut rows, decode_create(body).unwrap());
    assert_eq!(response_status(&second), 409);

    let body = "{\"type\":\"n\",\"payload\":null}";
    let created = create(&mut rows, decode_create(body).unwrap()).unwrap();
    assert_eq!(fetch(&rows, Some(&created.id)).unwrap().payload, Value::Null);

    let refused = decode_create("not-json").unwrap_err();
    assert_eq!(status_code(refused.kind), 400);
    assert_eq!(rows.len(), 3);
}
