use lxd::info::{Snapshot as SnapshotInfo, State};
use lxd::{CmdOutcome, Executor, FetchOutcome, Image, Info, Json, Location, LxdError};

fn ok_runner(_args: Vec<String>) -> CmdOutcome {
    CmdOutcome::Success
}

fn strs(tokens: &[&str]) -> Vec<String> {
    tokens.iter().map(|t| t.to_string()).collect()
}

fn pairs(entries: &[(&str, &str)]) -> Vec<(String, String)> {
    entries
        .iter()
        .map(|(k, v)| (k.to_string(), v.to_string()))
        .collect()
}

fn sample_state() -> State {
    State {
        status: "Running".to_string(),
        status_code: 103,
        memory: vec![("usage".to_string(), 524288usize)],
        pid: 4242,
        processes: 17,
        cpu: vec![("usage".to_string(), 991usize)],
    }
}

fn sample_snapshot_info() -> SnapshotInfo {
    SnapshotInfo {
        architecture: "x86_64".to_string(),
        config: pairs(&[("volatile.base_image", "abcd")]),
        created_at: "2019-06-01T10:00:00Z".to_string(),
        ephemeral: false,
        expanded_config: pairs(&[("image.os", "ubuntu")]),
        expanded_devices: vec![(
            "root".to_string(),
            pairs(&[("path", "/"), ("type", "disk")]),
        )],
        last_used_at: "2019-06-02T10:00:00Z".to_string(),
        name: "snap0".to_string(),
        profiles: vec!["default".to_string()],
        stateful: false,
    }
}

fn sample_info(name: &str) -> Info {
    Info {
        architecture: "x86_64".to_string(),
        config: pairs(&[("image.os", "ubuntu"), ("image.release", "xenial")]),
        devices: vec![(
            "root".to_string(),
            pairs(&[("path", "/"), ("type", "disk")]),
        )],
        ephemeral: true,
        profiles: vec!["default".to_string(), "net".to_string()],
        created_at: "2019-06-01T10:00:00Z".to_string(),
        expanded_config: pairs(&[("image.os", "ubuntu")]),
        expanded_devices: vec![(
            "eth0".to_string(),
            pairs(&[("nictype", "bridged"), ("parent", "lxdbr0")]),
        )],
        name: name.to_string(),
        stateful: false,
        status: "Running".to_string(),
        status_code: 103,
        last_used_at: "2019-06-02T10:00:00Z".to_string(),
        state: Some(sample_state()),
        snapshots: Some(vec![sample_snapshot_info()]),
    }
}

fn sample_image() -> Image {
    Image {
        auto_update: true,
        properties: pairs(&[("description", "Ubuntu xenial"), ("os", "ubuntu")]),
        public: false,
        aliases: vec![pairs(&[("name", "base-x"), ("description", "")])],
        architecture: "x86_64".to_string(),
        cached: true,
        filename: "image.tar.xz".to_string(),
        fingerprint: "9fb2b56b".to_string(),
        size: 88080384,
        update_source: pairs(&[("server", "https://images.example")]),
        created_at: "2019-05-01T00:00:00Z".to_string(),
        expires_at: "2024-05-01T00:00:00Z".to_string(),
        last_used_at: "2019-06-01T00:00:00Z".to_string(),
        uploaded_at: "2019-05-02T00:00:00Z".to_string(),
    }
}

#[test]
fn info_round_trips_through_its_json_shape() {
    let a = sample_info("t1");
    let b = Info::from_json(&a.to_json()).unwrap();
    assert_eq!(a, b);
}

#[test]
fn info_without_optional_parts_round_trips() {
    let mut a = sample_info("t2");
    a.state = None;
    a.snapshots = None;
    let b = Info::from_json(&a.to_json()).unwrap();
    assert_eq!(a, b);
}

#[test]
fn info_with_duplicate_map_keys_round_trips() {
    let mut a = sample_info("t3");
    a.config = pairs(&[("k", "1"), ("k", "2")]);
    let b = Info::from_json(&a.to_json()).unwrap();
    assert_eq!(a, b);
}

#[test]
fn state_round_trips_through_its_json_shape() {
    let a = sample_state();
    let b = State::from_json(&a.to_json()).unwrap();
    assert_eq!(a, b);
}

#[test]
fn snapshot_record_round_trips_through_its_json_shape() {
    let a = sample_snapshot_info();
    let b = SnapshotInfo::from_json(&a.to_json()).unwrap();
    assert_eq!(a, b);
}

#[test]
fn image_round_trips_through_its_json_shape() {
    let a = sample_image();
    let b = Image::from_json(&a.to_json()).unwrap();
    assert_eq!(a, b);
}

#[test]
fn image_with_empty_update_source_round_trips() {
    let mut a = sample_image();
    a.update_source = Vec::new();
    let b = Image::from_json(&a.to_json()).unwrap();
    assert_eq!(a, b);
}

#[test]
fn missing_update_source_defaults_to_empty() {
    let a = sample_image();
    let json = a.to_json();
    let trimmed = match json {
        Json::Obj(entries) => Json::Obj(
            entries
                .into_iter()
                .filter(|(k, _)| k != "update_source")
                .collect(),
        ),
        other => other,
    };
    let b = Image::from_json(&trimmed).unwrap();
    assert!(b.update_source.is_empty());
    assert_eq!(b.fingerprint, a.fingerprint);
}

#[test]
fn unknown_keys_are_ignored() {
    let a = sample_info("t4");
    let json = match a.to_json() {
        Json::Obj(mut entries) => {
            entries.insert(0, ("location".to_string(), Json::Str("none".to_string())));
            entries.push(("description".to_string(), Json::Str("d".to_string())));
            Json::Obj(entries)
        }
        other => other,
    };
    let b = Info::from_json(&json).unwrap();
    assert_eq!(a, b);
}

#[test]
fn malformed_record_is_rejected() {
    // A required key is missing: the record must not decode.
    let json = match sample_info("t5").to_json() {
        Json::Obj(entries) => Json::Obj(
            entries.into_iter().filter(|(k, _)| k != "name").collect(),
        ),
        other => other,
    };
    assert!(Info::from_json(&json).is_none());
    // A required key holds the wrong kind of value.
    let json = match sample_info("t6").to_json() {
        Json::Obj(mut entries) => {
            for e in entries.iter_mut() {
                if e.0 == "ephemeral" {
                    e.1 = Json::Str("yes".to_string());
                }
            }
            Json::Obj(entries)
        }
        other => other,
    };
    assert!(Info::from_json(&json).is_none());
}

#[test]
fn select_single_returns_the_sole_record_unmodified() {
    let one = vec![sample_info("t1")];
    let picked = Info::select_single(one, "t1").unwrap();
    assert_eq!(picked, sample_info("t1"));
}

#[test]
fn select_single_rejects_zero_and_many() {
    let none: Vec<Info> = Vec::new();
    assert_eq!(
        Info::select_single(none, "ghost").unwrap_err(),
        LxdError::NotFound("ghost".to_string())
    );
    let two = vec![sample_info("a"), sample_info("b")];
    assert_eq!(
        Info::select_single(two, "a").unwrap_err(),
        LxdError::NotFound("a".to_string())
    );
}

#[test]
fn decode_single_judges_every_shape() {
    // Exactly one record: that record, unmodified.
    let one = Json::Arr(vec![sample_info("t1").to_json()]);
    assert_eq!(Info::decode_single(&one, "t1").unwrap(), sample_info("t1"));
    // Zero or several records: not-found, carrying the name.
    let none = Json::Arr(Vec::new());
    assert_eq!(
        Info::decode_single(&none, "ghost").unwrap_err(),
        LxdError::NotFound("ghost".to_string())
    );
    let two = Json::Arr(vec![sample_info("a").to_json(), sample_info("b").to_json()]);
    assert_eq!(
        Info::decode_single(&two, "a").unwrap_err(),
        LxdError::NotFound("a".to_string())
    );
    // Not an array of records at all: a parse failure, never not-found.
    let wrong = Json::Bool(true);
    assert!(matches!(
        Info::decode_single(&wrong, "t1").unwrap_err(),
        LxdError::ParseFailure(_)
    ));
}

#[test]
fn decode_listing_judges_the_shape() {
    let good = Json::Arr(vec![sample_info("t1").to_json()]);
    assert_eq!(Info::decode_listing(&good).unwrap(), vec![sample_info("t1")]);
    let bad = Json::Obj(Vec::new());
    assert!(matches!(
        Info::decode_listing(&bad).unwrap_err(),
        LxdError::ParseFailure(_)
    ));
    let img = Json::Arr(vec![sample_image().to_json()]);
    assert_eq!(Image::decode_listing(&img).unwrap(), vec![sample_image()]);
    assert!(matches!(
        Image::decode_single(&Json::Num(3), "x").unwrap_err(),
        LxdError::ParseFailure(_)
    ));
}

#[test]
fn info_all_issues_listing_and_decodes_records() {
    let fetcher = |_args: Vec<String>| {
        FetchOutcome::Parsed(Json::Arr(vec![sample_info("t1").to_json()]))
    };
    let mut ex = Executor::new(ok_runner, fetcher);
    let list = Info::all(&mut ex, Location::Local).unwrap();
    assert_eq!(list, vec![sample_info("t1")]);
    assert_eq!(ex.history(), &vec![strs(&["list", "--format", "json"])]);
}

#[test]
fn info_all_on_a_remote_scopes_the_listing() {
    let fetcher = |_args: Vec<String>| FetchOutcome::Parsed(Json::Arr(Vec::new()));
    let mut ex = Executor::new(ok_runner, fetcher);
    let list = Info::all(&mut ex, Location::Remote("host".to_string())).unwrap();
    assert!(list.is_empty());
    assert_eq!(
        ex.history(),
        &vec![strs(&["list", "host:", "--format", "json"])]
    );
}

#[test]
fn info_new_anchors_the_name_filter() {
    let fetcher = |_args: Vec<String>| {
        FetchOutcome::Parsed(Json::Arr(vec![sample_info("test-info").to_json()]))
    };
    let mut ex = Executor::new(ok_runner, fetcher);
    let info = Info::new(&mut ex, Location::Local, "test-info").unwrap();
    assert_eq!(info.name, "test-info");
    assert_eq!(
        ex.history(),
        &vec![strs(&["list", "test-info$", "--format", "json"])]
    );
}

#[test]
fn fetching_a_missing_name_yields_not_found_not_a_parse_error() {
    let fetcher = |_args: Vec<String>| FetchOutcome::Parsed(Json::Arr(Vec::new()));
    let mut ex = Executor::new(ok_runner, fetcher);
    let err = Info::new(&mut ex, Location::Local, "ghost").unwrap_err();
    assert_eq!(err, LxdError::NotFound("ghost".to_string()));
}

#[test]
fn ambiguous_name_also_yields_not_found() {
    let fetcher = |_args: Vec<String>| {
        FetchOutcome::Parsed(Json::Arr(vec![
            sample_info("x1").to_json(),
            sample_info("x2").to_json(),
        ]))
    };
    let mut ex = Executor::new(ok_runner, fetcher);
    let err = Info::new(&mut ex, Location::Local, "x").unwrap_err();
    assert_eq!(err, LxdError::NotFound("x".to_string()));
}

#[test]
fn unparsable_output_yields_parse_failure() {
    let fetcher = |_args: Vec<String>| FetchOutcome::Unparsable("expected value".to_string());
    let mut ex = Executor::new(ok_runner, fetcher);
    let err = Info::new(&mut ex, Location::Local, "t1").unwrap_err();
    assert_eq!(err, LxdError::ParseFailure("expected value".to_string()));
}

#[test]
fn wrong_shaped_output_yields_parse_failure() {
    let fetcher = |_args: Vec<String>| FetchOutcome::Parsed(Json::Bool(true));
    let mut ex = Executor::new(ok_runner, fetcher);
    let err = Info::all(&mut ex, Location::Local).unwrap_err();
    assert!(matches!(err, LxdError::ParseFailure(_)));
}

#[test]
fn wrong_shaped_single_fetch_yields_parse_failure_not_not_found() {
    let fetcher = |_args: Vec<String>| FetchOutcome::Parsed(Json::Obj(Vec::new()));
    let mut ex = Executor::new(ok_runner, fetcher);
    assert!(matches!(
        Info::new(&mut ex, Location::Local, "t1").unwrap_err(),
        LxdError::ParseFailure(_)
    ));
    let fetcher2 = |_args: Vec<String>| FetchOutcome::Parsed(Json::Str("no".to_string()));
    let mut ex2 = Executor::new(ok_runner, fetcher2);
    assert!(matches!(
        Image::new(&mut ex2, Location::Local, "x").unwrap_err(),
        LxdError::ParseFailure(_)
    ));
}

#[test]
fn spawn_failure_on_fetch_carries_its_message() {
    let fetcher = |_args: Vec<String>| FetchOutcome::SpawnError("executable not found".to_string());
    let mut ex = Executor::new(ok_runner, fetcher);
    let err = Info::all(&mut ex, Location::Local).unwrap_err();
    assert_eq!(err, LxdError::SpawnFailure("executable not found".to_string()));
}

#[test]
fn failed_listing_carries_arguments_and_code() {
    let fetcher = |_args: Vec<String>| FetchOutcome::Failed(Some(2));
    let mut ex = Executor::new(ok_runner, fetcher);
    let err = Info::all(&mut ex, Location::Local).unwrap_err();
    match err {
        LxdError::CommandFailure { args, code } => {
            assert_eq!(args, strs(&["list", "--format", "json"]));
            assert_eq!(code, Some(2));
        }
        other => panic!("expected a command failure, got {:?}", other),
    }
}

#[test]
fn image_all_issues_image_listing() {
    let fetcher =
        |_args: Vec<String>| FetchOutcome::Parsed(Json::Arr(vec![sample_image().to_json()]));
    let mut ex = Executor::new(ok_runner, fetcher);
    let list = Image::all(&mut ex, Location::Local).unwrap();
    assert_eq!(list, vec![sample_image()]);
    assert_eq!(
        ex.history(),
        &vec![strs(&["image", "list", "--format", "json"])]
    );
}

#[test]
fn image_new_scopes_by_name_without_anchor() {
    let fetcher =
        |_args: Vec<String>| FetchOutcome::Parsed(Json::Arr(vec![sample_image().to_json()]));
    let mut ex = Executor::new(ok_runner, fetcher);
    let img = Image::new(&mut ex, Location::Remote("r".to_string()), "base-x").unwrap();
    assert_eq!(img, sample_image());
    assert_eq!(
        ex.history(),
        &vec![strs(&["image", "list", "r:", "base-x", "--format", "json"])]
    );
}

#[test]
fn image_new_with_no_match_yields_not_found() {
    let fetcher = |_args: Vec<String>| FetchOutcome::Parsed(Json::Arr(Vec::new()));
    let mut ex = Executor::new(ok_runner, fetcher);
    let err = Image::new(&mut ex, Location::Local, "missing").unwrap_err();
    assert_eq!(err, LxdError::NotFound("missing".to_string()));
}
