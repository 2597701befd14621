//! Read-only structured views of instance state, fetched from the listing
//! command's JSON output. Fetched once, then immutable; fetch again to
//! observe changes.
//!
//! A map-shaped field holds its JSON object's entries as a key-value
//! sequence in encounter order. The external tool emits each key at most
//! once; the codecs preserve the sequence as given, and object lookup takes
//! the first entry should a key repeat.

use vstd::prelude::*;

use crate::cmd::{fetch_checked, fetch_result_matches, judged_fetch, CmdOutcome, Executor, FetchOutcome};
use crate::commands;
use crate::error::LxdError;
use crate::json::{
    get_bool, get_map_map, get_num_map, get_str, get_str_list, get_str_map, get_usize,
    jentries_view, jobj_get, jsons_view, json_view, lemma_jentries_view_len, lemma_jobj_get_at,
    lemma_jsons_view_len, lemma_map_map_round, lemma_num_map_round, lemma_str_list_round,
    lemma_str_map_round, map_map_jv, map_map_to_json, num_map_jv, num_map_to_json, obj_get,
    req_bool, req_map_map, req_num_map, req_str, req_str_list, req_str_map, req_usize,
    str_list_jv, str_list_to_json, str_map_jv, str_map_to_json, Json, JsonV,
};
use crate::location::Location;

verus! {

/// Description of one snapshot, as the listing reports it.
#[derive(Debug, Clone, PartialEq, Eq)]
pub struct Snapshot {
    pub architecture: String,
    pub config: Vec<(String, String)>,
    pub created_at: String,
    pub ephemeral: bool,
    pub expanded_config: Vec<(String, String)>,
    pub expanded_devices: Vec<(String, Vec<(String, String)>)>,
    pub last_used_at: String,
    pub name: String,
    pub profiles: Vec<String>,
    pub stateful: bool,
}

/// View of a [`Snapshot`] description.
#[verifier::ext_equal]
pub struct SnapshotV {
    pub architecture: Seq<char>,
    pub config: Seq<(Seq<char>, Seq<char>)>,
    pub created_at: Seq<char>,
    pub ephemeral: bool,
    pub expanded_config: Seq<(Seq<char>, Seq<char>)>,
    pub expanded_devices: Seq<(Seq<char>, Seq<(Seq<char>, Seq<char>)>)>,
    pub last_used_at: Seq<char>,
    pub name: Seq<char>,
    pub profiles: Seq<Seq<char>>,
    pub stateful: bool,
}

impl View for Snapshot {
    type V = SnapshotV;

    open spec fn view(&self) -> SnapshotV {
        SnapshotV {
            architecture: self.architecture@,
            config: self.config.deep_view(),
            created_at: self.created_at@,
            ephemeral: self.ephemeral,
            expanded_config: self.expanded_config.deep_view(),
            expanded_devices: self.expanded_devices.deep_view(),
            last_used_at: self.last_used_at@,
            name: self.name@,
            profiles: self.profiles.deep_view(),
            stateful: self.stateful,
        }
    }
}

impl DeepView for Snapshot {
    type V = SnapshotV;

    open spec fn deep_view(&self) -> SnapshotV {
        self@
    }
}

/// Runtime state of an instance, as the listing reports it.
#[derive(Debug, Clone, PartialEq, Eq)]
pub struct State {
    pub status: String,
    pub status_code: usize,
    pub memory: Vec<(String, usize)>,
    pub pid: usize,
    pub processes: usize,
    pub cpu: Vec<(String, usize)>,
}

/// View of a [`State`].
#[verifier::ext_equal]
pub struct StateV {
    pub status: Seq<char>,
    pub status_code: usize,
    pub memory: Seq<(Seq<char>, usize)>,
    pub pid: usize,
    pub processes: usize,
    pub cpu: Seq<(Seq<char>, usize)>,
}

impl View for State {
    type V = StateV;

    open spec fn view(&self) -> StateV {
        StateV {
            status: self.status@,
            status_code: self.status_code,
            memory: self.memory.deep_view(),
            pid: self.pid,
            processes: self.processes,
            cpu: self.cpu.deep_view(),
        }
    }
}

impl DeepView for State {
    type V = StateV;

    open spec fn deep_view(&self) -> StateV {
        self@
    }
}

/// Configuration and (optionally) runtime state of one instance.
#[derive(Debug, Clone, PartialEq, Eq)]
pub struct Info {
    pub architecture: String,
    pub config: Vec<(String, String)>,
    pub devices: Vec<(String, Vec<(String, String)>)>,
    pub ephemeral: bool,
    pub profiles: Vec<String>,
    pub created_at: String,
    pub expanded_config: Vec<(String, String)>,
    pub expanded_devices: Vec<(String, Vec<(String, String)>)>,
    pub name: String,
    pub stateful: bool,
    pub status: String,
    pub status_code: usize,
    pub last_used_at: String,
    pub state: Option<State>,
    pub snapshots: Option<Vec<Snapshot>>,
}

/// View of an [`Info`] record.
#[verifier::ext_equal]
pub struct InfoV {
    pub architecture: Seq<char>,
    pub config: Seq<(Seq<char>, Seq<char>)>,
    pub devices: Seq<(Seq<char>, Seq<(Seq<char>, Seq<char>)>)>,
    pub ephemeral: bool,
    pub profiles: Seq<Seq<char>>,
    pub created_at: Seq<char>,
    pub expanded_config: Seq<(Seq<char>, Seq<char>)>,
    pub expanded_devices: Seq<(Seq<char>, Seq<(Seq<char>, Seq<char>)>)>,
    pub name: Seq<char>,
    pub stateful: bool,
    pub status: Seq<char>,
    pub status_code: usize,
    pub last_used_at: Seq<char>,
    pub state: Option<StateV>,
    pub snapshots: Option<Seq<SnapshotV>>,
}

impl View for Info {
    type V = InfoV;

    open spec fn view(&self) -> InfoV {
        InfoV {
            architecture: self.architecture@,
            config: self.config.deep_view(),
            devices: self.devices.deep_view(),
            ephemeral: self.ephemeral,
            profiles: self.profiles.deep_view(),
            created_at: self.created_at@,
            expanded_config: self.expanded_config.deep_view(),
            expanded_devices: self.expanded_devices.deep_view(),
            name: self.name@,
            stateful: self.stateful,
            status: self.status@,
            status_code: self.status_code,
            last_used_at: self.last_used_at@,
            state: self.state.deep_view(),
            snapshots: self.snapshots.deep_view(),
        }
    }
}

impl DeepView for Info {
    type V = InfoV;

    open spec fn deep_view(&self) -> InfoV {
        self@
    }
}

/// The entries of a snapshot description's JSON object, in canonical order.
pub open spec fn snapshot_entries(v: SnapshotV) -> Seq<(Seq<char>, JsonV)> {
    seq![
        ("architecture"@, JsonV::Str(v.architecture)),
        ("config"@, str_map_jv(v.config)),
        ("created_at"@, JsonV::Str(v.created_at)),
        ("ephemeral"@, JsonV::Bool(v.ephemeral)),
        ("expanded_config"@, str_map_jv(v.expanded_config)),
        ("expanded_devices"@, map_map_jv(v.expanded_devices)),
        ("last_used_at"@, JsonV::Str(v.last_used_at)),
        ("name"@, JsonV::Str(v.name)),
        ("profiles"@, str_list_jv(v.profiles)),
        ("stateful"@, JsonV::Bool(v.stateful)),
    ]
}

/// A snapshot description as a JSON value.
pub open spec fn snapshot_to_jsonv(v: SnapshotV) -> JsonV {
    JsonV::Obj(snapshot_entries(v))
}

/// Decode a snapshot description from a JSON value.
pub open spec fn jsonv_to_snapshot(j: JsonV) -> Option<SnapshotV> {
    match j {
        JsonV::Obj(es) => {
            if req_str(es, "architecture"@) is Some && req_str_map(es, "config"@) is Some
                && req_str(es, "created_at"@) is Some && req_bool(es, "ephemeral"@) is Some
                && req_str_map(es, "expanded_config"@) is Some && req_map_map(
                es,
                "expanded_devices"@,
            ) is Some && req_str(es, "last_used_at"@) is Some && req_str(es, "name"@) is Some
                && req_str_list(es, "profiles"@) is Some && req_bool(es, "stateful"@) is Some {
                Some(
                    SnapshotV {
                        architecture: req_str(es, "architecture"@).unwrap(),
                        config: req_str_map(es, "config"@).unwrap(),
                        created_at: req_str(es, "created_at"@).unwrap(),
                        ephemeral: req_bool(es, "ephemeral"@).unwrap(),
                        expanded_config: req_str_map(es, "expanded_config"@).unwrap(),
                        expanded_devices: req_map_map(es, "expanded_devices"@).unwrap(),
                        last_used_at: req_str(es, "last_used_at"@).unwrap(),
                        name: req_str(es, "name"@).unwrap(),
                        profiles: req_str_list(es, "profiles"@).unwrap(),
                        stateful: req_bool(es, "stateful"@).unwrap(),
                    },
                )
            } else {
                None
            }
        },
        _ => None,
    }
}

/// The entries of a state's JSON object, in canonical order.
pub open spec fn state_entries(v: StateV) -> Seq<(Seq<char>, JsonV)> {
    seq![
        ("status"@, JsonV::Str(v.status)),
        ("status_code"@, JsonV::Num(v.status_code as u64)),
        ("memory"@, num_map_jv(v.memory)),
        ("pid"@, JsonV::Num(v.pid as u64)),
        ("processes"@, JsonV::Num(v.processes as u64)),
        ("cpu"@, num_map_jv(v.cpu)),
    ]
}

/// A state as a JSON value.
pub open spec fn state_to_jsonv(v: StateV) -> JsonV {
    JsonV::Obj(state_entries(v))
}

/// Decode a state from a JSON value.
pub open spec fn jsonv_to_state(j: JsonV) -> Option<StateV> {
    match j {
        JsonV::Obj(es) => {
            if req_str(es, "status"@) is Some && req_usize(es, "status_code"@) is Some
                && req_num_map(es, "memory"@) is Some && req_usize(es, "pid"@) is Some
                && req_usize(es, "processes"@) is Some && req_num_map(es, "cpu"@) is Some {
                Some(
                    StateV {
                        status: req_str(es, "status"@).unwrap(),
                        status_code: req_usize(es, "status_code"@).unwrap(),
                        memory: req_num_map(es, "memory"@).unwrap(),
                        pid: req_usize(es, "pid"@).unwrap(),
                        processes: req_usize(es, "processes"@).unwrap(),
                        cpu: req_num_map(es, "cpu"@).unwrap(),
                    },
                )
            } else {
                None
            }
        },
        _ => None,
    }
}

/// The optional state nested in an instance record: absent or null means no
/// state was requested; anything else must decode as a state.
pub open spec fn opt_state(es: Seq<(Seq<char>, JsonV)>) -> Option<Option<StateV>> {
    match jobj_get(es, "state"@) {
        None => Some(None),
        Some(JsonV::Null) => Some(None),
        Some(v) => match jsonv_to_state(v) {
            Some(st) => Some(Some(st)),
            None => None,
        },
    }
}

/// An array of snapshot descriptions.
pub open spec fn items_to_snapshots(items: Seq<JsonV>) -> Option<Seq<SnapshotV>> {
    if forall|i: int|
        0 <= i < items.len() ==> (#[trigger] jsonv_to_snapshot(items[i])) is Some {
        Some(items.map_values(|x: JsonV| jsonv_to_snapshot(x).unwrap()))
    } else {
        None
    }
}

/// The optional snapshot list nested in an instance record: absent or null
/// means it was not requested; anything else must be an array of snapshot
/// descriptions.
pub open spec fn opt_snapshots(es: Seq<(Seq<char>, JsonV)>) -> Option<Option<Seq<SnapshotV>>> {
    match jobj_get(es, "snapshots"@) {
        None => Some(None),
        Some(JsonV::Null) => Some(None),
        Some(JsonV::Arr(items)) => match items_to_snapshots(items) {
            Some(l) => Some(Some(l)),
            None => None,
        },
        Some(_) => None,
    }
}

/// A sequence of snapshot descriptions as a JSON array.
pub open spec fn snapshots_jv(l: Seq<SnapshotV>) -> JsonV {
    JsonV::Arr(l.map_values(|s: SnapshotV| snapshot_to_jsonv(s)))
}

/// The entries of an instance record's JSON object, in canonical order.
pub open spec fn info_entries(v: InfoV) -> Seq<(Seq<char>, JsonV)> {
    seq![
        ("architecture"@, JsonV::Str(v.architecture)),
        ("config"@, str_map_jv(v.config)),
        ("devices"@, map_map_jv(v.devices)),
        ("ephemeral"@, JsonV::Bool(v.ephemeral)),
        ("profiles"@, str_list_jv(v.profiles)),
        ("created_at"@, JsonV::Str(v.created_at)),
        ("expanded_config"@, str_map_jv(v.expanded_config)),
        ("expanded_devices"@, map_map_jv(v.expanded_devices)),
        ("name"@, JsonV::Str(v.name)),
        ("stateful"@, JsonV::Bool(v.stateful)),
        ("status"@, JsonV::Str(v.status)),
        ("status_code"@, JsonV::Num(v.status_code as u64)),
        ("last_used_at"@, JsonV::Str(v.last_used_at)),
        (
            "state"@,
            match v.state {
                Some(st) => state_to_jsonv(st),
                None => JsonV::Null,
            },
        ),
        (
            "snapshots"@,
            match v.snapshots {
                Some(l) => snapshots_jv(l),
                None => JsonV::Null,
            },
        ),
    ]
}

/// An instance record as a JSON value.
pub open spec fn info_to_jsonv(v: InfoV) -> JsonV {
    JsonV::Obj(info_entries(v))
}

/// Decode an instance record from a JSON value.
pub open spec fn jsonv_to_info(j: JsonV) -> Option<InfoV> {
    match j {
        JsonV::Obj(es) => {
            if req_str(es, "architecture"@) is Some && req_str_map(es, "config"@) is Some
                && req_map_map(es, "devices"@) is Some && req_bool(es, "ephemeral"@) is Some
                && req_str_list(es, "profiles"@) is Some && req_str(es, "created_at"@) is Some
                && req_str_map(es, "expanded_config"@) is Some && req_map_map(
                es,
                "expanded_devices"@,
            ) is Some && req_str(es, "name"@) is Some && req_bool(es, "stateful"@) is Some
                && req_str(es, "status"@) is Some && req_usize(es, "status_code"@) is Some
                && req_str(es, "last_used_at"@) is Some && opt_state(es) is Some && opt_snapshots(
                es,
            ) is Some {
                Some(
                    InfoV {
                        architecture: req_str(es, "architecture"@).unwrap(),
                        config: req_str_map(es, "config"@).unwrap(),
                        devices: req_map_map(es, "devices"@).unwrap(),
                        ephemeral: req_bool(es, "ephemeral"@).unwrap(),
                        profiles: req_str_list(es, "profiles"@).unwrap(),
                        created_at: req_str(es, "created_at"@).unwrap(),
                        expanded_config: req_str_map(es, "expanded_config"@).unwrap(),
                        expanded_devices: req_map_map(es, "expanded_devices"@).unwrap(),
                        name: req_str(es, "name"@).unwrap(),
                        stateful: req_bool(es, "stateful"@).unwrap(),
                        status: req_str(es, "status"@).unwrap(),
                        status_code: req_usize(es, "status_code"@).unwrap(),
                        last_used_at: req_str(es, "last_used_at"@).unwrap(),
                        state: opt_state(es).unwrap(),
                        snapshots: opt_snapshots(es).unwrap(),
                    },
                )
            } else {
                None
            }
        },
        _ => None,
    }
}

impl State {
    /// Decode a state from a JSON value.
    pub fn from_json(j: &Json) -> (r: Option<State>)
        ensures
            (r is Some) == (jsonv_to_state(j@) is Some),
            r matches Some(v) ==> jsonv_to_state(j@) == Some(v@),
    {
        let es = match j {
            Json::Obj(es) => es,
            _ => {
                return None;
            },
        };
        let status = match get_str(es, "status") {
            Some(x) => x,
            None => {
                return None;
            },
        };
        let status_code = match get_usize(es, "status_code") {
            Some(x) => x,
            None => {
                return None;
            },
        };
        let memory = match get_num_map(es, "memory") {
            Some(x) => x,
            None => {
                return None;
            },
        };
        let pid = match get_usize(es, "pid") {
            Some(x) => x,
            None => {
                return None;
            },
        };
        let processes = match get_usize(es, "processes") {
            Some(x) => x,
            None => {
                return None;
            },
        };
        let cpu = match get_num_map(es, "cpu") {
            Some(x) => x,
            None => {
                return None;
            },
        };
        Some(State { status, status_code, memory, pid, processes, cpu })
    }

    /// Encode the state back to its JSON shape.
    pub fn to_json(&self) -> (r: Json)
        ensures
            r@ == state_to_jsonv(self@),
    {
        let mut es: Vec<(String, Json)> = Vec::new();
        es.push(("status".to_owned(), Json::Str(self.status.clone())));
        es.push(("status_code".to_owned(), Json::Num(self.status_code as u64)));
        es.push(("memory".to_owned(), num_map_to_json(&self.memory)));
        es.push(("pid".to_owned(), Json::Num(self.pid as u64)));
        es.push(("processes".to_owned(), Json::Num(self.processes as u64)));
        es.push(("cpu".to_owned(), num_map_to_json(&self.cpu)));
        proof {
            lemma_jentries_view_len(es@);
            assert(jentries_view(es@) =~~= state_entries(self@));
        }
        Json::Obj(es)
    }
}

/// Law: a state record, encoded to its JSON shape, decodes back to the same
/// value, field for field.
pub proof fn lemma_state_round_trip(v: StateV)
    ensures
        jsonv_to_state(state_to_jsonv(v)) == Some(v),
{
    reveal_strlit("status");
    reveal_strlit("status_code");
    reveal_strlit("memory");
    reveal_strlit("pid");
    reveal_strlit("processes");
    reveal_strlit("cpu");
    assert("status"@.len() == 6 && "status"@[0] == 's');
    assert("status_code"@.len() == 11 && "status_code"@[0] == 's');
    assert("memory"@.len() == 6 && "memory"@[0] == 'm');
    assert("pid"@.len() == 3 && "pid"@[0] == 'p');
    assert("processes"@.len() == 9 && "processes"@[0] == 'p');
    assert("cpu"@.len() == 3 && "cpu"@[0] == 'c');
    let es = state_entries(v);
    lemma_jobj_get_at(es, "status"@, 0);
    lemma_jobj_get_at(es, "status_code"@, 1);
    lemma_jobj_get_at(es, "memory"@, 2);
    lemma_jobj_get_at(es, "pid"@, 3);
    lemma_jobj_get_at(es, "processes"@, 4);
    lemma_jobj_get_at(es, "cpu"@, 5);
    lemma_num_map_round(v.memory);
    lemma_num_map_round(v.cpu);
    assert(jsonv_to_state(state_to_jsonv(v)) =~~= Some(v));
}

impl Snapshot {
    /// Decode a snapshot description from a JSON value.
    pub fn from_json(j: &Json) -> (r: Option<Snapshot>)
        ensures
            (r is Some) == (jsonv_to_snapshot(j@) is Some),
            r matches Some(v) ==> jsonv_to_snapshot(j@) == Some(v@),
    {
        let es = match j {
            Json::Obj(es) => es,
            _ => {
                return None;
            },
        };
        let architecture = match get_str(es, "architecture") {
            Some(x) => x,
            None => {
                return None;
            },
        };
        let config = match get_str_map(es, "config") {
            Some(x) => x,
            None => {
                return None;
            },
        };
        let created_at = match get_str(es, "created_at") {
            Some(x) => x,
            None => {
                return None;
            },
        };
        let ephemeral = match get_bool(es, "ephemeral") {
            Some(x) => x,
            None => {
                return None;
            },
        };
        let expanded_config = match get_str_map(es, "expanded_config") {
            Some(x) => x,
            None => {
                return None;
            },
        };
        let expanded_devices = match get_map_map(es, "expanded_devices") {
            Some(x) => x,
            None => {
                return None;
            },
        };
        let last_used_at = match get_str(es, "last_used_at") {
            Some(x) => x,
            None => {
                return None;
            },
        };
        let name = match get_str(es, "name") {
            Some(x) => x,
            None => {
                return None;
            },
        };
        let profiles = match get_str_list(es, "profiles") {
            Some(x) => x,
            None => {
                return None;
            },
        };
        let stateful = match get_bool(es, "stateful") {
            Some(x) => x,
            None => {
                return None;
            },
        };
        Some(
            Snapshot {
                architecture,
                config,
                created_at,
                ephemeral,
                expanded_config,
                expanded_devices,
                last_used_at,
                name,
                profiles,
                stateful,
            },
        )
    }

    /// Encode the snapshot description back to its JSON shape.
    pub fn to_json(&self) -> (r: Json)
        ensures
            r@ == snapshot_to_jsonv(self@),
    {
        let mut es: Vec<(String, Json)> = Vec::new();
        es.push(("architecture".to_owned(), Json::Str(self.architecture.clone())));
        es.push(("config".to_owned(), str_map_to_json(&self.config)));
        es.push(("created_at".to_owned(), Json::Str(self.created_at.clone())));
        es.push(("ephemeral".to_owned(), Json::Bool(self.ephemeral)));
        es.push(("expanded_config".to_owned(), str_map_to_json(&self.expanded_config)));
        es.push(("expanded_devices".to_owned(), map_map_to_json(&self.expanded_devices)));
        es.push(("last_used_at".to_owned(), Json::Str(self.last_used_at.clone())));
        es.push(("name".to_owned(), Json::Str(self.name.clone())));
        es.push(("profiles".to_owned(), str_list_to_json(&self.profiles)));
        es.push(("stateful".to_owned(), Json::Bool(self.stateful)));
        proof {
            lemma_jentries_view_len(es@);
            assert(jentries_view(es@) =~~= snapshot_entries(self@));
        }
        Json::Obj(es)
    }
}

/// Law: a snapshot description, encoded to its JSON shape, decodes back to
/// the same value, field for field.
pub proof fn lemma_snapshot_round_trip(v: SnapshotV)
    ensures
        jsonv_to_snapshot(snapshot_to_jsonv(v)) == Some(v),
{
    reveal_strlit("architecture");
    reveal_strlit("config");
    reveal_strlit("created_at");
    reveal_strlit("ephemeral");
    reveal_strlit("expanded_config");
    reveal_strlit("expanded_devices");
    reveal_strlit("last_used_at");
    reveal_strlit("name");
    reveal_strlit("profiles");
    reveal_strlit("stateful");
    assert("architecture"@.len() == 12 && "architecture"@[0] == 'a');
    assert("config"@.len() == 6 && "config"@[0] == 'c');
    assert("created_at"@.len() == 10 && "created_at"@[0] == 'c');
    assert("ephemeral"@.len() == 9 && "ephemeral"@[0] == 'e');
    assert("expanded_config"@.len() == 15 && "expanded_config"@[0] == 'e');
    assert("expanded_devices"@.len() == 16 && "expanded_devices"@[0] == 'e');
    assert("last_used_at"@.len() == 12 && "last_used_at"@[0] == 'l');
    assert("name"@.len() == 4 && "name"@[0] == 'n');
    assert("profiles"@.len() == 8 && "profiles"@[0] == 'p');
    assert("stateful"@.len() == 8 && "stateful"@[0] == 's');
    let es = snapshot_entries(v);
    lemma_jobj_get_at(es, "architecture"@, 0);
    lemma_jobj_get_at(es, "config"@, 1);
    lemma_jobj_get_at(es, "created_at"@, 2);
    lemma_jobj_get_at(es, "ephemeral"@, 3);
    lemma_jobj_get_at(es, "expanded_config"@, 4);
    lemma_jobj_get_at(es, "expanded_devices"@, 5);
    lemma_jobj_get_at(es, "last_used_at"@, 6);
    lemma_jobj_get_at(es, "name"@, 7);
    lemma_jobj_get_at(es, "profiles"@, 8);
    lemma_jobj_get_at(es, "stateful"@, 9);
    lemma_str_map_round(v.config);
    lemma_str_map_round(v.expanded_config);
    lemma_map_map_round(v.expanded_devices);
    lemma_str_list_round(v.profiles);
    assert(jsonv_to_snapshot(snapshot_to_jsonv(v)) =~~= Some(v));
}

/// Decode an array of snapshot descriptions.
fn snapshots_from_items(items: &Vec<Json>) -> (r: Option<Vec<Snapshot>>)
    ensures
        (r is Some) == (items_to_snapshots(jsons_view(items@)) is Some),
        r matches Some(l) ==> items_to_snapshots(jsons_view(items@)) == Some(l.deep_view()),
{
    let ghost iv = jsons_view(items@);
    proof {
        lemma_jsons_view_len(items@);
    }
    let mut out: Vec<Snapshot> = Vec::new();
    let mut i: usize = 0;
    while i < items.len()
        invariant
            i <= items@.len(),
            iv == jsons_view(items@),
            iv.len() == items@.len(),
            forall|t: int| 0 <= t < items@.len() ==> iv[t] == json_view(items@[t]),
            forall|t: int| 0 <= t < i ==> (#[trigger] jsonv_to_snapshot(iv[t])) is Some,
            out.deep_view().len() == i,
            forall|t: int| 0 <= t < i ==> Some(out.deep_view()[t]) == jsonv_to_snapshot(iv[t]),
        decreases items@.len() - i,
    {
        let e = &items[i];
        match Snapshot::from_json(e) {
            Some(s) => {
                push_snapshot(&mut out, s);
            },
            None => {
                proof {
                    assert(jsonv_to_snapshot(iv[i as int]) is None);
                }
                return None;
            },
        }
        i += 1;
    }
    proof {
        assert(out.deep_view() =~= iv.map_values(|x: JsonV| jsonv_to_snapshot(x).unwrap()));
    }
    Some(out)
}

/// Append one snapshot description.
fn push_snapshot(v: &mut Vec<Snapshot>, s: Snapshot)
    ensures
        final(v).deep_view() == old(v).deep_view().push(s@),
{
    let ghost sv = s@;
    v.push(s);
    proof {
        assert(v.deep_view() =~~= old(v).deep_view().push(sv));
    }
}

/// Encode a sequence of snapshot descriptions as a JSON array.
fn snapshots_to_json(l: &Vec<Snapshot>) -> (r: Json)
    ensures
        r@ == snapshots_jv(l.deep_view()),
{
    let mut items: Vec<Json> = Vec::new();
    let mut i: usize = 0;
    while i < l.len()
        invariant
            i <= l@.len(),
            items@.len() == i,
            forall|t: int| 0 <= t < i ==> json_view(#[trigger] items@[t]) == snapshot_to_jsonv(
                l.deep_view()[t],
            ),
        decreases l@.len() - i,
    {
        items.push(l[i].to_json());
        i += 1;
    }
    proof {
        lemma_jsons_view_len(items@);
        assert(jsons_view(items@) =~= l.deep_view().map_values(
            |s: SnapshotV| snapshot_to_jsonv(s),
        ));
    }
    Json::Arr(items)
}

/// A whole listing: a JSON array of instance records.
pub open spec fn jsonv_to_info_list(j: JsonV) -> Option<Seq<InfoV>> {
    match j {
        JsonV::Arr(items) => {
            if forall|i: int|
                0 <= i < items.len() ==> (#[trigger] jsonv_to_info(items[i])) is Some {
                Some(items.map_values(|x: JsonV| jsonv_to_info(x).unwrap()))
            } else {
                None
            }
        },
        _ => None,
    }
}

/// How the judged result of the whole-listing fetch relates to the outcome
/// the capturing run function produced: the decoded records for a tree of
/// the expected shape, the parse-failure error for any other tree or for
/// unparsable output, and otherwise the one error the outcome prescribes.
pub open spec fn listing_result_matches(
    cmd: Seq<Seq<char>>,
    out: FetchOutcome,
    r: Result<Vec<Info>, LxdError>,
) -> bool {
    match out {
        FetchOutcome::Parsed(j) => match jsonv_to_info_list(j@) {
            Some(l) => (r matches Ok(got) && got.deep_view() == l),
            None => (r matches Err(e) && e is ParseFailure),
        },
        FetchOutcome::Unparsable(m) => (r matches Err(LxdError::ParseFailure(s)) && s@ == m@),
        FetchOutcome::Failed(code) => (r matches Err(LxdError::CommandFailure { args: a, code: c })
            && a.deep_view() == cmd && c == code),
        FetchOutcome::SpawnError(m) => (r matches Err(LxdError::SpawnFailure(s)) && s@ == m@),
    }
}

/// The result was judged, as `listing_result_matches` states, from an
/// outcome the capturing run function produced for an invocation carrying
/// exactly these tokens.
pub open spec fn judged_listing<G: Fn(Vec<String>) -> FetchOutcome>(
    g: G,
    cmd: Seq<Seq<char>>,
    r: Result<Vec<Info>, LxdError>,
) -> bool {
    exists|sent: Vec<String>, out: FetchOutcome|
        sent.deep_view() == cmd && #[trigger] call_ensures(g, (sent,), out)
            && listing_result_matches(cmd, out, r)
}

/// Like `listing_result_matches`, for the single-name fetch: the sole
/// record when the tree decodes to exactly one, not-found naming `name` at
/// zero or several, the parse-failure error for a malformed tree.
pub open spec fn single_result_matches(
    cmd: Seq<Seq<char>>,
    name: Seq<char>,
    out: FetchOutcome,
    r: Result<Info, LxdError>,
) -> bool {
    match out {
        FetchOutcome::Parsed(j) => match jsonv_to_info_list(j@) {
            Some(l) => if l.len() == 1 {
                r matches Ok(v) && v@ == l[0]
            } else {
                r matches Err(LxdError::NotFound(s)) && s@ == name
            },
            None => (r matches Err(e) && e is ParseFailure),
        },
        FetchOutcome::Unparsable(m) => (r matches Err(LxdError::ParseFailure(s)) && s@ == m@),
        FetchOutcome::Failed(code) => (r matches Err(LxdError::CommandFailure { args: a, code: c })
            && a.deep_view() == cmd && c == code),
        FetchOutcome::SpawnError(m) => (r matches Err(LxdError::SpawnFailure(s)) && s@ == m@),
    }
}

/// The result was judged, as `single_result_matches` states, from an
/// outcome the capturing run function produced for an invocation carrying
/// exactly these tokens.
pub open spec fn judged_single<G: Fn(Vec<String>) -> FetchOutcome>(
    g: G,
    cmd: Seq<Seq<char>>,
    name: Seq<char>,
    r: Result<Info, LxdError>,
) -> bool {
    exists|sent: Vec<String>, out: FetchOutcome|
        sent.deep_view() == cmd && #[trigger] call_ensures(g, (sent,), out)
            && single_result_matches(cmd, name, out, r)
}

/// A fetched-and-judged outcome together with the listing judgment of its
/// tree yields a judged listing result.
proof fn lemma_listing_from_fetch<G: Fn(Vec<String>) -> FetchOutcome>(
    g: G,
    cmd: Seq<Seq<char>>,
    fr: Result<Json, LxdError>,
    r: Result<Vec<Info>, LxdError>,
)
    requires
        judged_fetch(g, cmd, fr),
        match fr {
            Ok(j) => (r is Ok) == (jsonv_to_info_list(j@) is Some) && (r matches Ok(l)
                ==> jsonv_to_info_list(j@) == Some(l.deep_view())) && (r matches Err(e)
                ==> e is ParseFailure),
            Err(e) => r == Err::<Vec<Info>, LxdError>(e),
        },
    ensures
        judged_listing(g, cmd, r),
{
    let (sent, out) = choose|sent: Vec<String>, out: FetchOutcome|
        sent.deep_view() == cmd && #[trigger] call_ensures(g, (sent,), out)
            && fetch_result_matches(cmd, out, fr);
    assert(listing_result_matches(cmd, out, r));
    assert(sent.deep_view() == cmd && call_ensures(g, (sent,), out) && listing_result_matches(
        cmd,
        out,
        r,
    ));
}

/// A fetched-and-judged outcome together with the single-record judgment of
/// its tree yields a judged single-fetch result.
proof fn lemma_single_from_fetch<G: Fn(Vec<String>) -> FetchOutcome>(
    g: G,
    cmd: Seq<Seq<char>>,
    name: Seq<char>,
    fr: Result<Json, LxdError>,
    r: Result<Info, LxdError>,
)
    requires
        judged_fetch(g, cmd, fr),
        match fr {
            Ok(j) => match jsonv_to_info_list(j@) {
                None => (r matches Err(e) && e is ParseFailure),
                Some(l) => if l.len() == 1 {
                    r matches Ok(v) && v@ == l[0]
                } else {
                    r matches Err(LxdError::NotFound(s)) && s@ == name
                },
            },
            Err(e) => r == Err::<Info, LxdError>(e),
        },
    ensures
        judged_single(g, cmd, name, r),
{
    let (sent, out) = choose|sent: Vec<String>, out: FetchOutcome|
        sent.deep_view() == cmd && #[trigger] call_ensures(g, (sent,), out)
            && fetch_result_matches(cmd, out, fr);
    assert(single_result_matches(cmd, name, out, r));
    assert(sent.deep_view() == cmd && call_ensures(g, (sent,), out) && single_result_matches(
        cmd,
        name,
        out,
        r,
    ));
}

impl Info {
    /// Decode an instance record from a JSON value.
    pub fn from_json(j: &Json) -> (r: Option<Info>)
        ensures
            (r is Some) == (jsonv_to_info(j@) is Some),
            r matches Some(v) ==> jsonv_to_info(j@) == Some(v@),
    {
        let es = match j {
            Json::Obj(es) => es,
            _ => {
                return None;
            },
        };
        let architecture = match get_str(es, "architecture") {
            Some(x) => x,
            None => {
                return None;
            },
        };
        let config = match get_str_map(es, "config") {
            Some(x) => x,
            None => {
                return None;
            },
        };
        let devices = match get_map_map(es, "devices") {
            Some(x) => x,
            None => {
                return None;
            },
        };
        let ephemeral = match get_bool(es, "ephemeral") {
            Some(x) => x,
            None => {
                return None;
            },
        };
        let profiles = match get_str_list(es, "profiles") {
            Some(x) => x,
            None => {
                return None;
            },
        };
        let created_at = match get_str(es, "created_at") {
            Some(x) => x,
            None => {
                return None;
            },
        };
        let expanded_config = match get_str_map(es, "expanded_config") {
            Some(x) => x,
            None => {
                return None;
            },
        };
        let expanded_devices = match get_map_map(es, "expanded_devices") {
            Some(x) => x,
            None => {
                return None;
            },
        };
        let name = match get_str(es, "name") {
            Some(x) => x,
            None => {
                return None;
            },
        };
        let stateful = match get_bool(es, "stateful") {
            Some(x) => x,
            None => {
                return None;
            },
        };
        let status = match get_str(es, "status") {
            Some(x) => x,
            None => {
                return None;
            },
        };
        let status_code = match get_usize(es, "status_code") {
            Some(x) => x,
            None => {
                return None;
            },
        };
        let last_used_at = match get_str(es, "last_used_at") {
            Some(x) => x,
            None => {
                return None;
            },
        };
        let state: Option<State> = match obj_get(es, "state") {
            None => None,
            Some(Json::Null) => None,
            Some(v) => match State::from_json(v) {
                Some(st) => Some(st),
                None => {
                    return None;
                },
            },
        };
        let snapshots: Option<Vec<Snapshot>> = match obj_get(es, "snapshots") {
            None => None,
            Some(Json::Null) => None,
            Some(Json::Arr(items)) => match snapshots_from_items(items) {
                Some(l) => Some(l),
                None => {
                    return None;
                },
            },
            Some(_) => {
                return None;
            },
        };
        Some(
            Info {
                architecture,
                config,
                devices,
                ephemeral,
                profiles,
                created_at,
                expanded_config,
                expanded_devices,
                name,
                stateful,
                status,
                status_code,
                last_used_at,
                state,
                snapshots,
            },
        )
    }

    /// Encode the record back to its JSON shape.
    pub fn to_json(&self) -> (r: Json)
        ensures
            r@ == info_to_jsonv(self@),
    {
        let mut es: Vec<(String, Json)> = Vec::new();
        es.push(("architecture".to_owned(), Json::Str(self.architecture.clone())));
        es.push(("config".to_owned(), str_map_to_json(&self.config)));
        es.push(("devices".to_owned(), map_map_to_json(&self.devices)));
        es.push(("ephemeral".to_owned(), Json::Bool(self.ephemeral)));
        es.push(("profiles".to_owned(), str_list_to_json(&self.profiles)));
        es.push(("created_at".to_owned(), Json::Str(self.created_at.clone())));
        es.push(("expanded_config".to_owned(), str_map_to_json(&self.expanded_config)));
        es.push(("expanded_devices".to_owned(), map_map_to_json(&self.expanded_devices)));
        es.push(("name".to_owned(), Json::Str(self.name.clone())));
        es.push(("stateful".to_owned(), Json::Bool(self.stateful)));
        es.push(("status".to_owned(), Json::Str(self.status.clone())));
        es.push(("status_code".to_owned(), Json::Num(self.status_code as u64)));
        es.push(("last_used_at".to_owned(), Json::Str(self.last_used_at.clone())));
        let state_json = match &self.state {
            Some(st) => st.to_json(),
            None => Json::Null,
        };
        es.push(("state".to_owned(), state_json));
        let snapshots_json = match &self.snapshots {
            Some(l) => snapshots_to_json(l),
            None => Json::Null,
        };
        es.push(("snapshots".to_owned(), snapshots_json));
        proof {
            lemma_jentries_view_len(es@);
            assert(jentries_view(es@) =~~= info_entries(self@));
        }
        Json::Obj(es)
    }

    /// Decode a whole listing: a JSON array of instance records.
    pub fn list_from_json(j: &Json) -> (r: Option<Vec<Info>>)
        ensures
            (r is Some) == (jsonv_to_info_list(j@) is Some),
            r matches Some(l) ==> jsonv_to_info_list(j@) == Some(l.deep_view()),
    {
        let items = match j {
            Json::Arr(items) => items,
            _ => {
                return None;
            },
        };
        let ghost iv = jsons_view(items@);
        proof {
            lemma_jsons_view_len(items@);
            assert(j@ == JsonV::Arr(iv));
        }
        let mut out: Vec<Info> = Vec::new();
        let mut i: usize = 0;
        while i < items.len()
            invariant
                i <= items@.len(),
                j@ == JsonV::Arr(iv),
                iv == jsons_view(items@),
                iv.len() == items@.len(),
                forall|t: int| 0 <= t < items@.len() ==> iv[t] == json_view(items@[t]),
                forall|t: int| 0 <= t < i ==> (#[trigger] jsonv_to_info(iv[t])) is Some,
                out.deep_view().len() == i,
                forall|t: int| 0 <= t < i ==> Some(out.deep_view()[t]) == jsonv_to_info(iv[t]),
            decreases items@.len() - i,
        {
            let e = &items[i];
            match Info::from_json(e) {
                Some(v) => {
                    push_info(&mut out, v);
                },
                None => {
                    proof {
                        assert(jsonv_to_info(iv[i as int]) is None);
                    }
                    return None;
                },
            }
            i += 1;
        }
        proof {
            assert(out.deep_view() =~= iv.map_values(|x: JsonV| jsonv_to_info(x).unwrap()));
        }
        Some(out)
    }

    /// Judge a fetched listing tree: the decoded records exactly when the
    /// tree is an array of instance records, and the parse-failure error
    /// otherwise — never not-found, never a silent success.
    pub fn decode_listing(j: &Json) -> (r: Result<Vec<Info>, LxdError>)
        ensures
            (r is Ok) == (jsonv_to_info_list(j@) is Some),
            r matches Ok(l) ==> jsonv_to_info_list(j@) == Some(l.deep_view()),
            r matches Err(e) ==> e is ParseFailure,
    {
        match Self::list_from_json(j) {
            Some(list) => Ok(list),
            None => {
                let msg = match j {
                    Json::Arr(_) => "a listing element is not an instance record of the expected shape",
                    _ => "listing is not a JSON array",
                };
                Err(LxdError::ParseFailure(msg.to_owned()))
            },
        }
    }

    /// Judge a single-name fetch tree: the sole record, unmodified, when the
    /// tree decodes to exactly one instance record; the not-found error
    /// carrying `name` when it decodes to zero records or to several; and
    /// the parse-failure error when it is not an array of instance records
    /// at all — never not-found for a malformed tree.
    pub fn decode_single(j: &Json, name: &str) -> (r: Result<Info, LxdError>)
        ensures
            match jsonv_to_info_list(j@) {
                None => (r matches Err(e) && e is ParseFailure),
                Some(l) => if l.len() == 1 {
                    r matches Ok(v) && v@ == l[0]
                } else {
                    r matches Err(LxdError::NotFound(s)) && s@ == name@
                },
            },
    {
        match Self::decode_listing(j) {
            Ok(list) => {
                let ghost lv = list.deep_view();
                let r = Self::select_single(list, name);
                proof {
                    assert(lv.len() == list@.len());
                    if list@.len() == 1 {
                        assert(lv[0] == list@[0]@);
                    }
                }
                r
            },
            Err(e) => Err(e),
        }
    }

    /// Fetch the records of every instance at `location`: issue the listing
    /// invocation, then judge its JSON output as `decode_listing` states —
    /// any shape other than an array of instance records is a parse failure.
    pub fn all<F, G>(ex: &mut Executor<F, G>, location: Location) -> (r: Result<
        Vec<Info>,
        LxdError,
    >) where
        F: Fn(Vec<String>) -> CmdOutcome,
        G: Fn(Vec<String>) -> FetchOutcome,

        requires
            old(ex).wf(),
        ensures
            final(ex).wf(),
            final(ex).runner_spec() == old(ex).runner_spec(),
            final(ex).fetcher_spec() == old(ex).fetcher_spec(),
            final(ex).log_view() == old(ex).log_view().push(
                commands::list_cmd(location, None),
            ),
            judged_listing(old(ex).fetcher_spec(), commands::list_cmd(location, None), r),
            r matches Err(e) ==> !(e is NotFound),
            r matches Err(LxdError::CommandFailure { args: a, .. }) ==> a.deep_view()
                == commands::list_cmd(location, None),
    {
        let args = commands::list_args(&location, None);
        let fr = fetch_checked(ex, args);
        let ghost gfr = fr;
        let r = match fr {
            Ok(j) => Self::decode_listing(&j),
            Err(e) => Err(e),
        };
        proof {
            lemma_listing_from_fetch(
                old(ex).fetcher_spec(),
                commands::list_cmd(location, None),
                gfr,
                r,
            );
        }
        r
    }

    /// Fetch the record of the one instance named `name` at `location`: list
    /// under the anchored name filter, then judge the output as
    /// `decode_single` states — the sole record, or not-found, or a parse
    /// failure.
    pub fn new<F, G>(ex: &mut Executor<F, G>, location: Location, name: &str) -> (r: Result<
        Info,
        LxdError,
    >) where
        F: Fn(Vec<String>) -> CmdOutcome,
        G: Fn(Vec<String>) -> FetchOutcome,

        requires
            old(ex).wf(),
        ensures
            final(ex).wf(),
            final(ex).runner_spec() == old(ex).runner_spec(),
            final(ex).fetcher_spec() == old(ex).fetcher_spec(),
            final(ex).log_view() == old(ex).log_view().push(
                commands::list_cmd(location, Some(name@)),
            ),
            judged_single(old(ex).fetcher_spec(), commands::list_cmd(location, Some(name@)), name@, r),
            r matches Err(LxdError::NotFound(s)) ==> s@ == name@,
            r matches Err(LxdError::CommandFailure { args: a, .. }) ==> a.deep_view()
                == commands::list_cmd(location, Some(name@)),
    {
        let args = commands::list_args(&location, Some(name));
        let fr = fetch_checked(ex, args);
        let ghost gfr = fr;
        let r = match fr {
            Ok(j) => Self::decode_single(&j, name),
            Err(e) => Err(e),
        };
        proof {
            lemma_single_from_fetch(
                old(ex).fetcher_spec(),
                commands::list_cmd(location, Some(name@)),
                name@,
                gfr,
                r,
            );
        }
        r
    }

    /// Of a fetched listing, the sole record, unmodified — or, when the name
    /// filter matched zero records or more than one, the not-found error
    /// carrying the name asked for. Neither case silently picks a record.
    pub fn select_single(list: Vec<Info>, name: &str) -> (r: Result<Info, LxdError>)
        ensures
            list@.len() == 1 ==> (r matches Ok(v) && v == list@[0]),
            list@.len() != 1 ==> (r matches Err(LxdError::NotFound(s)) && s@ == name@),
    {
        let mut list = list;
        if list.len() == 1 {
            Ok(list.remove(0))
        } else {
            Err(LxdError::NotFound(name.to_owned()))
        }
    }
}

/// Append one instance record.
fn push_info(v: &mut Vec<Info>, x: Info)
    ensures
        final(v).deep_view() == old(v).deep_view().push(x@),
{
    let ghost xv = x@;
    v.push(x);
    proof {
        assert(v.deep_view() =~~= old(v).deep_view().push(xv));
    }
}

/// Law: an instance record, encoded to its JSON shape, decodes back to the
/// same value, field for field — nested state and snapshot descriptions
/// included.
pub proof fn lemma_info_round_trip(v: InfoV)
    ensures
        jsonv_to_info(info_to_jsonv(v)) == Some(v),
{
    reveal_strlit("architecture");
    reveal_strlit("config");
    reveal_strlit("devices");
    reveal_strlit("ephemeral");
    reveal_strlit("profiles");
    reveal_strlit("created_at");
    reveal_strlit("expanded_config");
    reveal_strlit("expanded_devices");
    reveal_strlit("name");
    reveal_strlit("stateful");
    reveal_strlit("status");
    reveal_strlit("status_code");
    reveal_strlit("last_used_at");
    reveal_strlit("state");
    reveal_strlit("snapshots");
    assert("architecture"@.len() == 12 && "architecture"@[0] == 'a');
    assert("config"@.len() == 6 && "config"@[0] == 'c');
    assert("devices"@.len() == 7 && "devices"@[0] == 'd');
    assert("ephemeral"@.len() == 9 && "ephemeral"@[0] == 'e');
    assert("profiles"@.len() == 8 && "profiles"@[0] == 'p');
    assert("created_at"@.len() == 10 && "created_at"@[0] == 'c');
    assert("expanded_config"@.len() == 15 && "expanded_config"@[0] == 'e');
    assert("expanded_devices"@.len() == 16 && "expanded_devices"@[0] == 'e');
    assert("name"@.len() == 4 && "name"@[0] == 'n');
    assert("stateful"@.len() == 8 && "stateful"@[0] == 's');
    assert("status"@.len() == 6 && "status"@[0] == 's');
    assert("status_code"@.len() == 11 && "status_code"@[0] == 's');
    assert("last_used_at"@.len() == 12 && "last_used_at"@[0] == 'l');
    assert("state"@.len() == 5 && "state"@[0] == 's');
    assert("snapshots"@.len() == 9 && "snapshots"@[0] == 's');
    let es = info_entries(v);
    lemma_jobj_get_at(es, "architecture"@, 0);
    lemma_jobj_get_at(es, "config"@, 1);
    lemma_jobj_get_at(es, "devices"@, 2);
    lemma_jobj_get_at(es, "ephemeral"@, 3);
    lemma_jobj_get_at(es, "profiles"@, 4);
    lemma_jobj_get_at(es, "created_at"@, 5);
    lemma_jobj_get_at(es, "expanded_config"@, 6);
    lemma_jobj_get_at(es, "expanded_devices"@, 7);
    lemma_jobj_get_at(es, "name"@, 8);
    lemma_jobj_get_at(es, "stateful"@, 9);
    lemma_jobj_get_at(es, "status"@, 10);
    lemma_jobj_get_at(es, "status_code"@, 11);
    lemma_jobj_get_at(es, "last_used_at"@, 12);
    lemma_jobj_get_at(es, "state"@, 13);
    lemma_jobj_get_at(es, "snapshots"@, 14);
    lemma_str_map_round(v.config);
    lemma_map_map_round(v.devices);
    lemma_str_list_round(v.profiles);
    lemma_str_map_round(v.expanded_config);
    lemma_map_map_round(v.expanded_devices);
    match v.state {
        Some(st) => {
            lemma_state_round_trip(st);
        },
        None => {},
    }
    match v.snapshots {
        Some(l) => {
            let items = l.map_values(|s: SnapshotV| snapshot_to_jsonv(s));
            assert forall|i: int| 0 <= i < items.len() implies (#[trigger] jsonv_to_snapshot(
                items[i],
            )) is Some by {
                lemma_snapshot_round_trip(l[i]);
            }
            assert forall|i: int| 0 <= i < items.len() implies jsonv_to_snapshot(
                items[i],
            ).unwrap() == l[i] by {
                lemma_snapshot_round_trip(l[i]);
            }
            assert(items.map_values(|x: JsonV| jsonv_to_snapshot(x).unwrap()) =~= l);
        },
        None => {},
    }
    assert(jsonv_to_info(info_to_jsonv(v)) =~~= Some(v));
}

} // verus!
