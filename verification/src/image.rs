//! Read-only structured views of stored image artifacts, fetched from the
//! image-listing command's JSON output.
//!
//! A map-shaped field holds its JSON object's entries as a key-value
//! sequence in encounter order. The external tool emits each key at most
//! once; the codecs preserve the sequence as given, and object lookup takes
//! the first entry should a key repeat.

use vstd::prelude::*;

use crate::cmd::{fetch_checked, fetch_result_matches, judged_fetch, CmdOutcome, Executor, FetchOutcome};
use crate::commands;
use crate::error::LxdError;
use crate::json::{
    get_bool, get_str, get_str_map, get_str_map_list, get_u64, jentries_view, jobj_get,
    jsons_view, json_view, lemma_jentries_view_len, lemma_jobj_get_at, lemma_jsons_view_len,
    lemma_str_map_list_round, lemma_str_map_round, obj_get, req_bool, req_str, req_str_map,
    req_str_map_list, req_u64, str_map_jv, str_map_list_jv, str_map_list_to_json,
    str_map_to_json, json_to_str_map, jv_to_str_map, Json, JsonV,
};
use crate::location::Location;

verus! {

/// Description of one stored image artifact.
#[derive(Debug, Clone, PartialEq, Eq)]
pub struct Image {
    pub auto_update: bool,
    pub properties: Vec<(String, String)>,
    pub public: bool,
    pub aliases: Vec<Vec<(String, String)>>,
    pub architecture: String,
    pub cached: bool,
    pub filename: String,
    pub fingerprint: String,
    pub size: u64,
    pub update_source: Vec<(String, String)>,
    pub created_at: String,
    pub expires_at: String,
    pub last_used_at: String,
    pub uploaded_at: String,
}

/// View of an [`Image`] record.
#[verifier::ext_equal]
pub struct ImageV {
    pub auto_update: bool,
    pub properties: Seq<(Seq<char>, Seq<char>)>,
    pub public: bool,
    pub aliases: Seq<Seq<(Seq<char>, Seq<char>)>>,
    pub architecture: Seq<char>,
    pub cached: bool,
    pub filename: Seq<char>,
    pub fingerprint: Seq<char>,
    pub size: u64,
    pub update_source: Seq<(Seq<char>, Seq<char>)>,
    pub created_at: Seq<char>,
    pub expires_at: Seq<char>,
    pub last_used_at: Seq<char>,
    pub uploaded_at: Seq<char>,
}

impl View for Image {
    type V = ImageV;

    open spec fn view(&self) -> ImageV {
        ImageV {
            auto_update: self.auto_update,
            properties: self.properties.deep_view(),
            public: self.public,
            aliases: self.aliases.deep_view(),
            architecture: self.architecture@,
            cached: self.cached,
            filename: self.filename@,
            fingerprint: self.fingerprint@,
            size: self.size,
            update_source: self.update_source.deep_view(),
            created_at: self.created_at@,
            expires_at: self.expires_at@,
            last_used_at: self.last_used_at@,
            uploaded_at: self.uploaded_at@,
        }
    }
}

impl DeepView for Image {
    type V = ImageV;

    open spec fn deep_view(&self) -> ImageV {
        self@
    }
}

/// The entries of an image record's JSON object, in canonical order.
pub open spec fn image_entries(v: ImageV) -> Seq<(Seq<char>, JsonV)> {
    seq![
        ("auto_update"@, JsonV::Bool(v.auto_update)),
        ("properties"@, str_map_jv(v.properties)),
        ("public"@, JsonV::Bool(v.public)),
        ("aliases"@, str_map_list_jv(v.aliases)),
        ("architecture"@, JsonV::Str(v.architecture)),
        ("cached"@, JsonV::Bool(v.cached)),
        ("filename"@, JsonV::Str(v.filename)),
        ("fingerprint"@, JsonV::Str(v.fingerprint)),
        ("size"@, JsonV::Num(v.size)),
        ("update_source"@, str_map_jv(v.update_source)),
        ("created_at"@, JsonV::Str(v.created_at)),
        ("expires_at"@, JsonV::Str(v.expires_at)),
        ("last_used_at"@, JsonV::Str(v.last_used_at)),
        ("uploaded_at"@, JsonV::Str(v.uploaded_at)),
    ]
}

/// An image record as a JSON value.
pub open spec fn image_to_jsonv(v: ImageV) -> JsonV {
    JsonV::Obj(image_entries(v))
}

/// The update-source map, which defaults to empty when the key is absent.
pub open spec fn opt_update_source(es: Seq<(Seq<char>, JsonV)>) -> Option<
    Seq<(Seq<char>, Seq<char>)>,
> {
    match jobj_get(es, "update_source"@) {
        None => Some(Seq::empty()),
        Some(v) => jv_to_str_map(v),
    }
}

/// Decode an image record from a JSON value.
pub open spec fn jsonv_to_image(j: JsonV) -> Option<ImageV> {
    match j {
        JsonV::Obj(es) => {
            if req_bool(es, "auto_update"@) is Some && req_str_map(es, "properties"@) is Some
                && req_bool(es, "public"@) is Some && req_str_map_list(es, "aliases"@) is Some
                && req_str(es, "architecture"@) is Some && req_bool(es, "cached"@) is Some
                && req_str(es, "filename"@) is Some && req_str(es, "fingerprint"@) is Some
                && req_u64(es, "size"@) is Some && opt_update_source(es) is Some && req_str(
                es,
                "created_at"@,
            ) is Some && req_str(es, "expires_at"@) is Some && req_str(es, "last_used_at"@)
                is Some && req_str(es, "uploaded_at"@) is Some {
                Some(
                    ImageV {
                        auto_update: req_bool(es, "auto_update"@).unwrap(),
                        properties: req_str_map(es, "properties"@).unwrap(),
                        public: req_bool(es, "public"@).unwrap(),
                        aliases: req_str_map_list(es, "aliases"@).unwrap(),
                        architecture: req_str(es, "architecture"@).unwrap(),
                        cached: req_bool(es, "cached"@).unwrap(),
                        filename: req_str(es, "filename"@).unwrap(),
                        fingerprint: req_str(es, "fingerprint"@).unwrap(),
                        size: req_u64(es, "size"@).unwrap(),
                        update_source: opt_update_source(es).unwrap(),
                        created_at: req_str(es, "created_at"@).unwrap(),
                        expires_at: req_str(es, "expires_at"@).unwrap(),
                        last_used_at: req_str(es, "last_used_at"@).unwrap(),
                        uploaded_at: req_str(es, "uploaded_at"@).unwrap(),
                    },
                )
            } else {
                None
            }
        },
        _ => None,
    }
}

/// A whole listing: a JSON array of image records.
pub open spec fn jsonv_to_image_list(j: JsonV) -> Option<Seq<ImageV>> {
    match j {
        JsonV::Arr(items) => {
            if forall|i: int|
                0 <= i < items.len() ==> (#[trigger] jsonv_to_image(items[i])) is Some {
                Some(items.map_values(|x: JsonV| jsonv_to_image(x).unwrap()))
            } else {
                None
            }
        },
        _ => None,
    }
}

/// How the judged result of the whole-listing fetch relates to the outcome
/// the capturing run function produced: the decoded records for a tree of
/// the expected shape, the parse-failure error for any other tree or for
/// unparsable output, and otherwise the one error the outcome prescribes.
pub open spec fn listing_result_matches(
    cmd: Seq<Seq<char>>,
    out: FetchOutcome,
    r: Result<Vec<Image>, LxdError>,
) -> bool {
    match out {
        FetchOutcome::Parsed(j) => match jsonv_to_image_list(j@) {
            Some(l) => (r matches Ok(got) && got.deep_view() == l),
            None => (r matches Err(e) && e is ParseFailure),
        },
        FetchOutcome::Unparsable(m) => (r matches Err(LxdError::ParseFailure(s)) && s@ == m@),
        FetchOutcome::Failed(code) => (r matches Err(LxdError::CommandFailure { args: a, code: c })
            && a.deep_view() == cmd && c == code),
        FetchOutcome::SpawnError(m) => (r matches Err(LxdError::SpawnFailure(s)) && s@ == m@),
    }
}

/// The result was judged, as `listing_result_matches` states, from an
/// outcome the capturing run function produced for an invocation carrying
/// exactly these tokens.
pub open spec fn judged_listing<G: Fn(Vec<String>) -> FetchOutcome>(
    g: G,
    cmd: Seq<Seq<char>>,
    r: Result<Vec<Image>, LxdError>,
) -> bool {
    exists|sent: Vec<String>, out: FetchOutcome|
        sent.deep_view() == cmd && #[trigger] call_ensures(g, (sent,), out)
            && listing_result_matches(cmd, out, r)
}

/// Like `listing_result_matches`, for the single-name fetch: the sole
/// record when the tree decodes to exactly one, not-found naming `name` at
/// zero or several, the parse-failure error for a malformed tree.
pub open spec fn single_result_matches(
    cmd: Seq<Seq<char>>,
    name: Seq<char>,
    out: FetchOutcome,
    r: Result<Image, LxdError>,
) -> bool {
    match out {
        FetchOutcome::Parsed(j) => match jsonv_to_image_list(j@) {
            Some(l) => if l.len() == 1 {
                r matches Ok(v) && v@ == l[0]
            } else {
                r matches Err(LxdError::NotFound(s)) && s@ == name
            },
            None => (r matches Err(e) && e is ParseFailure),
        },
        FetchOutcome::Unparsable(m) => (r matches Err(LxdError::ParseFailure(s)) && s@ == m@),
        FetchOutcome::Failed(code) => (r matches Err(LxdError::CommandFailure { args: a, code: c })
            && a.deep_view() == cmd && c == code),
        FetchOutcome::SpawnError(m) => (r matches Err(LxdError::SpawnFailure(s)) && s@ == m@),
    }
}

/// The result was judged, as `single_result_matches` states, from an
/// outcome the capturing run function produced for an invocation carrying
/// exactly these tokens.
pub open spec fn judged_single<G: Fn(Vec<String>) -> FetchOutcome>(
    g: G,
    cmd: Seq<Seq<char>>,
    name: Seq<char>,
    r: Result<Image, LxdError>,
) -> bool {
    exists|sent: Vec<String>, out: FetchOutcome|
        sent.deep_view() == cmd && #[trigger] call_ensures(g, (sent,), out)
            && single_result_matches(cmd, name, out, r)
}

/// A fetched-and-judged outcome together with the listing judgment of its
/// tree yields a judged listing result.
proof fn lemma_listing_from_fetch<G: Fn(Vec<String>) -> FetchOutcome>(
    g: G,
    cmd: Seq<Seq<char>>,
    fr: Result<Json, LxdError>,
    r: Result<Vec<Image>, LxdError>,
)
    requires
        judged_fetch(g, cmd, fr),
        match fr {
            Ok(j) => (r is Ok) == (jsonv_to_image_list(j@) is Some) && (r matches Ok(l)
                ==> jsonv_to_image_list(j@) == Some(l.deep_view())) && (r matches Err(e)
                ==> e is ParseFailure),
            Err(e) => r == Err::<Vec<Image>, LxdError>(e),
        },
    ensures
        judged_listing(g, cmd, r),
{
    let (sent, out) = choose|sent: Vec<String>, out: FetchOutcome|
        sent.deep_view() == cmd && #[trigger] call_ensures(g, (sent,), out)
            && fetch_result_matches(cmd, out, fr);
    assert(listing_result_matches(cmd, out, r));
    assert(sent.deep_view() == cmd && call_ensures(g, (sent,), out) && listing_result_matches(
        cmd,
        out,
        r,
    ));
}

/// A fetched-and-judged outcome together with the single-record judgment of
/// its tree yields a judged single-fetch result.
proof fn lemma_single_from_fetch<G: Fn(Vec<String>) -> FetchOutcome>(
    g: G,
    cmd: Seq<Seq<char>>,
    name: Seq<char>,
    fr: Result<Json, LxdError>,
    r: Result<Image, LxdError>,
)
    requires
        judged_fetch(g, cmd, fr),
        match fr {
            Ok(j) => match jsonv_to_image_list(j@) {
                None => (r matches Err(e) && e is ParseFailure),
                Some(l) => if l.len() == 1 {
                    r matches Ok(v) && v@ == l[0]
                } else {
                    r matches Err(LxdError::NotFound(s)) && s@ == name
                },
            },
            Err(e) => r == Err::<Image, LxdError>(e),
        },
    ensures
        judged_single(g, cmd, name, r),
{
    let (sent, out) = choose|sent: Vec<String>, out: FetchOutcome|
        sent.deep_view() == cmd && #[trigger] call_ensures(g, (sent,), out)
            && fetch_result_matches(cmd, out, fr);
    assert(single_result_matches(cmd, name, out, r));
    assert(sent.deep_view() == cmd && call_ensures(g, (sent,), out) && single_result_matches(
        cmd,
        name,
        out,
        r,
    ));
}

impl Image {
    /// Decode an image record from a JSON value.
    pub fn from_json(j: &Json) -> (r: Option<Image>)
        ensures
            (r is Some) == (jsonv_to_image(j@) is Some),
            r matches Some(v) ==> jsonv_to_image(j@) == Some(v@),
    {
        let es = match j {
            Json::Obj(es) => es,
            _ => {
                return None;
            },
        };
        let auto_update = match get_bool(es, "auto_update") {
            Some(x) => x,
            None => {
                return None;
            },
        };
        let properties = match get_str_map(es, "properties") {
            Some(x) => x,
            None => {
                return None;
            },
        };
        let public = match get_bool(es, "public") {
            Some(x) => x,
            None => {
                return None;
            },
        };
        let aliases = match get_str_map_list(es, "aliases") {
            Some(x) => x,
            None => {
                return None;
            },
        };
        let architecture = match get_str(es, "architecture") {
            Some(x) => x,
            None => {
                return None;
            },
        };
        let cached = match get_bool(es, "cached") {
            Some(x) => x,
            None => {
                return None;
            },
        };
        let filename = match get_str(es, "filename") {
            Some(x) => x,
            None => {
                return None;
            },
        };
        let fingerprint = match get_str(es, "fingerprint") {
            Some(x) => x,
            None => {
                return None;
            },
        };
        let size = match get_u64(es, "size") {
            Some(x) => x,
            None => {
                return None;
            },
        };
        let update_source: Vec<(String, String)> = match obj_get(es, "update_source") {
            None => {
                let empty: Vec<(String, String)> = Vec::new();
                proof {
                    assert(empty.deep_view() =~= Seq::<(Seq<char>, Seq<char>)>::empty());
                }
                empty
            },
            Some(v) => match json_to_str_map(v) {
                Some(m) => m,
                None => {
                    return None;
                },
            },
        };
        let created_at = match get_str(es, "created_at") {
            Some(x) => x,
            None => {
                return None;
            },
        };
        let expires_at = match get_str(es, "expires_at") {
            Some(x) => x,
            None => {
                return None;
            },
        };
        let last_used_at = match get_str(es, "last_used_at") {
            Some(x) => x,
            None => {
                return None;
            },
        };
        let uploaded_at = match get_str(es, "uploaded_at") {
            Some(x) => x,
            None => {
                return None;
            },
        };
        Some(
            Image {
                auto_update,
                properties,
                public,
                aliases,
                architecture,
                cached,
                filename,
                fingerprint,
                size,
                update_source,
                created_at,
                expires_at,
                last_used_at,
                uploaded_at,
            },
        )
    }

    /// Encode the record back to its JSON shape.
    pub fn to_json(&self) -> (r: Json)
        ensures
            r@ == image_to_jsonv(self@),
    {
        let mut es: Vec<(String, Json)> = Vec::new();
        es.push(("auto_update".to_owned(), Json::Bool(self.auto_update)));
        es.push(("properties".to_owned(), str_map_to_json(&self.properties)));
        es.push(("public".to_owned(), Json::Bool(self.public)));
        es.push(("aliases".to_owned(), str_map_list_to_json(&self.aliases)));
        es.push(("architecture".to_owned(), Json::Str(self.architecture.clone())));
        es.push(("cached".to_owned(), Json::Bool(self.cached)));
        es.push(("filename".to_owned(), Json::Str(self.filename.clone())));
        es.push(("fingerprint".to_owned(), Json::Str(self.fingerprint.clone())));
        es.push(("size".to_owned(), Json::Num(self.size)));
        es.push(("update_source".to_owned(), str_map_to_json(&self.update_source)));
        es.push(("created_at".to_owned(), Json::Str(self.created_at.clone())));
        es.push(("expires_at".to_owned(), Json::Str(self.expires_at.clone())));
        es.push(("last_used_at".to_owned(), Json::Str(self.last_used_at.clone())));
        es.push(("uploaded_at".to_owned(), Json::Str(self.uploaded_at.clone())));
        proof {
            lemma_jentries_view_len(es@);
            assert(jentries_view(es@) =~~= image_entries(self@));
        }
        Json::Obj(es)
    }

    /// Decode a whole listing: a JSON array of image records.
    pub fn list_from_json(j: &Json) -> (r: Option<Vec<Image>>)
        ensures
            (r is Some) == (jsonv_to_image_list(j@) is Some),
            r matches Some(l) ==> jsonv_to_image_list(j@) == Some(l.deep_view()),
    {
        let items = match j {
            Json::Arr(items) => items,
            _ => {
                return None;
            },
        };
        let ghost iv = jsons_view(items@);
        proof {
            lemma_jsons_view_len(items@);
            assert(j@ == JsonV::Arr(iv));
        }
        let mut out: Vec<Image> = Vec::new();
        let mut i: usize = 0;
        while i < items.len()
            invariant
                i <= items@.len(),
                j@ == JsonV::Arr(iv),
                iv == jsons_view(items@),
                iv.len() == items@.len(),
                forall|t: int| 0 <= t < items@.len() ==> iv[t] == json_view(items@[t]),
                forall|t: int| 0 <= t < i ==> (#[trigger] jsonv_to_image(iv[t])) is Some,
                out.deep_view().len() == i,
                forall|t: int| 0 <= t < i ==> Some(out.deep_view()[t]) == jsonv_to_image(iv[t]),
            decreases items@.len() - i,
        {
            let e = &items[i];
            match Image::from_json(e) {
                Some(v) => {
                    push_image(&mut out, v);
                },
                None => {
                    proof {
                        assert(jsonv_to_image(iv[i as int]) is None);
                    }
                    return None;
                },
            }
            i += 1;
        }
        proof {
            assert(out.deep_view() =~= iv.map_values(|x: JsonV| jsonv_to_image(x).unwrap()));
        }
        Some(out)
    }

    /// Judge a fetched listing tree: the decoded records exactly when the
    /// tree is an array of image records, and the parse-failure error
    /// otherwise — never not-found, never a silent success.
    pub fn decode_listing(j: &Json) -> (r: Result<Vec<Image>, LxdError>)
        ensures
            (r is Ok) == (jsonv_to_image_list(j@) is Some),
            r matches Ok(l) ==> jsonv_to_image_list(j@) == Some(l.deep_view()),
            r matches Err(e) ==> e is ParseFailure,
    {
        match Self::list_from_json(j) {
            Some(list) => Ok(list),
            None => {
                let msg = match j {
                    Json::Arr(_) => "a listing element is not an image record of the expected shape",
                    _ => "listing is not a JSON array",
                };
                Err(LxdError::ParseFailure(msg.to_owned()))
            },
        }
    }

    /// Judge a single-name fetch tree: the sole record, unmodified, when the
    /// tree decodes to exactly one image record; the not-found error
    /// carrying `name` when it decodes to zero records or to several; and
    /// the parse-failure error when it is not an array of image records at
    /// all — never not-found for a malformed tree.
    pub fn decode_single(j: &Json, name: &str) -> (r: Result<Image, LxdError>)
        ensures
            match jsonv_to_image_list(j@) {
                None => (r matches Err(e) && e is ParseFailure),
                Some(l) => if l.len() == 1 {
                    r matches Ok(v) && v@ == l[0]
                } else {
                    r matches Err(LxdError::NotFound(s)) && s@ == name@
                },
            },
    {
        match Self::decode_listing(j) {
            Ok(list) => {
                let ghost lv = list.deep_view();
                let r = Self::select_single(list, name);
                proof {
                    assert(lv.len() == list@.len());
                    if list@.len() == 1 {
                        assert(lv[0] == list@[0]@);
                    }
                }
                r
            },
            Err(e) => Err(e),
        }
    }

    /// Fetch the records of every stored image at `location`: issue the
    /// image-listing invocation, then judge its JSON output as
    /// `decode_listing` states — any shape other than an array of image
    /// records is a parse failure.
    pub fn all<F, G>(ex: &mut Executor<F, G>, location: Location) -> (r: Result<
        Vec<Image>,
        LxdError,
    >) where
        F: Fn(Vec<String>) -> CmdOutcome,
        G: Fn(Vec<String>) -> FetchOutcome,

        requires
            old(ex).wf(),
        ensures
            final(ex).wf(),
            final(ex).runner_spec() == old(ex).runner_spec(),
            final(ex).fetcher_spec() == old(ex).fetcher_spec(),
            final(ex).log_view() == old(ex).log_view().push(
                commands::image_list_cmd(location, None),
            ),
            judged_listing(old(ex).fetcher_spec(), commands::image_list_cmd(location, None), r),
            r matches Err(e) ==> !(e is NotFound),
            r matches Err(LxdError::CommandFailure { args: a, .. }) ==> a.deep_view()
                == commands::image_list_cmd(location, None),
    {
        let args = commands::image_list_args(&location, None);
        let fr = fetch_checked(ex, args);
        let ghost gfr = fr;
        let r = match fr {
            Ok(j) => Self::decode_listing(&j),
            Err(e) => Err(e),
        };
        proof {
            lemma_listing_from_fetch(
                old(ex).fetcher_spec(),
                commands::image_list_cmd(location, None),
                gfr,
                r,
            );
        }
        r
    }

    /// Fetch the record of the one image named `name` at `location`: list
    /// under the name filter, then judge the output as `decode_single`
    /// states — the sole record, or not-found, or a parse failure.
    pub fn new<F, G>(ex: &mut Executor<F, G>, location: Location, name: &str) -> (r: Result<
        Image,
        LxdError,
    >) where
        F: Fn(Vec<String>) -> CmdOutcome,
        G: Fn(Vec<String>) -> FetchOutcome,

        requires
            old(ex).wf(),
        ensures
            final(ex).wf(),
            final(ex).runner_spec() == old(ex).runner_spec(),
            final(ex).fetcher_spec() == old(ex).fetcher_spec(),
            final(ex).log_view() == old(ex).log_view().push(
                commands::image_list_cmd(location, Some(name@)),
            ),
            judged_single(old(ex).fetcher_spec(), commands::image_list_cmd(location, Some(name@)), name@, r),
            r matches Err(LxdError::NotFound(s)) ==> s@ == name@,
            r matches Err(LxdError::CommandFailure { args: a, .. }) ==> a.deep_view()
                == commands::image_list_cmd(location, Some(name@)),
    {
        let args = commands::image_list_args(&location, Some(name));
        let fr = fetch_checked(ex, args);
        let ghost gfr = fr;
        let r = match fr {
            Ok(j) => Self::decode_single(&j, name),
            Err(e) => Err(e),
        };
        proof {
            lemma_single_from_fetch(
                old(ex).fetcher_spec(),
                commands::image_list_cmd(location, Some(name@)),
                name@,
                gfr,
                r,
            );
        }
        r
    }

    /// Of a fetched listing, the sole record, unmodified — or, when the name
    /// filter matched zero records or more than one, the not-found error
    /// carrying the name asked for. Neither case silently picks a record.
    pub fn select_single(list: Vec<Image>, name: &str) -> (r: Result<Image, LxdError>)
        ensures
            list@.len() == 1 ==> (r matches Ok(v) && v == list@[0]),
            list@.len() != 1 ==> (r matches Err(LxdError::NotFound(s)) && s@ == name@),
    {
        let mut list = list;
        if list.len() == 1 {
            Ok(list.remove(0))
        } else {
            Err(LxdError::NotFound(name.to_owned()))
        }
    }
}

/// Append one image record.
fn push_image(v: &mut Vec<Image>, x: Image)
    ensures
        final(v).deep_view() == old(v).deep_view().push(x@),
{
    let ghost xv = x@;
    v.push(x);
    proof {
        assert(v.deep_view() =~~= old(v).deep_view().push(xv));
    }
}

/// Law: an image record, encoded to its JSON shape, decodes back to the
/// same value, field for field.
pub proof fn lemma_image_round_trip(v: ImageV)
    ensures
        jsonv_to_image(image_to_jsonv(v)) == Some(v),
{
    reveal_strlit("auto_update");
    reveal_strlit("properties");
    reveal_strlit("public");
    reveal_strlit("aliases");
    reveal_strlit("architecture");
    reveal_strlit("cached");
    reveal_strlit("filename");
    reveal_strlit("fingerprint");
    reveal_strlit("size");
    reveal_strlit("update_source");
    reveal_strlit("created_at");
    reveal_strlit("expires_at");
    reveal_strlit("last_used_at");
    reveal_strlit("uploaded_at");
    assert("auto_update"@.len() == 11 && "auto_update"@[0] == 'a');
    assert("properties"@.len() == 10 && "properties"@[0] == 'p');
    assert("public"@.len() == 6 && "public"@[0] == 'p');
    assert("aliases"@.len() == 7 && "aliases"@[0] == 'a');
    assert("architecture"@.len() == 12 && "architecture"@[0] == 'a');
    assert("cached"@.len() == 6 && "cached"@[0] == 'c');
    assert("filename"@.len() == 8 && "filename"@[0] == 'f');
    assert("fingerprint"@.len() == 11 && "fingerprint"@[0] == 'f');
    assert("size"@.len() == 4 && "size"@[0] == 's');
    assert("update_source"@.len() == 13 && "update_source"@[0] == 'u');
    assert("created_at"@.len() == 10 && "created_at"@[0] == 'c');
    assert("expires_at"@.len() == 10 && "expires_at"@[0] == 'e');
    assert("last_used_at"@.len() == 12 && "last_used_at"@[0] == 'l');
    assert("uploaded_at"@.len() == 11 && "uploaded_at"@[0] == 'u');
    let es = image_entries(v);
    lemma_jobj_get_at(es, "auto_update"@, 0);
    lemma_jobj_get_at(es, "properties"@, 1);
    lemma_jobj_get_at(es, "public"@, 2);
    lemma_jobj_get_at(es, "aliases"@, 3);
    lemma_jobj_get_at(es, "architecture"@, 4);
    lemma_jobj_get_at(es, "cached"@, 5);
    lemma_jobj_get_at(es, "filename"@, 6);
    lemma_jobj_get_at(es, "fingerprint"@, 7);
    lemma_jobj_get_at(es, "size"@, 8);
    lemma_jobj_get_at(es, "update_source"@, 9);
    lemma_jobj_get_at(es, "created_at"@, 10);
    lemma_jobj_get_at(es, "expires_at"@, 11);
    lemma_jobj_get_at(es, "last_used_at"@, 12);
    lemma_jobj_get_at(es, "uploaded_at"@, 13);
    lemma_str_map_round(v.properties);
    lemma_str_map_list_round(v.aliases);
    lemma_str_map_round(v.update_source);
    assert(jsonv_to_image(image_to_jsonv(v)) =~~= Some(v));
}

} // verus!
