//! The structured-output tree: what a captured `--format json` listing holds.
//!
//! The library's own JSON value type. The generic syntax layer (bytes to
//! tree) is outside this crate; everything the library states about listings
//! is said over this tree and its view.
//!
//! An object holds its entries as a key-value sequence in encounter order.
//! The external tool emits each key at most once; should a key repeat,
//! lookup takes the first entry, and the codecs preserve the sequence as
//! given.

use vstd::prelude::*;

verus! {

/// A JSON value as the listing commands produce it.
///
/// Numbers are unsigned: every numeric field in the listing shapes this
/// library reads (status codes, process ids, counters, byte sizes) is a
/// non-negative integer.
#[derive(Debug, PartialEq, Eq)]
pub enum Json {
    Null,
    Bool(bool),
    Num(u64),
    Str(String),
    Arr(Vec<Json>),
    Obj(Vec<(String, Json)>),
}

/// Mathematical view of a [`Json`] tree: strings as character sequences,
/// vectors as sequences.
#[verifier::ext_equal]
pub enum JsonV {
    Null,
    Bool(bool),
    Num(u64),
    Str(Seq<char>),
    Arr(Seq<JsonV>),
    Obj(Seq<(Seq<char>, JsonV)>),
}

/// The view of one tree.
pub open spec fn json_view(j: Json) -> JsonV
    decreases j,
{
    match j {
        Json::Null => JsonV::Null,
        Json::Bool(b) => JsonV::Bool(b),
        Json::Num(n) => JsonV::Num(n),
        Json::Str(s) => JsonV::Str(s@),
        Json::Arr(items) => JsonV::Arr(jsons_view(items@)),
        Json::Obj(entries) => JsonV::Obj(jentries_view(entries@)),
    }
}

/// The views of a sequence of trees, in order.
pub open spec fn jsons_view(s: Seq<Json>) -> Seq<JsonV>
    decreases s,
{
    if s.len() == 0 {
        Seq::empty()
    } else {
        seq![json_view(s[0])] + jsons_view(s.drop_first())
    }
}

/// The views of a sequence of object entries, in order.
pub open spec fn jentries_view(s: Seq<(String, Json)>) -> Seq<(Seq<char>, JsonV)>
    decreases s,
{
    if s.len() == 0 {
        Seq::empty()
    } else {
        seq![(s[0].0@, json_view(s[0].1))] + jentries_view(s.drop_first())
    }
}

/// A sequence of tree views has one element per tree.
pub proof fn lemma_jsons_view_len(s: Seq<Json>)
    ensures
        jsons_view(s).len() == s.len(),
        forall|i: int| 0 <= i < s.len() ==> jsons_view(s)[i] == json_view(s[i]),
    decreases s,
{
    if s.len() > 0 {
        lemma_jsons_view_len(s.drop_first());
    }
}

/// A sequence of entry views has one element per entry.
pub proof fn lemma_jentries_view_len(s: Seq<(String, Json)>)
    ensures
        jentries_view(s).len() == s.len(),
        forall|i: int| 0 <= i < s.len() ==> jentries_view(s)[i] == (s[i].0@, json_view(s[i].1)),
    decreases s,
{
    if s.len() > 0 {
        lemma_jentries_view_len(s.drop_first());
    }
}

impl View for Json {
    type V = JsonV;

    open spec fn view(&self) -> JsonV {
        json_view(*self)
    }
}

/// The first value under `key`, scanning an object's entries in order.
pub open spec fn jobj_get(es: Seq<(Seq<char>, JsonV)>, key: Seq<char>) -> Option<JsonV>
    decreases es,
{
    if es.len() == 0 {
        None
    } else if es[0].0 == key {
        Some(es[0].1)
    } else {
        jobj_get(es.drop_first(), key)
    }
}

/// The string under `key`, if the key is there and holds a string.
pub open spec fn req_str(es: Seq<(Seq<char>, JsonV)>, key: Seq<char>) -> Option<Seq<char>> {
    match jobj_get(es, key) {
        Some(JsonV::Str(s)) => Some(s),
        _ => None,
    }
}

/// The boolean under `key`, if the key is there and holds one.
pub open spec fn req_bool(es: Seq<(Seq<char>, JsonV)>, key: Seq<char>) -> Option<bool> {
    match jobj_get(es, key) {
        Some(JsonV::Bool(b)) => Some(b),
        _ => None,
    }
}

/// The number under `key`, if the key is there and holds one.
pub open spec fn req_u64(es: Seq<(Seq<char>, JsonV)>, key: Seq<char>) -> Option<u64> {
    match jobj_get(es, key) {
        Some(JsonV::Num(n)) => Some(n),
        _ => None,
    }
}

/// The number under `key` as a machine size, if the key is there, holds a
/// number, and the number fits.
pub open spec fn req_usize(es: Seq<(Seq<char>, JsonV)>, key: Seq<char>) -> Option<usize> {
    match req_u64(es, key) {
        Some(n) => if n <= usize::MAX {
            Some(n as usize)
        } else {
            None
        },
        None => None,
    }
}

/// Every entry's value is a string.
pub open spec fn entries_all_str(es: Seq<(Seq<char>, JsonV)>) -> bool {
    forall|i: int| 0 <= i < es.len() ==> (#[trigger] es[i].1) is Str
}

/// An object of strings, as a key-value sequence.
pub open spec fn entries_to_str_map(es: Seq<(Seq<char>, JsonV)>) -> Option<
    Seq<(Seq<char>, Seq<char>)>,
> {
    if entries_all_str(es) {
        Some(es.map_values(|p: (Seq<char>, JsonV)| (p.0, p.1->Str_0)))
    } else {
        None
    }
}

/// Every entry's value is a number that fits a machine size.
pub open spec fn entries_all_size(es: Seq<(Seq<char>, JsonV)>) -> bool {
    forall|i: int| 0 <= i < es.len() ==> (#[trigger] es[i].1) is Num && es[i].1->Num_0
        <= usize::MAX
}

/// An object of numbers, as a key-value sequence of machine sizes.
pub open spec fn entries_to_num_map(es: Seq<(Seq<char>, JsonV)>) -> Option<
    Seq<(Seq<char>, usize)>,
> {
    if entries_all_size(es) {
        Some(es.map_values(|p: (Seq<char>, JsonV)| (p.0, p.1->Num_0 as usize)))
    } else {
        None
    }
}

/// Every element is a string.
pub open spec fn items_all_str(items: Seq<JsonV>) -> bool {
    forall|i: int| 0 <= i < items.len() ==> (#[trigger] items[i]) is Str
}

/// An array of strings, as a sequence.
pub open spec fn items_to_str_list(items: Seq<JsonV>) -> Option<Seq<Seq<char>>> {
    if items_all_str(items) {
        Some(items.map_values(|x: JsonV| x->Str_0))
    } else {
        None
    }
}

/// A value that is an object of strings.
pub open spec fn jv_to_str_map(j: JsonV) -> Option<Seq<(Seq<char>, Seq<char>)>> {
    match j {
        JsonV::Obj(es) => entries_to_str_map(es),
        _ => None,
    }
}

/// A value that is an object of numbers fitting machine sizes.
pub open spec fn jv_to_num_map(j: JsonV) -> Option<Seq<(Seq<char>, usize)>> {
    match j {
        JsonV::Obj(es) => entries_to_num_map(es),
        _ => None,
    }
}

/// A value that is an array of strings.
pub open spec fn jv_to_str_list(j: JsonV) -> Option<Seq<Seq<char>>> {
    match j {
        JsonV::Arr(items) => items_to_str_list(items),
        _ => None,
    }
}

/// A value that is an object whose values are objects of strings.
pub open spec fn jv_to_map_map(j: JsonV) -> Option<
    Seq<(Seq<char>, Seq<(Seq<char>, Seq<char>)>)>,
> {
    match j {
        JsonV::Obj(es) => {
            if forall|i: int|
                0 <= i < es.len() ==> (#[trigger] jv_to_str_map(es[i].1)) is Some {
                Some(
                    es.map_values(
                        |p: (Seq<char>, JsonV)| (p.0, jv_to_str_map(p.1).unwrap()),
                    ),
                )
            } else {
                None
            }
        },
        _ => None,
    }
}

/// A value that is an array of objects of strings.
pub open spec fn jv_to_str_map_list(j: JsonV) -> Option<Seq<Seq<(Seq<char>, Seq<char>)>>> {
    match j {
        JsonV::Arr(items) => {
            if forall|i: int|
                0 <= i < items.len() ==> (#[trigger] jv_to_str_map(items[i])) is Some {
                Some(items.map_values(|x: JsonV| jv_to_str_map(x).unwrap()))
            } else {
                None
            }
        },
        _ => None,
    }
}

/// The object of strings under `key`, if the key is there and holds one.
pub open spec fn req_str_map(es: Seq<(Seq<char>, JsonV)>, key: Seq<char>) -> Option<
    Seq<(Seq<char>, Seq<char>)>,
> {
    match jobj_get(es, key) {
        Some(v) => jv_to_str_map(v),
        None => None,
    }
}

/// The object of sizes under `key`, if the key is there and holds one.
pub open spec fn req_num_map(es: Seq<(Seq<char>, JsonV)>, key: Seq<char>) -> Option<
    Seq<(Seq<char>, usize)>,
> {
    match jobj_get(es, key) {
        Some(v) => jv_to_num_map(v),
        None => None,
    }
}

/// The array of strings under `key`, if the key is there and holds one.
pub open spec fn req_str_list(es: Seq<(Seq<char>, JsonV)>, key: Seq<char>) -> Option<
    Seq<Seq<char>>,
> {
    match jobj_get(es, key) {
        Some(v) => jv_to_str_list(v),
        None => None,
    }
}

/// The object of string maps under `key`, if the key is there and holds one.
pub open spec fn req_map_map(es: Seq<(Seq<char>, JsonV)>, key: Seq<char>) -> Option<
    Seq<(Seq<char>, Seq<(Seq<char>, Seq<char>)>)>,
> {
    match jobj_get(es, key) {
        Some(v) => jv_to_map_map(v),
        None => None,
    }
}

/// The array of string maps under `key`, if the key is there and holds one.
pub open spec fn req_str_map_list(es: Seq<(Seq<char>, JsonV)>, key: Seq<char>) -> Option<
    Seq<Seq<(Seq<char>, Seq<char>)>>,
> {
    match jobj_get(es, key) {
        Some(v) => jv_to_str_map_list(v),
        None => None,
    }
}

/// Looking a key up finds the entry at the first position that carries it.
pub proof fn lemma_jobj_get_at(es: Seq<(Seq<char>, JsonV)>, key: Seq<char>, i: int)
    requires
        0 <= i < es.len(),
        es[i].0 == key,
        forall|j: int| 0 <= j < i ==> (#[trigger] es[j]).0 != key,
    ensures
        jobj_get(es, key) == Some(es[i].1),
    decreases i,
{
    if i > 0 {
        lemma_jobj_get_at(es.drop_first(), key, i - 1);
    }
}

/// A key-value sequence of strings as a JSON object.
pub open spec fn str_map_jv(m: Seq<(Seq<char>, Seq<char>)>) -> JsonV {
    JsonV::Obj(m.map_values(|p: (Seq<char>, Seq<char>)| (p.0, JsonV::Str(p.1))))
}

/// A key-value sequence of machine sizes as a JSON object.
pub open spec fn num_map_jv(m: Seq<(Seq<char>, usize)>) -> JsonV {
    JsonV::Obj(m.map_values(|p: (Seq<char>, usize)| (p.0, JsonV::Num(p.1 as u64))))
}

/// A sequence of strings as a JSON array.
pub open spec fn str_list_jv(l: Seq<Seq<char>>) -> JsonV {
    JsonV::Arr(l.map_values(|s: Seq<char>| JsonV::Str(s)))
}

/// A key-value sequence of string maps as a JSON object of objects.
pub open spec fn map_map_jv(m: Seq<(Seq<char>, Seq<(Seq<char>, Seq<char>)>)>) -> JsonV {
    JsonV::Obj(
        m.map_values(|p: (Seq<char>, Seq<(Seq<char>, Seq<char>)>)| (p.0, str_map_jv(p.1))),
    )
}

/// A sequence of string maps as a JSON array of objects.
pub open spec fn str_map_list_jv(l: Seq<Seq<(Seq<char>, Seq<char>)>>) -> JsonV {
    JsonV::Arr(l.map_values(|m: Seq<(Seq<char>, Seq<char>)>| str_map_jv(m)))
}

/// An encoded object of strings decodes back to the same sequence.
pub proof fn lemma_str_map_round(m: Seq<(Seq<char>, Seq<char>)>)
    ensures
        jv_to_str_map(str_map_jv(m)) == Some(m),
{
    let es = m.map_values(|p: (Seq<char>, Seq<char>)| (p.0, JsonV::Str(p.1)));
    assert(entries_all_str(es));
    assert(es.map_values(|p: (Seq<char>, JsonV)| (p.0, p.1->Str_0)) =~= m);
}

/// An encoded object of machine sizes decodes back to the same sequence.
pub proof fn lemma_num_map_round(m: Seq<(Seq<char>, usize)>)
    ensures
        jv_to_num_map(num_map_jv(m)) == Some(m),
{
    let es = m.map_values(|p: (Seq<char>, usize)| (p.0, JsonV::Num(p.1 as u64)));
    assert(entries_all_size(es));
    assert(es.map_values(|p: (Seq<char>, JsonV)| (p.0, p.1->Num_0 as usize)) =~= m);
}

/// An encoded array of strings decodes back to the same sequence.
pub proof fn lemma_str_list_round(l: Seq<Seq<char>>)
    ensures
        jv_to_str_list(str_list_jv(l)) == Some(l),
{
    let items = l.map_values(|s: Seq<char>| JsonV::Str(s));
    assert(items_all_str(items));
    assert(items.map_values(|x: JsonV| x->Str_0) =~= l);
}

/// An encoded object of string maps decodes back to the same sequence.
pub proof fn lemma_map_map_round(m: Seq<(Seq<char>, Seq<(Seq<char>, Seq<char>)>)>)
    ensures
        jv_to_map_map(map_map_jv(m)) == Some(m),
{
    let es = m.map_values(
        |p: (Seq<char>, Seq<(Seq<char>, Seq<char>)>)| (p.0, str_map_jv(p.1)),
    );
    assert forall|i: int| 0 <= i < es.len() implies (#[trigger] jv_to_str_map(es[i].1))
        is Some by {
        lemma_str_map_round(m[i].1);
    }
    assert forall|i: int| 0 <= i < es.len() implies jv_to_str_map(es[i].1).unwrap()
        == m[i].1 by {
        lemma_str_map_round(m[i].1);
    }
    assert(es.map_values(|p: (Seq<char>, JsonV)| (p.0, jv_to_str_map(p.1).unwrap())) =~= m);
}

/// An encoded array of string maps decodes back to the same sequence.
pub proof fn lemma_str_map_list_round(l: Seq<Seq<(Seq<char>, Seq<char>)>>)
    ensures
        jv_to_str_map_list(str_map_list_jv(l)) == Some(l),
{
    let items = l.map_values(|m: Seq<(Seq<char>, Seq<char>)>| str_map_jv(m));
    assert forall|i: int| 0 <= i < items.len() implies (#[trigger] jv_to_str_map(items[i]))
        is Some by {
        lemma_str_map_round(l[i]);
    }
    assert forall|i: int| 0 <= i < items.len() implies jv_to_str_map(items[i]).unwrap()
        == l[i] by {
        lemma_str_map_round(l[i]);
    }
    assert(items.map_values(|x: JsonV| jv_to_str_map(x).unwrap()) =~= l);
}

impl DeepView for Json {
    type V = JsonV;

    open spec fn deep_view(&self) -> JsonV {
        json_view(*self)
    }
}

/// Append one key-value pair of strings.
fn push_pair(v: &mut Vec<(String, String)>, k: String, val: String)
    ensures
        final(v).deep_view() == old(v).deep_view().push((k@, val@)),
{
    v.push((k, val));
    proof {
        assert(v.deep_view() =~~= old(v).deep_view().push((k@, val@)));
    }
}

/// Append one key-size pair.
fn push_size(v: &mut Vec<(String, usize)>, k: String, n: usize)
    ensures
        final(v).deep_view() == old(v).deep_view().push((k@, n)),
{
    v.push((k, n));
    proof {
        assert(v.deep_view() =~~= old(v).deep_view().push((k@, n)));
    }
}

/// Append one string.
fn push_string(v: &mut Vec<String>, s: String)
    ensures
        final(v).deep_view() == old(v).deep_view().push(s@),
{
    let ghost sv = s@;
    v.push(s);
    proof {
        assert(v.deep_view() =~~= old(v).deep_view().push(sv));
    }
}

/// Append one named string map.
fn push_named_map(v: &mut Vec<(String, Vec<(String, String)>)>, k: String, m: Vec<(String, String)>)
    ensures
        final(v).deep_view() == old(v).deep_view().push((k@, m.deep_view())),
{
    let ghost mv = m.deep_view();
    v.push((k, m));
    proof {
        assert(v.deep_view() =~~= old(v).deep_view().push((k@, mv)));
    }
}

/// Append one string map.
fn push_map(v: &mut Vec<Vec<(String, String)>>, m: Vec<(String, String)>)
    ensures
        final(v).deep_view() == old(v).deep_view().push(m.deep_view()),
{
    let ghost mv = m.deep_view();
    v.push(m);
    proof {
        assert(v.deep_view() =~~= old(v).deep_view().push(mv));
    }
}

/// The first value under `key` among an object's entries.
pub(crate) fn obj_get<'a>(es: &'a Vec<(String, Json)>, key: &str) -> (r: Option<&'a Json>)
    ensures
        match r {
            Some(j) => jobj_get(jentries_view(es@), key@) == Some(json_view(*j)),
            None => jobj_get(jentries_view(es@), key@) is None,
        },
{
    let k: String = key.to_owned();
    let ghost ev = jentries_view(es@);
    proof {
        lemma_jentries_view_len(es@);
        assert(ev.skip(0) =~= ev);
    }
    let mut i: usize = 0;
    while i < es.len()
        invariant
            i <= es@.len(),
            ev == jentries_view(es@),
            ev.len() == es@.len(),
            forall|t: int| 0 <= t < es@.len() ==> ev[t] == (es@[t].0@, json_view(es@[t].1)),
            k@ == key@,
            jobj_get(ev, key@) == jobj_get(ev.skip(i as int), key@),
        decreases es@.len() - i,
    {
        let e = &es[i];
        proof {
            assert(ev.skip(i as int)[0] == ev[i as int]);
        }
        if e.0 == k {
            return Some(&e.1);
        }
        proof {
            assert(ev.skip(i as int).drop_first() =~= ev.skip(i + 1 as int));
        }
        i += 1;
    }
    proof {
        assert(ev.skip(es@.len() as int) =~= Seq::<(Seq<char>, JsonV)>::empty());
    }
    None
}

/// The string under `key`, cloned out, if the key holds a string.
pub(crate) fn get_str(es: &Vec<(String, Json)>, key: &str) -> (r: Option<String>)
    ensures
        (r is Some) == (req_str(jentries_view(es@), key@) is Some),
        r matches Some(s) ==> req_str(jentries_view(es@), key@) == Some(s@),
{
    match obj_get(es, key) {
        Some(Json::Str(s)) => Some(s.clone()),
        _ => None,
    }
}

/// The boolean under `key`, if the key holds one.
pub(crate) fn get_bool(es: &Vec<(String, Json)>, key: &str) -> (r: Option<bool>)
    ensures
        req_bool(jentries_view(es@), key@) == r,
{
    match obj_get(es, key) {
        Some(Json::Bool(b)) => Some(*b),
        _ => None,
    }
}

/// The number under `key`, if the key holds one.
pub(crate) fn get_u64(es: &Vec<(String, Json)>, key: &str) -> (r: Option<u64>)
    ensures
        req_u64(jentries_view(es@), key@) == r,
{
    match obj_get(es, key) {
        Some(Json::Num(n)) => Some(*n),
        _ => None,
    }
}

/// The number under `key` as a machine size, if it fits.
pub(crate) fn get_usize(es: &Vec<(String, Json)>, key: &str) -> (r: Option<usize>)
    ensures
        req_usize(jentries_view(es@), key@) == r,
{
    match get_u64(es, key) {
        Some(n) => if n <= usize::MAX as u64 {
            Some(n as usize)
        } else {
            None
        },
        None => None,
    }
}

/// Decode an object of strings.
pub(crate) fn json_to_str_map(j: &Json) -> (r: Option<Vec<(String, String)>>)
    ensures
        (r is Some) == (jv_to_str_map(j@) is Some),
        r matches Some(m) ==> jv_to_str_map(j@) == Some(m.deep_view()),
{
    match j {
        Json::Obj(es) => {
            let ghost ev = jentries_view(es@);
            proof {
                lemma_jentries_view_len(es@);
                assert(j@ == JsonV::Obj(ev));
            }
            let mut out: Vec<(String, String)> = Vec::new();
            let mut i: usize = 0;
            while i < es.len()
                invariant
                    i <= es@.len(),
                    j@ == JsonV::Obj(ev),
                    ev == jentries_view(es@),
                    ev.len() == es@.len(),
                    forall|t: int| 0 <= t < es@.len() ==> ev[t] == (
                        es@[t].0@,
                        json_view(es@[t].1),
                    ),
                    forall|t: int| 0 <= t < i ==> (#[trigger] ev[t].1) is Str,
                    out.deep_view().len() == i,
                    forall|t: int| 0 <= t < i ==> out.deep_view()[t] == (
                        ev[t].0,
                        ev[t].1->Str_0,
                    ),
                decreases es@.len() - i,
            {
                let e = &es[i];
                match &e.1 {
                    Json::Str(s) => {
                        push_pair(&mut out, e.0.clone(), s.clone());
                    },
                    _ => {
                        proof {
                            assert(!(ev[i as int].1 is Str));
                        }
                        return None;
                    },
                }
                i += 1;
            }
            proof {
                assert(entries_all_str(ev));
                assert(out.deep_view() =~= ev.map_values(
                    |p: (Seq<char>, JsonV)| (p.0, p.1->Str_0),
                ));
            }
            Some(out)
        },
        _ => None,
    }
}

/// Decode an object of numbers into machine sizes.
pub(crate) fn json_to_num_map(j: &Json) -> (r: Option<Vec<(String, usize)>>)
    ensures
        (r is Some) == (jv_to_num_map(j@) is Some),
        r matches Some(m) ==> jv_to_num_map(j@) == Some(m.deep_view()),
{
    match j {
        Json::Obj(es) => {
            let ghost ev = jentries_view(es@);
            proof {
                lemma_jentries_view_len(es@);
                assert(j@ == JsonV::Obj(ev));
            }
            let mut out: Vec<(String, usize)> = Vec::new();
            let mut i: usize = 0;
            while i < es.len()
                invariant
                    i <= es@.len(),
                    j@ == JsonV::Obj(ev),
                    ev == jentries_view(es@),
                    ev.len() == es@.len(),
                    forall|t: int| 0 <= t < es@.len() ==> ev[t] == (
                        es@[t].0@,
                        json_view(es@[t].1),
                    ),
                    forall|t: int| 0 <= t < i ==> (#[trigger] ev[t].1) is Num && ev[t].1->Num_0
                        <= usize::MAX,
                    out.deep_view().len() == i,
                    forall|t: int| 0 <= t < i ==> out.deep_view()[t] == (
                        ev[t].0,
                        ev[t].1->Num_0 as usize,
                    ),
                decreases es@.len() - i,
            {
                let e = &es[i];
                match &e.1 {
                    Json::Num(n) => {
                        if *n <= usize::MAX as u64 {
                            push_size(&mut out, e.0.clone(), *n as usize);
                        } else {
                            proof {
                                assert(!entries_all_size(ev));
                            }
                            return None;
                        }
                    },
                    _ => {
                        proof {
                            assert(!(ev[i as int].1 is Num));
                        }
                        return None;
                    },
                }
                i += 1;
            }
            proof {
                assert(entries_all_size(ev));
                assert(out.deep_view() =~= ev.map_values(
                    |p: (Seq<char>, JsonV)| (p.0, p.1->Num_0 as usize),
                ));
            }
            Some(out)
        },
        _ => None,
    }
}

/// Decode an array of strings.
pub(crate) fn json_to_str_list(j: &Json) -> (r: Option<Vec<String>>)
    ensures
        (r is Some) == (jv_to_str_list(j@) is Some),
        r matches Some(l) ==> jv_to_str_list(j@) == Some(l.deep_view()),
{
    match j {
        Json::Arr(items) => {
            let ghost iv = jsons_view(items@);
            proof {
                lemma_jsons_view_len(items@);
                assert(j@ == JsonV::Arr(iv));
            }
            let mut out: Vec<String> = Vec::new();
            let mut i: usize = 0;
            while i < items.len()
                invariant
                    i <= items@.len(),
                    j@ == JsonV::Arr(iv),
                    iv == jsons_view(items@),
                    iv.len() == items@.len(),
                    forall|t: int| 0 <= t < items@.len() ==> iv[t] == json_view(items@[t]),
                    forall|t: int| 0 <= t < i ==> (#[trigger] iv[t]) is Str,
                    out.deep_view().len() == i,
                    forall|t: int| 0 <= t < i ==> out.deep_view()[t] == iv[t]->Str_0,
                decreases items@.len() - i,
            {
                let e = &items[i];
                match e {
                    Json::Str(s) => {
                        push_string(&mut out, s.clone());
                    },
                    _ => {
                        proof {
                            assert(!(iv[i as int] is Str));
                        }
                        return None;
                    },
                }
                i += 1;
            }
            proof {
                assert(items_all_str(iv));
                assert(out.deep_view() =~= iv.map_values(|x: JsonV| x->Str_0));
            }
            Some(out)
        },
        _ => None,
    }
}

/// Decode an object whose values are objects of strings.
pub(crate) fn json_to_map_map(j: &Json) -> (r: Option<Vec<(String, Vec<(String, String)>)>>)
    ensures
        (r is Some) == (jv_to_map_map(j@) is Some),
        r matches Some(m) ==> jv_to_map_map(j@) == Some(m.deep_view()),
{
    match j {
        Json::Obj(es) => {
            let ghost ev = jentries_view(es@);
            proof {
                lemma_jentries_view_len(es@);
                assert(j@ == JsonV::Obj(ev));
            }
            let mut out: Vec<(String, Vec<(String, String)>)> = Vec::new();
            let mut i: usize = 0;
            while i < es.len()
                invariant
                    i <= es@.len(),
                    j@ == JsonV::Obj(ev),
                    ev == jentries_view(es@),
                    ev.len() == es@.len(),
                    forall|t: int| 0 <= t < es@.len() ==> ev[t] == (
                        es@[t].0@,
                        json_view(es@[t].1),
                    ),
                    forall|t: int| 0 <= t < i ==> (#[trigger] jv_to_str_map(ev[t].1)) is Some,
                    out.deep_view().len() == i,
                    forall|t: int| 0 <= t < i ==> Some(out.deep_view()[t].1) == jv_to_str_map(
                        ev[t].1,
                    ) && out.deep_view()[t].0 == ev[t].0,
                decreases es@.len() - i,
            {
                let e = &es[i];
                match json_to_str_map(&e.1) {
                    Some(m) => {
                        push_named_map(&mut out, e.0.clone(), m);
                    },
                    None => {
                        proof {
                            assert(jv_to_str_map(ev[i as int].1) is None);
                        }
                        return None;
                    },
                }
                i += 1;
            }
            proof {
                assert(out.deep_view() =~= ev.map_values(
                    |p: (Seq<char>, JsonV)| (p.0, jv_to_str_map(p.1).unwrap()),
                ));
            }
            Some(out)
        },
        _ => None,
    }
}

/// Decode an array of objects of strings.
pub(crate) fn json_to_str_map_list(j: &Json) -> (r: Option<Vec<Vec<(String, String)>>>)
    ensures
        (r is Some) == (jv_to_str_map_list(j@) is Some),
        r matches Some(l) ==> jv_to_str_map_list(j@) == Some(l.deep_view()),
{
    match j {
        Json::Arr(items) => {
            let ghost iv = jsons_view(items@);
            proof {
                lemma_jsons_view_len(items@);
                assert(j@ == JsonV::Arr(iv));
            }
            let mut out: Vec<Vec<(String, String)>> = Vec::new();
            let mut i: usize = 0;
            while i < items.len()
                invariant
                    i <= items@.len(),
                    j@ == JsonV::Arr(iv),
                    iv == jsons_view(items@),
                    iv.len() == items@.len(),
                    forall|t: int| 0 <= t < items@.len() ==> iv[t] == json_view(items@[t]),
                    forall|t: int| 0 <= t < i ==> (#[trigger] jv_to_str_map(iv[t])) is Some,
                    out.deep_view().len() == i,
                    forall|t: int| 0 <= t < i ==> Some(out.deep_view()[t]) == jv_to_str_map(
                        iv[t],
                    ),
                decreases items@.len() - i,
            {
                let e = &items[i];
                match json_to_str_map(e) {
                    Some(m) => {
                        push_map(&mut out, m);
                    },
                    None => {
                        proof {
                            assert(jv_to_str_map(iv[i as int]) is None);
                        }
                        return None;
                    },
                }
                i += 1;
            }
            proof {
                assert(out.deep_view() =~= iv.map_values(|x: JsonV| jv_to_str_map(x).unwrap()));
            }
            Some(out)
        },
        _ => None,
    }
}

/// The object of strings under `key`, decoded, if the key holds one.
pub(crate) fn get_str_map(es: &Vec<(String, Json)>, key: &str) -> (r: Option<
    Vec<(String, String)>,
>)
    ensures
        (r is Some) == (req_str_map(jentries_view(es@), key@) is Some),
        r matches Some(m) ==> req_str_map(jentries_view(es@), key@) == Some(m.deep_view()),
{
    match obj_get(es, key) {
        Some(v) => json_to_str_map(v),
        None => None,
    }
}

/// The object of sizes under `key`, decoded, if the key holds one.
pub(crate) fn get_num_map(es: &Vec<(String, Json)>, key: &str) -> (r: Option<
    Vec<(String, usize)>,
>)
    ensures
        (r is Some) == (req_num_map(jentries_view(es@), key@) is Some),
        r matches Some(m) ==> req_num_map(jentries_view(es@), key@) == Some(m.deep_view()),
{
    match obj_get(es, key) {
        Some(v) => json_to_num_map(v),
        None => None,
    }
}

/// The array of strings under `key`, decoded, if the key holds one.
pub(crate) fn get_str_list(es: &Vec<(String, Json)>, key: &str) -> (r: Option<Vec<String>>)
    ensures
        (r is Some) == (req_str_list(jentries_view(es@), key@) is Some),
        r matches Some(l) ==> req_str_list(jentries_view(es@), key@) == Some(l.deep_view()),
{
    match obj_get(es, key) {
        Some(v) => json_to_str_list(v),
        None => None,
    }
}

/// The object of string maps under `key`, decoded, if the key holds one.
pub(crate) fn get_map_map(es: &Vec<(String, Json)>, key: &str) -> (r: Option<
    Vec<(String, Vec<(String, String)>)>,
>)
    ensures
        (r is Some) == (req_map_map(jentries_view(es@), key@) is Some),
        r matches Some(m) ==> req_map_map(jentries_view(es@), key@) == Some(m.deep_view()),
{
    match obj_get(es, key) {
        Some(v) => json_to_map_map(v),
        None => None,
    }
}

/// The array of string maps under `key`, decoded, if the key holds one.
pub(crate) fn get_str_map_list(es: &Vec<(String, Json)>, key: &str) -> (r: Option<
    Vec<Vec<(String, String)>>,
>)
    ensures
        (r is Some) == (req_str_map_list(jentries_view(es@), key@) is Some),
        r matches Some(l) ==> req_str_map_list(jentries_view(es@), key@) == Some(l.deep_view()),
{
    match obj_get(es, key) {
        Some(v) => json_to_str_map_list(v),
        None => None,
    }
}

/// Encode a key-value sequence of strings as an object.
pub(crate) fn str_map_to_json(m: &Vec<(String, String)>) -> (r: Json)
    ensures
        r@ == str_map_jv(m.deep_view()),
{
    let mut es: Vec<(String, Json)> = Vec::new();
    let mut i: usize = 0;
    while i < m.len()
        invariant
            i <= m@.len(),
            es@.len() == i,
            forall|t: int| 0 <= t < i ==> (#[trigger] es@[t]).0@ == m.deep_view()[t].0
                && json_view(es@[t].1) == JsonV::Str(m.deep_view()[t].1),
        decreases m@.len() - i,
    {
        let e = &m[i];
        es.push((e.0.clone(), Json::Str(e.1.clone())));
        i += 1;
    }
    proof {
        lemma_jentries_view_len(es@);
        assert(jentries_view(es@) =~= m.deep_view().map_values(
            |p: (Seq<char>, Seq<char>)| (p.0, JsonV::Str(p.1)),
        ));
    }
    Json::Obj(es)
}

/// Encode a key-value sequence of machine sizes as an object.
pub(crate) fn num_map_to_json(m: &Vec<(String, usize)>) -> (r: Json)
    ensures
        r@ == num_map_jv(m.deep_view()),
{
    let mut es: Vec<(String, Json)> = Vec::new();
    let mut i: usize = 0;
    while i < m.len()
        invariant
            i <= m@.len(),
            es@.len() == i,
            forall|t: int| 0 <= t < i ==> (#[trigger] es@[t]).0@ == m.deep_view()[t].0
                && json_view(es@[t].1) == JsonV::Num(m.deep_view()[t].1 as u64),
        decreases m@.len() - i,
    {
        let e = &m[i];
        es.push((e.0.clone(), Json::Num(e.1 as u64)));
        i += 1;
    }
    proof {
        lemma_jentries_view_len(es@);
        assert(jentries_view(es@) =~= m.deep_view().map_values(
            |p: (Seq<char>, usize)| (p.0, JsonV::Num(p.1 as u64)),
        ));
    }
    Json::Obj(es)
}

/// Encode a sequence of strings as an array.
pub(crate) fn str_list_to_json(l: &Vec<String>) -> (r: Json)
    ensures
        r@ == str_list_jv(l.deep_view()),
{
    let mut items: Vec<Json> = Vec::new();
    let mut i: usize = 0;
    while i < l.len()
        invariant
            i <= l@.len(),
            items@.len() == i,
            forall|t: int| 0 <= t < i ==> json_view(#[trigger] items@[t]) == JsonV::Str(
                l.deep_view()[t],
            ),
        decreases l@.len() - i,
    {
        items.push(Json::Str(l[i].clone()));
        i += 1;
    }
    proof {
        lemma_jsons_view_len(items@);
        assert(jsons_view(items@) =~= l.deep_view().map_values(|s: Seq<char>| JsonV::Str(s)));
    }
    Json::Arr(items)
}

/// Encode a key-value sequence of string maps as an object of objects.
pub(crate) fn map_map_to_json(m: &Vec<(String, Vec<(String, String)>)>) -> (r: Json)
    ensures
        r@ == map_map_jv(m.deep_view()),
{
    let mut es: Vec<(String, Json)> = Vec::new();
    let mut i: usize = 0;
    while i < m.len()
        invariant
            i <= m@.len(),
            es@.len() == i,
            forall|t: int| 0 <= t < i ==> (#[trigger] es@[t]).0@ == m.deep_view()[t].0
                && json_view(es@[t].1) == str_map_jv(m.deep_view()[t].1),
        decreases m@.len() - i,
    {
        let e = &m[i];
        es.push((e.0.clone(), str_map_to_json(&e.1)));
        i += 1;
    }
    proof {
        lemma_jentries_view_len(es@);
        assert(jentries_view(es@) =~= m.deep_view().map_values(
            |p: (Seq<char>, Seq<(Seq<char>, Seq<char>)>)| (p.0, str_map_jv(p.1)),
        ));
    }
    Json::Obj(es)
}

/// Encode a sequence of string maps as an array of objects.
pub(crate) fn str_map_list_to_json(l: &Vec<Vec<(String, String)>>) -> (r: Json)
    ensures
        r@ == str_map_list_jv(l.deep_view()),
{
    let mut items: Vec<Json> = Vec::new();
    let mut i: usize = 0;
    while i < l.len()
        invariant
            i <= l@.len(),
            items@.len() == i,
            forall|t: int| 0 <= t < i ==> json_view(#[trigger] items@[t]) == str_map_jv(
                l.deep_view()[t],
            ),
        decreases l@.len() - i,
    {
        items.push(str_map_to_json(&l[i]));
        i += 1;
    }
    proof {
        lemma_jsons_view_len(items@);
        assert(jsons_view(items@) =~= l.deep_view().map_values(
            |m: Seq<(Seq<char>, Seq<char>)>| str_map_jv(m),
        ));
    }
    Json::Arr(items)
}

} // verus!
