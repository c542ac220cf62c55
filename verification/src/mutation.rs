//! The body mutation engine: applies the fix-ups of a request, in order, to a
//! fully buffered response body.

use crate::deprecation::{views, Deprecation, DeprecationView};
use crate::json::{
    array_mut, json_of, json_parse, json_render, jsons_of, member_mut, parse_value, render_value,
    set_member, string_value, with_member, Json,
};
use serde_json::Value;
use vstd::prelude::*;

verus! {

/// The response body could not be read, or written back, as JSON.
#[derive(Debug)]
pub struct MalformedPayload {
    pub cause: serde_json::Error,
}

/// A record with its `zone_id` set: an object gains or replaces the member,
/// `null` becomes an object that holds it alone, anything else is left alone.
pub open spec fn with_zone_id(record: Json, zone_id: Seq<char>) -> Json {
    with_member(record, "zone_id"@, Json::String(zone_id))
}

/// Whether a document lists records: it is an object whose member `result`
/// is an array.
pub open spec fn has_records(doc: Json) -> bool {
    doc matches Json::Object(top) && top.contains_key("result"@) && top["result"@] is Array
}

/// The document that the fix-up of 2024-11-30 makes of `doc`: where `doc`
/// lists records, every record gets the zone identifier; any other document
/// is left as it is.
pub open spec fn patched(doc: Json, zone_id: Seq<char>) -> Json {
    if has_records(doc) {
        let top = doc->Object_0;
        let records = top["result"@]->Array_0;
        Json::Object(
            top.insert(
                "result"@,
                Json::Array(records.map_values(|r: Json| with_zone_id(r, zone_id))),
            ),
        )
    } else {
        doc
    }
}

/// Applies the fix-up of 2024-11-30 to a parsed response, in place, and tells
/// whether the response lists records at all.
pub fn patch_zone_id(response: &mut Value, zone_id: &str) -> (listed: bool)
    ensures
        listed == has_records(json_of(*old(response))),
        json_of(*final(response)) == patched(json_of(*old(response)), zone_id@),
{
    let ghost doc = json_of(*response);
    let mut listed = false;
    if let Some(result) = member_mut(response, "result") {
        let ghost top = doc->Object_0;
        assert(top.insert("result"@, top["result"@]) =~= top);
        if let Some(records) = array_mut(result) {
            let ghost before = records@;
            let n: usize = records.len();
            let mut i: usize = 0;
            while i < n
                invariant
                    i <= n,
                    records@.len() == n,
                    before.len() == n,
                    forall|j: int|
                        0 <= j < i ==> json_of(#[trigger] records@[j]) == with_zone_id(
                            json_of(before[j]),
                            zone_id@,
                        ),
                    forall|j: int| i <= j < n ==> #[trigger] records@[j] == before[j],
                decreases n - i,
            {
                if records[i].is_object() || records[i].is_null() {
                    set_member(&mut records[i], "zone_id", string_value(zone_id.to_owned()));
                }
                i = i + 1;
            }
            assert(jsons_of(records@) =~= jsons_of(before).map_values(
                |r: Json| with_zone_id(r, zone_id@),
            ));
            listed = true;
        }
    }
    listed
}

/// What the fix-up of 2024-11-30 makes of a response body. The body is read
/// as JSON. Where it lists records it is patched and written back; where it
/// does not, the body stays as it is, byte for byte. `None` where reading or
/// writing fails.
pub open spec fn mutated_2024_11_30(content: Seq<u8>, zone_id: Seq<char>) -> Option<Seq<u8>> {
    match json_parse(content) {
        Some(doc) => if has_records(doc) {
            json_render(patched(doc, zone_id))
        } else {
            Some(content)
        },
        None => None,
    }
}

/// Patches the records of a DNS listing with the zone they belong to.
pub fn mutate2024_11_30(content: &[u8], zone_id: &str) -> (r: Result<Vec<u8>, MalformedPayload>)
    ensures
        match r {
            Ok(body) => mutated_2024_11_30(content@, zone_id@) == Some(body@),
            Err(_) => mutated_2024_11_30(content@, zone_id@) is None,
        },
{
    let mut response = match parse_value(content) {
        Ok(v) => v,
        Err(e) => { return Err(MalformedPayload { cause: e }); },
    };
    if !patch_zone_id(&mut response, zone_id) {
        return Ok(vstd::slice::slice_to_vec(content));
    }
    match render_value(&response) {
        Ok(body) => Ok(body),
        Err(e) => Err(MalformedPayload { cause: e }),
    }
}

/// What one fix-up makes of a body.
pub open spec fn applied(deprecation: DeprecationView, content: Seq<u8>) -> Option<Seq<u8>> {
    match deprecation {
        DeprecationView::D2024_11_30 { zone_id } => mutated_2024_11_30(content, zone_id),
    }
}

/// What a list of fix-ups makes of a body: each works on what the one before
/// it produced, and the first failure is the result.
pub open spec fn mutated(content: Seq<u8>, deprecations: Seq<DeprecationView>) -> Option<
    Seq<u8>,
>
    decreases deprecations.len(),
{
    if deprecations.len() == 0 {
        Some(content)
    } else {
        match mutated(content, deprecations.drop_last()) {
            Some(body) => applied(deprecations.last(), body),
            None => None,
        }
    }
}

/// Applies the fix-ups in order, each to the output of the one before.
pub fn mutate(content: &[u8], deprecations: &[Deprecation]) -> (r: Result<
    Vec<u8>,
    MalformedPayload,
>)
    ensures
        match r {
            Ok(body) => mutated(content@, views(deprecations@)) == Some(body@),
            Err(_) => mutated(content@, views(deprecations@)) is None,
        },
{
    let mut body = vstd::slice::slice_to_vec(content);
    let n: usize = deprecations.len();
    let mut i: usize = 0;
    while i < n
        invariant
            i <= n,
            n == deprecations@.len(),
            mutated(content@, views(deprecations@).take(i as int)) == Some(body@),
        decreases n - i,
    {
        assert(views(deprecations@).take(i + 1).drop_last() =~= views(deprecations@).take(
            i as int,
        ));
        match &deprecations[i] {
            Deprecation::D2024_11_30(d) => {
                body = match mutate2024_11_30(body.as_slice(), d.zone_id.as_str()) {
                    Ok(next) => next,
                    Err(e) => {
                        proof {
                            lemma_failure_is_final(content@, views(deprecations@), i + 1);
                        }
                        return Err(e);
                    },
                };
            },
        }
        i = i + 1;
    }
    assert(views(deprecations@).take(n as int) =~= views(deprecations@));
    Ok(body)
}

/// Once a prefix of the fix-ups has failed, the whole list fails.
pub proof fn lemma_failure_is_final(
    content: Seq<u8>,
    deprecations: Seq<DeprecationView>,
    k: int,
)
    requires
        0 <= k <= deprecations.len(),
        mutated(content, deprecations.take(k)) is None,
    ensures
        mutated(content, deprecations) is None,
    decreases deprecations.len() - k,
{
    if k < deprecations.len() {
        assert(deprecations.take(k + 1).drop_last() =~= deprecations.take(k));
        lemma_failure_is_final(content, deprecations, k + 1);
    } else {
        assert(deprecations.take(k) =~= deprecations);
    }
}

/// Fix-ups compose: a list of them does what its first part does, followed by
/// what the rest does to the outcome.
pub proof fn lemma_mutations_compose(
    content: Seq<u8>,
    first: Seq<DeprecationView>,
    rest: Seq<DeprecationView>,
)
    ensures
        mutated(content, first + rest) == match mutated(content, first) {
            Some(body) => mutated(body, rest),
            None => None,
        },
    decreases rest.len(),
{
    if rest.len() == 0 {
    } else {
        lemma_mutations_compose(content, first, rest.drop_last());
        assert((first + rest).drop_last() =~= first + rest.drop_last());
    }
}

/// A document that lists no records is not changed.
pub proof fn lemma_without_records_nothing_changes(doc: Json, zone_id: Seq<char>)
    requires
        !has_records(doc),
    ensures
        patched(doc, zone_id) == doc,
{
}

/// A body that is JSON but lists no records comes out of every list of
/// fix-ups as it went in, byte for byte.
pub proof fn lemma_body_without_records_is_unchanged(
    content: Seq<u8>,
    deprecations: Seq<DeprecationView>,
)
    requires
        json_parse(content) matches Some(doc) && !has_records(doc),
    ensures
        mutated(content, deprecations) == Some(content),
    decreases deprecations.len(),
{
    if deprecations.len() > 0 {
        lemma_body_without_records_is_unchanged(content, deprecations.drop_last());
    }
}

/// The members of a document: those of an object, none for anything else.
pub open spec fn members_of(doc: Json) -> Map<Seq<char>, Json> {
    match doc {
        Json::Object(members) => members,
        _ => Map::empty(),
    }
}

/// After the fix-up every record that can have members names its zone: the
/// record is an object, its `zone_id` is the zone identifier, and its other
/// members are as before. The list keeps its length, and the members of the
/// document other than `result` are as before.
pub proof fn lemma_every_record_names_its_zone(
    top: Map<Seq<char>, Json>,
    records: Seq<Json>,
    zone_id: Seq<char>,
    i: int,
)
    requires
        top.contains_key("result"@),
        top["result"@] == Json::Array(records),
        0 <= i < records.len(),
        records[i] is Object || records[i] is Null,
    ensures
        ({
            let after = members_of(patched(Json::Object(top), zone_id));
            let patched_records = after["result"@]->Array_0;
            &&& patched(Json::Object(top), zone_id) is Object
            &&& after.dom() == top.dom()
            &&& forall|name: Seq<char>| name != "result"@ ==> after[name] == top[name]
            &&& after["result"@] is Array
            &&& patched_records.len() == records.len()
            &&& patched_records[i] is Object
            &&& members_of(patched_records[i])["zone_id"@] == Json::String(zone_id)
            &&& members_of(patched_records[i]).remove("zone_id"@) == members_of(
                records[i],
            ).remove("zone_id"@)
        }),
{
    let after = members_of(patched(Json::Object(top), zone_id));
    let record = after["result"@]->Array_0[i];
}

} // verus!
