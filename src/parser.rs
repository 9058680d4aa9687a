//! Reading a series from the upstream API's JSON document.
use crate::json::{json_data, member, parse_value, parsed_json, JsonData};
use crate::model::{ChapterInfo, ChapterModel, ChapterOid, MangaInfo, MangaModel, MangaOid, Timestamp};
use vstd::prelude::*;

verus! {

/// Why a document does not give a series.
#[derive(Debug)]
pub enum ParseError {
    /// The text is not JSON.
    InvalidJson(serde_json::Error),
    /// The document is not an object with a `data` member.
    MissingEnvelope,
    /// The `data` member lacks a field of the series or of a chapter, or has
    /// one of the wrong type.
    InvalidSeries,
}

/// The member `key` of an object.
pub open spec fn member_of(d: JsonData, key: Seq<char>) -> Option<JsonData> {
    match d {
        JsonData::Object(o) => if o.contains_key(key) {
            Some(o[key])
        } else {
            None
        },
        _ => None,
    }
}

/// The text of a string value.
pub open spec fn text_of(d: Option<JsonData>) -> Option<Seq<char>> {
    match d {
        Some(JsonData::Text(s)) => Some(s),
        _ => None,
    }
}

/// The integer of a number value that fits in an `i64`.
pub open spec fn int_of(d: Option<JsonData>) -> Option<i64> {
    match d {
        Some(JsonData::Number(n)) => n,
        _ => None,
    }
}

/// The chapter that a JSON object describes by `oid`, `name` and `updatedAt`;
/// other members are ignored.
pub open spec fn chapter_of(d: JsonData) -> Option<ChapterModel> {
    match (
        text_of(member_of(d, "oid"@)),
        text_of(member_of(d, "name"@)),
        int_of(member_of(d, "updatedAt"@)),
    ) {
        (Some(oid), Some(name), Some(t)) => Some(ChapterModel { oid, name, updated_at: t }),
        _ => None,
    }
}

/// The chapters that a JSON array describes, all of them or none.
pub open spec fn chapters_of(items: Seq<JsonData>) -> Option<Seq<ChapterModel>> {
    if forall|i: int| 0 <= i < items.len() ==> (#[trigger] chapter_of(items[i])) is Some {
        Some(items.map_values(|d: JsonData| chapter_of(d)->0))
    } else {
        None
    }
}

/// The series that a JSON object describes by `oid`, `name`, `last_update`
/// and `chapters`; other members are ignored.
pub open spec fn manga_of(d: JsonData) -> Option<MangaModel> {
    match (
        text_of(member_of(d, "oid"@)),
        text_of(member_of(d, "name"@)),
        int_of(member_of(d, "last_update"@)),
        member_of(d, "chapters"@),
    ) {
        (Some(oid), Some(name), Some(t), Some(JsonData::List(items))) => match chapters_of(items) {
            Some(chapters) => Some(MangaModel { oid, name, last_update: t, chapters }),
            None => None,
        },
        _ => None,
    }
}

/// The outcome of reading a series from the JSON value `d`, which wraps it
/// under the key `data`.
pub open spec fn document_result(d: JsonData, r: Result<MangaInfo, ParseError>) -> bool {
    match member_of(d, "data"@) {
        None => r matches Err(ParseError::MissingEnvelope),
        Some(payload) => match manga_of(payload) {
            None => r matches Err(ParseError::InvalidSeries),
            Some(m) => r matches Ok(info) && info@ == m,
        },
    }
}

/// The outcome of reading a series from the text `data`.
pub open spec fn parse_result(data: Seq<char>, r: Result<MangaInfo, ParseError>) -> bool {
    match parsed_json(data) {
        None => r matches Err(ParseError::InvalidJson(_)),
        Some(d) => document_result(d, r),
    }
}

fn text_member<'a>(v: &'a serde_json::Value, key: &str) -> (r: Option<&'a str>)
    ensures
        match r {
            Some(s) => text_of(member_of(json_data(*v), key@)) == Some(s@),
            None => text_of(member_of(json_data(*v), key@)) is None,
        },
{
    match member(v, key) {
        Some(x) => x.as_str(),
        None => None,
    }
}

fn int_member(v: &serde_json::Value, key: &str) -> (r: Option<i64>)
    ensures
        r == int_of(member_of(json_data(*v), key@)),
{
    match member(v, key) {
        Some(x) => x.as_i64(),
        None => None,
    }
}

/// The chapter that the JSON object `v` describes.
pub fn chapter_from_json(v: &serde_json::Value) -> (r: Option<ChapterInfo>)
    ensures
        match r {
            Some(c) => chapter_of(json_data(*v)) == Some(c@),
            None => chapter_of(json_data(*v)) is None,
        },
{
    let oid = text_member(v, "oid");
    let name = text_member(v, "name");
    let updated = int_member(v, "updatedAt");
    proof {
        reveal_strlit("oid");
        reveal_strlit("name");
        reveal_strlit("updatedAt");
    }
    match (oid, name, updated) {
        (Some(oid), Some(name), Some(t)) => Some(
            ChapterInfo::new(ChapterOid::new(oid), name.to_owned(), Timestamp::new(t)),
        ),
        _ => None,
    }
}

/// The chapters that the JSON array `items` describes, all of them or none.
fn chapters_from_json(items: &Vec<serde_json::Value>) -> (r: Option<Vec<ChapterInfo>>)
    ensures
        match r {
            Some(cs) => chapters_of(items@.map_values(|x: serde_json::Value| json_data(x))) == Some(
                cs@.map_values(|c: ChapterInfo| c@),
            ),
            None => chapters_of(items@.map_values(|x: serde_json::Value| json_data(x))) is None,
        },
{
    let ghost ds = items@.map_values(|x: serde_json::Value| json_data(x));
    let mut cs: Vec<ChapterInfo> = Vec::new();
    let mut i: usize = 0;
    while i < items.len()
        invariant
            i <= items@.len(),
            ds == items@.map_values(|x: serde_json::Value| json_data(x)),
            cs@.len() == i,
            forall|k: int| 0 <= k < i ==> (#[trigger] chapter_of(ds[k])) == Some(cs@[k]@),
        decreases items@.len() - i,
    {
        match chapter_from_json(&items[i]) {
            Some(c) => {
                cs.push(c);
            },
            None => {
                assert(chapter_of(ds[i as int]) is None);
                return None;
            },
        }
        i = i + 1;
    }
    assert(cs@.map_values(|c: ChapterInfo| c@) =~= ds.map_values(|d: JsonData| chapter_of(d)->0));
    Some(cs)
}

/// The series that the JSON object `v` describes.
pub fn manga_from_json(v: &serde_json::Value) -> (r: Option<MangaInfo>)
    ensures
        match r {
            Some(m) => manga_of(json_data(*v)) == Some(m@),
            None => manga_of(json_data(*v)) is None,
        },
{
    let oid = text_member(v, "oid");
    let name = text_member(v, "name");
    let last_update = int_member(v, "last_update");
    let chapters = member(v, "chapters");
    proof {
        reveal_strlit("oid");
        reveal_strlit("name");
        reveal_strlit("last_update");
        reveal_strlit("chapters");
    }
    match (oid, name, last_update, chapters) {
        (Some(oid), Some(name), Some(t), Some(list)) => match list.as_array() {
            Some(items) => match chapters_from_json(items) {
                Some(cs) => Some(MangaInfo::new(MangaOid::new(oid), name.to_owned(), Timestamp::new(t), cs)),
                None => None,
            },
            None => None,
        },
        _ => None,
    }
}

/// Reads the series that the JSON value `doc` wraps under the key `data`.
pub fn series_from_document(doc: &serde_json::Value) -> (r: Result<MangaInfo, ParseError>)
    ensures
        document_result(json_data(*doc), r),
{
    proof {
        reveal_strlit("data");
    }
    match member(doc, "data") {
        None => Err(ParseError::MissingEnvelope),
        Some(payload) => match manga_from_json(payload) {
            Some(m) => Ok(m),
            None => Err(ParseError::InvalidSeries),
        },
    }
}

/// Reads a series from the text of the upstream API's answer: a JSON object
/// that wraps the series under the key `data`.
pub fn parse_manga_info(data: &str) -> (r: Result<MangaInfo, ParseError>)
    ensures
        parse_result(data@, r),
{
    match parse_value(data) {
        Ok(doc) => series_from_document(&doc),
        Err(e) => Err(ParseError::InvalidJson(e)),
    }
}

/// A document that describes a series is read whole: the series has as many
/// chapters as its `chapters` array has elements, and every identifier, name
/// and time is the one written in the document.
pub proof fn lemma_parse_keeps_fields(data: Seq<char>, r: Result<MangaInfo, ParseError>)
    requires
        parse_result(data, r),
        parsed_json(data) matches Some(d) && member_of(d, "data"@) matches Some(p) && manga_of(
            p,
        ) is Some,
    ensures
        ({
            let p = member_of(parsed_json(data)->0, "data"@)->0;
            let items = member_of(p, "chapters"@)->0->List_0;
            r matches Ok(info) && info.oid@ == text_of(member_of(p, "oid"@))->0 && info.name@
                == text_of(member_of(p, "name"@))->0 && info.last_update.0 == int_of(
                member_of(p, "last_update"@),
            )->0 && info.chapters@.len() == items.len() && forall|i: int|
                0 <= i < items.len() ==> {
                    &&& #[trigger] info.chapters@[i].oid@ == text_of(member_of(items[i], "oid"@))->0
                    &&& info.chapters@[i].name@ == text_of(member_of(items[i], "name"@))->0
                    &&& info.chapters@[i].updated_at.0 == int_of(
                        member_of(items[i], "updatedAt"@),
                    )->0
                }
        }),
{
    let p = member_of(parsed_json(data)->0, "data"@)->0;
    let items = member_of(p, "chapters"@)->0->List_0;
    let info = r->Ok_0;
    let m = manga_of(p)->0;
    assert(info@ == m);
    assert(m.chapters == items.map_values(|d: JsonData| chapter_of(d)->0));
    assert(info@.chapters == info.chapters@.map_values(|c: ChapterInfo| c@));
    assert(info.chapters@.len() == items.len());
    assert forall|i: int| 0 <= i < items.len() implies {
        &&& #[trigger] info.chapters@[i].oid@ == text_of(member_of(items[i], "oid"@))->0
        &&& info.chapters@[i].name@ == text_of(member_of(items[i], "name"@))->0
        &&& info.chapters@[i].updated_at.0 == int_of(member_of(items[i], "updatedAt"@))->0
    } by {
        assert(chapter_of(items[i]) is Some);
        assert(m.chapters[i] == chapter_of(items[i])->0);
        assert(info@.chapters[i] == info.chapters@[i]@);
    }
}

/// Reading fails on a text that is not JSON, and on a document without the
/// `data` envelope; a failure gives no series at all.
pub proof fn lemma_parse_failures(data: Seq<char>, r: Result<MangaInfo, ParseError>)
    requires
        parse_result(data, r),
    ensures
        parsed_json(data) is None ==> r matches Err(ParseError::InvalidJson(_)),
        parsed_json(data) matches Some(d) && member_of(d, "data"@) is None ==> r matches Err(
            ParseError::MissingEnvelope,
        ),
        r is Ok <==> (parsed_json(data) matches Some(d) && member_of(d, "data"@) matches Some(p)
            && manga_of(p) is Some),
{
}

} // verus!
