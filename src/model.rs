//! Series, chapters, their identifiers and timestamps.
use crate::date::{rfc2822, rfc2822_of, secs_in_range};
use vstd::prelude::*;

verus! {

/// Identifier of one chapter.
#[derive(Debug, PartialEq, Eq, Clone)]
pub struct ChapterOid(pub String);

impl View for ChapterOid {
    type V = Seq<char>;

    open spec fn view(&self) -> Seq<char> {
        self.0@
    }
}

impl ChapterOid {
    pub fn new(oid: &str) -> (r: ChapterOid)
        ensures
            r@ == oid@,
    {
        ChapterOid(oid.to_owned())
    }

    pub fn as_str(&self) -> (r: &str)
        ensures
            r@ == self@,
    {
        self.0.as_str()
    }
}

/// Identifier of one series.
#[derive(Debug, PartialEq, Eq)]
pub struct MangaOid(pub String);

impl View for MangaOid {
    type V = Seq<char>;

    open spec fn view(&self) -> Seq<char> {
        self.0@
    }
}

impl MangaOid {
    pub fn new(oid: &str) -> (r: MangaOid)
        ensures
            r@ == oid@,
    {
        MangaOid(oid.to_owned())
    }

    pub fn as_str(&self) -> (r: &str)
        ensures
            r@ == self@,
    {
        self.0.as_str()
    }
}

/// Seconds since the Unix epoch.
#[derive(Debug, PartialEq, Eq, Clone, Copy)]
pub struct Timestamp(pub i64);

impl Timestamp {
    pub fn new(ts: i64) -> (r: Timestamp)
        ensures
            r.0 == ts,
    {
        Timestamp(ts)
    }

    /// The instant falls in the years 0 through 9999, which RFC 2822 can write.
    pub open spec fn in_range(&self) -> bool {
        secs_in_range(self.0)
    }

    /// The instant as RFC 2822 text in UTC.
    pub fn to_rfc2822(&self) -> (r: String)
        requires
            self.in_range(),
        ensures
            r@ == rfc2822_of(self.0),
    {
        rfc2822(self.0)
    }
}

/// Abstract value of a chapter.
pub struct ChapterModel {
    pub oid: Seq<char>,
    pub name: Seq<char>,
    pub updated_at: i64,
}

/// A chapter as the upstream API describes it.
#[derive(Debug, Clone)]
pub struct ChapterInfo {
    pub oid: ChapterOid,
    pub name: String,
    pub updated_at: Timestamp,
}

impl View for ChapterInfo {
    type V = ChapterModel;

    open spec fn view(&self) -> ChapterModel {
        ChapterModel { oid: self.oid@, name: self.name@, updated_at: self.updated_at.0 }
    }
}

impl ChapterInfo {
    pub fn new(oid: ChapterOid, name: String, updated_at: Timestamp) -> (r: ChapterInfo)
        ensures
            r.oid == oid,
            r.name == name,
            r.updated_at == updated_at,
    {
        ChapterInfo { oid, name, updated_at }
    }

}

/// Abstract value of a series.
pub struct MangaModel {
    pub oid: Seq<char>,
    pub name: Seq<char>,
    pub last_update: i64,
    pub chapters: Seq<ChapterModel>,
}

/// A series and its chapters, in the order the upstream API lists them.
#[derive(Debug)]
pub struct MangaInfo {
    pub oid: MangaOid,
    pub name: String,
    pub last_update: Timestamp,
    pub chapters: Vec<ChapterInfo>,
}

impl View for MangaInfo {
    type V = MangaModel;

    open spec fn view(&self) -> MangaModel {
        MangaModel {
            oid: self.oid@,
            name: self.name@,
            last_update: self.last_update.0,
            chapters: self.chapters@.map_values(|c: ChapterInfo| c@),
        }
    }
}

impl MangaInfo {
    pub fn new(oid: MangaOid, name: String, last_update: Timestamp, chapters: Vec<ChapterInfo>) -> (r:
        MangaInfo)
        ensures
            r.oid == oid,
            r.name == name,
            r.last_update == last_update,
            r.chapters == chapters,
    {
        MangaInfo { oid, name, last_update, chapters }
    }

}

} // verus!
