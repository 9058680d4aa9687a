//! What the client of the upstream API computes around its one request.
use crate::model::{MangaInfo, MangaOid};
use crate::parser::{parse_manga_info, parse_result, ParseError};
use vstd::prelude::*;

verus! {

/// Why a series could not be had.
#[derive(Debug)]
pub enum MangaError {
    /// The request failed, or the answer's status was not a success; the
    /// message is the HTTP client's.
    ReqwestError(String),
    /// The answer's body does not describe a series.
    SerdeError(ParseError),
}

/// The upstream API's address for the description of series `oid`.
pub open spec fn info_url_text(oid: Seq<char>) -> Seq<char> {
    "https://api.mangarockhd.com/query/web401/info?oid="@ + oid
}

/// The address of the upstream API's description of the series `oid`.
pub fn info_url(oid: &MangaOid) -> (r: String)
    ensures
        r@ == info_url_text(oid@),
{
    let mut r = String::new();
    r.append("https://api.mangarockhd.com/query/web401/info?oid=");
    r.append(oid.as_str());
    r
}

/// The series described by the body of a successful answer.
pub fn info_from_body(body: &str) -> (r: Result<MangaInfo, MangaError>)
    ensures
        match r {
            Ok(m) => parse_result(body@, Ok(m)),
            Err(MangaError::SerdeError(e)) => parse_result(body@, Err(e)),
            Err(MangaError::ReqwestError(_)) => false,
        },
{
    match parse_manga_info(body) {
        Ok(m) => Ok(m),
        Err(e) => Err(MangaError::SerdeError(e)),
    }
}

} // verus!
