use mangarss::client::{info_from_body, info_url, MangaError};
use mangarss::model::{MangaInfo, MangaOid, Timestamp};
use mangarss::parser::{
    chapter_from_json, manga_from_json, parse_manga_info, series_from_document, ParseError,
};

#[test]
fn serde_should_work() {
    let data = r#"
       {
	"code": 0,
	"data": {
		"mid": 553712,
		"oid": "mrs-serie-35593",
		"name": "Boruto: Naruto Next Generations",
		"author": "Ukyo Kodachi",
		"rank": 199,
		"msid": 71,
		"completed": false,
		"last_update": 1555711356,
		"removed": false,
		"direction": 1,
		"total_chapters": 35,
		"description": "Naruto was a young shinobi with an incorrigible knack for mischief. He achieved his dream to become the greatest ninja in the village and his face sits atop the Hokage monument. But this is not his story... A new generation of ninja are ready to take the stage, led by Naruto's own son, Boruto!",
		"categories": [1, 2, 3, 4, 5, 8, 27, 41],
		"chapters": [{
			"cid": 28834048,
			"oid": "mrs-chapter-100410084",
			"order": 31,
			"name": "Vol.TBD Chapter 31: Monster...!",
			"updatedAt": 1548474140
		}, {
			"cid": 28983642,
			"oid": "mrs-chapter-100426942",
			"order": 32,
			"name": "Vol.TBD Chapter 32: A Sense of Duty",
			"updatedAt": 1550854922
		}, {
			"cid": 29112284,
			"oid": "mrs-chapter-200002666",
			"order": 33,
			"name": "Vol.TBD Chapter 33: Breaking The Limit",
			"updatedAt": 1553223666
		}, {
			"cid": 29227830,
			"oid": "mrs-chapter-200023474",
			"order": 34,
			"name": "Vol.TBD Chapter 34: Training!!",
			"updatedAt": 1555711346
		}],
		"thumbnail": "https://f01.mrcdn.info/file/mrportal/i/5/8/3/G3.6PwgFb_B.jpg",
		"cover": "https://f01.mrcdn.info/file/mrportal/h/c/3/0/J_.h_1FHZfW.jpg",
		"artworks": ["https://f01.mrcdn.info/file/mrportal/i/5/8/2/46.jrpZSy5Z.jpg", "https://f01.mrcdn.info/file/mrportal/i/5/8/2/4k.dTA7v5Tr.jpg", "https://f01.mrcdn.info/file/mrportal/j/3/7/4/b-.1uiOTSCI.jpg"],
		"alias": ["Boruto: Naruto Next Generation", "BORUTO-NARUTO NEXT GENERATIONS-", "Boruto"],
		"characters": [{
			"oid": "mrs-character-311684",
			"name": "Mitsuki",
			"thumbnail": "https://f01.mrcdn.info/file/mrportal/h/6/r/5/ir.gzDRU8YT.png"
		}, {
			"oid": "mrs-character-311685",
			"name": "Sarada Uchiha",
			"thumbnail": "https://f01.mrcdn.info/file/mrportal/h/6/r/3/s9.2-Ug0Zfx.png"
		}],
		"authors": [{
			"oid": "mrs-author-306911",
			"name": "Ukyo Kodachi",
			"thumbnail": "https://f01.mrcdn.info/file/mrportal/i/5/7/g/ej.vP9TUgn.jpg",
			"role": "story"
		}, {
			"oid": "mrs-author-311666",
			"name": "Mikio Ikemoto",
			"thumbnail": "",
			"role": "art"
		}],
		"rich_categories": [{
			"oid": "mrs-genre-304068",
			"name": "Action"
		}, {
			"oid": "mrs-genre-304069",
			"name": "Comedy"
		}],
		"extra": {
			"English Publisher": "Viz",
			"Original Publisher": "Shueisha ",
			"Published": "May 9, 2016 ",
			"Serialization": "Shuukan Shounen Jump"
		},
		"mrs_series": null
	}
}"#;

    let v: MangaInfo = parse_manga_info(data).unwrap();

    assert_eq!(v.oid, MangaOid("mrs-serie-35593".to_owned()));
    assert_eq!(v.last_update, Timestamp(1555711356));
    assert_eq!(v.chapters.len(), 4);
}

const SMALL: &str = r#"{"code": 0, "data": {"oid": "mrs-serie-1", "name": "One", "last_update": 42,
  "extra": [1, 2], "chapters": [
    {"oid": "mrs-chapter-7", "name": "first", "updatedAt": 10, "order": 1},
    {"oid": "mrs-chapter-8", "name": "second", "updatedAt": -5}
  ]}}"#;

#[test]
fn parse_keeps_every_field() {
    let v = parse_manga_info(SMALL).unwrap();
    assert_eq!(v.oid.as_str(), "mrs-serie-1");
    assert_eq!(v.name, "One");
    assert_eq!(v.last_update, Timestamp::new(42));
    assert_eq!(v.chapters.len(), 2);
    assert_eq!(v.chapters[0].oid.as_str(), "mrs-chapter-7");
    assert_eq!(v.chapters[0].name, "first");
    assert_eq!(v.chapters[0].updated_at, Timestamp::new(10));
    assert_eq!(v.chapters[1].oid.as_str(), "mrs-chapter-8");
    assert_eq!(v.chapters[1].name, "second");
    assert_eq!(v.chapters[1].updated_at, Timestamp::new(-5));
}

#[test]
fn parse_of_empty_chapter_list() {
    let v = parse_manga_info(
        r#"{"data": {"oid": "a", "name": "b", "last_update": 0, "chapters": []}}"#,
    )
    .unwrap();
    assert_eq!(v.chapters.len(), 0);
}

#[test]
fn malformed_json_is_invalid_json() {
    let r = parse_manga_info(r#"{"data": {"oid": "a""#);
    assert!(matches!(r, Err(ParseError::InvalidJson(_))));
    assert!(matches!(parse_manga_info(""), Err(ParseError::InvalidJson(_))));
}

#[test]
fn missing_envelope_is_reported() {
    let r = parse_manga_info(r#"{"oid": "a", "name": "b", "last_update": 0, "chapters": []}"#);
    assert!(matches!(r, Err(ParseError::MissingEnvelope)));
    assert!(matches!(parse_manga_info("[1, 2]"), Err(ParseError::MissingEnvelope)));
    assert!(matches!(parse_manga_info("17"), Err(ParseError::MissingEnvelope)));
}

#[test]
fn missing_or_mistyped_fields_are_invalid_series() {
    let cases = [
        r#"{"data": {"name": "b", "last_update": 0, "chapters": []}}"#,
        r#"{"data": {"oid": "a", "last_update": 0, "chapters": []}}"#,
        r#"{"data": {"oid": "a", "name": "b", "chapters": []}}"#,
        r#"{"data": {"oid": "a", "name": "b", "last_update": 0}}"#,
        r#"{"data": {"oid": "a", "name": "b", "last_update": "0", "chapters": []}}"#,
        r#"{"data": {"oid": "a", "name": "b", "last_update": 1.5, "chapters": []}}"#,
        r#"{"data": {"oid": 3, "name": "b", "last_update": 0, "chapters": []}}"#,
        r#"{"data": {"oid": "a", "name": "b", "last_update": 0, "chapters": {}}}"#,
        r#"{"data": {"oid": "a", "name": "b", "last_update": 0, "chapters": [{"oid": "c", "name": "d", "updatedat": 1}]}}"#,
        r#"{"data": {"oid": "a", "name": "b", "last_update": 0, "chapters": [{"oid": "c", "name": "d", "updatedAt": 1}, 5]}}"#,
        r#"{"data": null}"#,
    ];
    for case in cases.iter() {
        assert!(matches!(parse_manga_info(case), Err(ParseError::InvalidSeries)), "{}", case);
    }
}

#[test]
fn documents_read_from_values() {
    let doc: serde_json::Value = serde_json::from_str(SMALL).unwrap();
    let v = series_from_document(&doc).unwrap();
    assert_eq!(v.chapters.len(), 2);
    let payload = doc.get("data").unwrap();
    let m = manga_from_json(payload).unwrap();
    assert_eq!(m.name, "One");
    let first = &payload.get("chapters").unwrap().as_array().unwrap()[0];
    let c = chapter_from_json(first).unwrap();
    assert_eq!(c.name, "first");
    assert!(chapter_from_json(payload).is_none());
    assert!(manga_from_json(&doc).is_none());
}

#[test]
fn info_url_carries_the_identifier() {
    assert_eq!(
        info_url(&MangaOid::new("mrs-serie-288364")),
        "https://api.mangarockhd.com/query/web401/info?oid=mrs-serie-288364"
    );
}

#[test]
fn body_errors_are_serde_errors() {
    assert!(matches!(
        info_from_body("not json"),
        Err(MangaError::SerdeError(ParseError::InvalidJson(_)))
    ));
    assert!(matches!(
        info_from_body("{}"),
        Err(MangaError::SerdeError(ParseError::MissingEnvelope))
    ));
    assert_eq!(info_from_body(SMALL).unwrap().name, "One");
}
