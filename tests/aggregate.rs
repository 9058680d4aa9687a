use mangarss::aggregate::{collect_lenient, collect_strict};
use mangarss::model::{MangaInfo, MangaOid, Timestamp};

fn series(oid: &str) -> MangaInfo {
    MangaInfo::new(MangaOid::new(oid), oid.to_owned(), Timestamp::new(0), vec![])
}

#[test]
fn lenient_aggregation_drops_failures_in_order() {
    let outcomes: Vec<Result<MangaInfo, String>> =
        vec![Ok(series("X")), Err("Y failed".to_owned()), Ok(series("Z"))];
    let r = collect_lenient(outcomes);
    assert_eq!(r.len(), 2);
    assert_eq!(r[0].oid, MangaOid::new("X"));
    assert_eq!(r[1].oid, MangaOid::new("Z"));
}

#[test]
fn lenient_aggregation_of_all_failures_is_empty() {
    let outcomes: Vec<Result<MangaInfo, u8>> = vec![Err(1), Err(2)];
    assert!(collect_lenient(outcomes).is_empty());
}

#[test]
fn strict_aggregation_fails_on_a_failure() {
    let outcomes: Vec<Result<MangaInfo, String>> =
        vec![Ok(series("X")), Err("Y failed".to_owned()), Ok(series("Z"))];
    match collect_strict(outcomes) {
        Ok(_) => panic!("a failed fetch must fail the aggregation"),
        Err(e) => assert_eq!(e, "Y failed"),
    }
}

#[test]
fn strict_aggregation_reports_the_first_failure() {
    let outcomes: Vec<Result<MangaInfo, u8>> = vec![Ok(series("X")), Err(1), Err(2)];
    assert!(matches!(collect_strict(outcomes), Err(1)));
}

#[test]
fn strict_aggregation_keeps_all_series_in_order() {
    let outcomes: Vec<Result<MangaInfo, u8>> = vec![Ok(series("X")), Ok(series("Y"))];
    let r = collect_strict(outcomes).unwrap();
    assert_eq!(r.len(), 2);
    assert_eq!(r[0].oid, MangaOid::new("X"));
    assert_eq!(r[1].oid, MangaOid::new("Y"));
}
