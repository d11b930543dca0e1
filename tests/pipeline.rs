use playlist_views::{
    catalog_from_body, enrich, parse_count, rank, render, render_block, resolve, statistic_from_body,
    statistic_from_field, CatalogItem, EnrichedRecord, ErrorKind, FanOut, PipelineError, Slot,
};

fn item(title: &str, id: &str) -> CatalogItem {
    CatalogItem::new(title.to_string(), id.to_string(), format!("https://img/{}.jpg", id))
}

fn record(title: &str, statistic: u64, index: usize) -> EnrichedRecord {
    EnrichedRecord::from_item(&item(title, &title.to_lowercase()), statistic, index)
}

fn failure(id: &str) -> PipelineError {
    PipelineError::new(ErrorKind::UpstreamRequestFailed, Some(id.to_string()), "timed out".to_string())
}

#[test]
fn parse_count_reads_digits() {
    assert_eq!(parse_count("0"), Some(0));
    assert_eq!(parse_count("12345"), Some(12345));
    assert_eq!(parse_count("18446744073709551615"), Some(u64::MAX));
    assert_eq!(parse_count("+42"), Some(42));
}

#[test]
fn parse_count_refuses_other_text() {
    assert_eq!(parse_count(""), None);
    assert_eq!(parse_count("12a"), None);
    assert_eq!(parse_count("-5"), None);
    assert_eq!(parse_count("+"), None);
    assert_eq!(parse_count("++1"), None);
    assert_eq!(parse_count("1+"), None);
    assert_eq!(parse_count("18446744073709551616"), None);
}

#[test]
fn missing_or_odd_field_gives_zero() {
    assert_eq!(statistic_from_field(None), 0);
    assert_eq!(statistic_from_field(Some("many")), 0);
    assert_eq!(statistic_from_field(Some("977")), 977);
}

#[test]
fn statistics_reply_is_read() {
    let body = r#"{"items":[{"statistics":{"viewCount":"1234567","likeCount":"3"}}]}"#;
    assert_eq!(statistic_from_body("v1", body).unwrap(), 1234567);
}

#[test]
fn statistics_reply_without_count_gives_zero() {
    let body = r#"{"items":[{"statistics":{"likeCount":"3"}}]}"#;
    assert_eq!(statistic_from_body("v1", body).unwrap(), 0);
    assert_eq!(statistic_from_body("v1", r#"{"items":[]}"#).unwrap(), 0);
    let numeric = r#"{"items":[{"statistics":{"viewCount":12}}]}"#;
    assert_eq!(statistic_from_body("v1", numeric).unwrap(), 0);
}

#[test]
fn malformed_statistics_reply_is_an_error() {
    for body in ["", "not json", "<html>", "{}", r#"{"error":{"code":403}}"#, r#"{"items":7}"#] {
        let e = statistic_from_body("v9", body).unwrap_err();
        assert_eq!(e.kind, ErrorKind::MalformedResponse);
        assert_eq!(e.item_id.as_deref(), Some("v9"));
    }
}

#[test]
fn transport_failure_names_the_item() {
    let e = resolve("v2", Err("connection reset".to_string())).unwrap_err();
    assert_eq!(e.kind, ErrorKind::UpstreamRequestFailed);
    assert_eq!(e.item_id.as_deref(), Some("v2"));
    assert_eq!(e.cause, "connection reset");
    let ok = resolve("v2", Ok(r#"{"items":[{"statistics":{"viewCount":"200"}}]}"#.to_string()));
    assert_eq!(ok.unwrap(), 200);
}

#[test]
fn catalog_reply_is_read_in_order() {
    let body = r#"{"items":[
        {"snippet":{"title":"A","resourceId":{"videoId":"v1"},
                    "thumbnails":{"default":{"url":"https://img/a.jpg"}}}},
        {"snippet":{"title":"B","resourceId":{"videoId":"v2"}}}
    ]}"#;
    let items = catalog_from_body(body).unwrap();
    assert_eq!(items.len(), 2);
    assert_eq!(items[0].title, "A");
    assert_eq!(items[0].id, "v1");
    assert_eq!(items[0].thumbnail_url, "https://img/a.jpg");
    assert_eq!(items[1].id, "v2");
    assert_eq!(items[1].thumbnail_url, "");
}

#[test]
fn malformed_catalog_reply_is_an_error() {
    let no_id = r#"{"items":[{"snippet":{"title":"A","resourceId":{}}}]}"#;
    let no_title = r#"{"items":[{"snippet":{"resourceId":{"videoId":"v1"}}}]}"#;
    let empty_id = r#"{"items":[{"snippet":{"title":"A","resourceId":{"videoId":""}}}]}"#;
    for body in ["", "[1,", "{}", r#"{"kind":"x"}"#, r#"{"items":{}}"#, no_id, no_title, empty_id] {
        let e = catalog_from_body(body).unwrap_err();
        assert_eq!(e.kind, ErrorKind::MalformedResponse);
        assert_eq!(e.item_id, None);
    }
    assert_eq!(catalog_from_body(r#"{"items":[]}"#).unwrap().len(), 0);
}

#[test]
fn enrich_joins_every_item() {
    let items = vec![item("A", "v1"), item("B", "v2"), item("C", "v3")];
    let records = enrich(&items, &vec![Ok(50), Ok(200), Ok(7)]).unwrap();
    assert_eq!(records.len(), 3);
    let ids: Vec<&str> = records.iter().map(|r| r.id.as_str()).collect();
    assert_eq!(ids, vec!["v1", "v2", "v3"]);
    assert_eq!(records[1].statistic, 200);
    assert_eq!(records[1].index, 1);
    assert_eq!(records[1].permalink, "https://www.youtube.com/watch?v=v2");
    assert_eq!(records[1].thumbnail_url, "https://img/v2.jpg");
}

#[test]
fn enrich_fails_fast_on_one_failure() {
    let items = vec![item("A", "v1"), item("B", "v2"), item("C", "v3")];
    let e = enrich(&items, &vec![Ok(50), Err(failure("v2")), Ok(7)]).unwrap_err();
    assert_eq!(e.kind, ErrorKind::UpstreamRequestFailed);
    assert_eq!(e.item_id.as_deref(), Some("v2"));
}

#[test]
fn enrich_reports_the_first_of_several_failures() {
    let items = vec![item("A", "v1"), item("B", "v2"), item("C", "v3")];
    let e = enrich(&items, &vec![Ok(1), Err(failure("v2")), Err(failure("v3"))]).unwrap_err();
    assert_eq!(e.item_id.as_deref(), Some("v2"));
}

#[test]
fn rank_orders_by_statistic_then_index() {
    let ranked = rank(vec![record("A", 5, 0), record("B", 9, 1), record("C", 5, 2), record("D", 0, 3)]);
    let titles: Vec<&str> = ranked.iter().map(|r| r.title.as_str()).collect();
    assert_eq!(titles, vec!["B", "A", "C", "D"]);
    let reversed = rank(vec![record("C", 5, 2), record("A", 5, 0)]);
    assert_eq!(reversed[0].title, "A");
    assert!(rank(Vec::new()).is_empty());
}

#[test]
fn render_respects_the_limit() {
    let list = vec![record("A", 3, 0), record("B", 2, 1), record("C", 1, 2)];
    assert_eq!(render(&list, 2).unwrap().len(), 2);
    assert_eq!(render(&list, 0).unwrap().len(), 3);
    assert_eq!(render(&list, 10).unwrap().len(), 3);
    assert_eq!(render(&Vec::new(), 4).unwrap().len(), 0);
    assert_eq!(render(&Vec::new(), 0).unwrap().len(), 0);
}

#[test]
fn negative_limit_is_refused() {
    let list = vec![record("A", 3, 0)];
    assert_eq!(render(&list, -1).unwrap_err().kind, ErrorKind::ValidationError);
}

#[test]
fn block_groups_digits() {
    let r = EnrichedRecord::from_item(&item("Talk", "x9"), 1234567, 0);
    assert_eq!(
        render_block(&r),
        "### Talk \n### view count: 1,234,567\n\n[![thumbnail](https://img/x9.jpg)](https://www.youtube.com/watch?v=x9)\n\n"
    );
    let small = EnrichedRecord::from_item(&item("Talk", "x9"), 200, 0);
    assert!(render_block(&small).contains("view count: 200\n"));
    let round = EnrichedRecord::from_item(&item("Talk", "x9"), 1000, 0);
    assert!(render_block(&round).contains("view count: 1,000\n"));
}

#[test]
fn end_to_end_example() {
    let items = vec![item("A", "v1"), item("B", "v2"), item("C", "v3")];
    let records = enrich(&items, &vec![Ok(50), Ok(200), Ok(200)]).unwrap();
    let ranked = rank(records);
    let order: Vec<(&str, u64)> = ranked.iter().map(|r| (r.title.as_str(), r.statistic)).collect();
    assert_eq!(order, vec![("B", 200), ("C", 200), ("A", 50)]);
    let blocks = render(&ranked, 2).unwrap();
    assert_eq!(blocks.len(), 2);
    assert!(blocks[0].starts_with("### B \n### view count: 200\n"));
    assert!(blocks[1].starts_with("### C \n### view count: 200\n"));
}

#[test]
fn fan_out_keeps_within_the_bound() {
    let items = vec![item("A", "v1"), item("B", "v2"), item("C", "v3")];
    let mut run = FanOut::new(3, 2).unwrap();
    assert_eq!(run.launch(), Some(0));
    assert_eq!(run.launch(), Some(1));
    assert_eq!(run.launch(), None);
    run.complete(1, Ok(200));
    assert_eq!(run.launch(), Some(2));
    assert!(!run.is_done());
    run.complete(0, Ok(50));
    run.complete(2, Ok(200));
    assert!(run.is_done());
    assert_eq!(run.slots, vec![Slot::Found(50), Slot::Found(200), Slot::Found(200)]);
    let records = run.finish(&items).unwrap();
    assert_eq!(records.len(), 3);
    assert_eq!(records[2].id, "v3");
    assert_eq!(records[2].statistic, 200);
}

#[test]
fn fan_out_stops_at_the_first_failure() {
    let items = vec![item("A", "v1"), item("B", "v2"), item("C", "v3")];
    let mut run = FanOut::new(3, 2).unwrap();
    run.launch();
    run.launch();
    run.complete(1, Err(failure("v2")));
    assert!(run.is_done());
    assert_eq!(run.launch(), None);
    run.complete(0, Err(failure("v1")));
    let e = run.finish(&items).unwrap_err();
    assert_eq!(e.item_id.as_deref(), Some("v2"));
}

#[test]
fn fan_out_refuses_a_zero_bound() {
    assert_eq!(FanOut::new(3, 0).unwrap_err().kind, ErrorKind::ValidationError);
    let run = FanOut::new(0, 4).unwrap();
    assert!(run.is_done());
    assert!(run.finish(&Vec::new()).unwrap().is_empty());
}
