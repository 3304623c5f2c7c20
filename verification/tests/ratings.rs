use protondb_lookup::error::LookupError;
use protondb_lookup::json::MAX_DOCUMENT_BYTES;
use protondb_lookup::ratings::{ratings_from, read_ratings, RatingRecord};
use protondb_lookup::reply::Reply;

fn record(fields: [&str; 6]) -> RatingRecord {
    RatingRecord {
        best_reported_tier: fields[0].to_string(),
        current_tier: fields[1].to_string(),
        trending_tier: fields[2].to_string(),
        total_reports: fields[3].to_string(),
        score: fields[4].to_string(),
        confidence: fields[5].to_string(),
    }
}

#[test]
fn full_summary_is_read_field_by_field() {
    let body = b"{\"bestReportedTier\":\"platinum\",\"confidence\":\"strong\",\"score\":0.85,\"tier\":\"gold\",\"total\":1234,\"trendingTier\":\"silver\"}";
    assert_eq!(
        read_ratings(body),
        Ok(record(["\"platinum\"", "\"gold\"", "\"silver\"", "1234", "0.85", "\"strong\""]))
    );
}

#[test]
fn missing_fields_read_as_null() {
    let body = b"{\"tier\":\"gold\"}";
    assert_eq!(
        read_ratings(body),
        Ok(record(["null", "\"gold\"", "null", "null", "null", "null"]))
    );
}

#[test]
fn empty_object_reads_as_all_null() {
    assert_eq!(read_ratings(b"{}"), Ok(record(["null"; 6])));
}

#[test]
fn document_that_is_no_object_reads_as_all_null() {
    for body in [&b"null"[..], &b"[1,2,3]"[..], &b"\"gold\""[..], &b"3"[..]] {
        assert_eq!(read_ratings(body), Ok(record(["null"; 6])));
    }
}

#[test]
fn fields_of_any_type_pass_through() {
    let body = b"{ \"bestReportedTier\" : 7, \"tier\" : [ \"a\", 1 ], \"trendingTier\" : { \"x\" : null }, \"total\" : \"many\", \"score\" : true, \"confidence\" : -2 }";
    assert_eq!(
        read_ratings(body),
        Ok(record(["7", "[\"a\",1]", "{\"x\":null}", "\"many\"", "true", "-2"]))
    );
}

#[test]
fn strings_keep_their_escapes() {
    let body = b"{\"tier\":\"go\\\"ld\\n\"}";
    let read = read_ratings(body).unwrap();
    assert_eq!(read.current_tier, "\"go\\\"ld\\n\"");
}

#[test]
fn body_that_is_no_json_is_a_parse_error() {
    for body in [&b""[..], &b"Not Found"[..], &b"{\"tier\":"[..], &b"{\"tier\":\"gold\"}}"[..]] {
        assert_eq!(read_ratings(body), Err(LookupError::Parse));
    }
}

#[test]
fn lost_request_is_a_network_error() {
    assert_eq!(ratings_from(&Reply::Lost), Err(LookupError::Network));
}

#[test]
fn reply_with_body_is_read() {
    assert_eq!(
        ratings_from(&Reply::Body(b"{\"total\":5}".to_vec())),
        Ok(record(["null", "null", "null", "5", "null", "null"]))
    );
    assert_eq!(ratings_from(&Reply::Body(b"<html>".to_vec())), Err(LookupError::Parse));
}

#[test]
fn ratings_body_beyond_the_limit_is_a_parse_error() {
    let mut body = b"{\"tier\":\"gold\"}".to_vec();
    body.resize(MAX_DOCUMENT_BYTES + 1, b' ');
    assert_eq!(read_ratings(&body), Err(LookupError::Parse));
    assert_eq!(ratings_from(&Reply::Body(body)), Err(LookupError::Parse));
}

#[test]
fn ratings_body_at_the_limit_is_read() {
    let mut body = b"{\"tier\":\"gold\"}".to_vec();
    body.resize(MAX_DOCUMENT_BYTES, b' ');
    assert_eq!(
        read_ratings(&body),
        Ok(record(["null", "\"gold\"", "null", "null", "null", "null"]))
    );
}
