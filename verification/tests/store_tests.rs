use clipvault::clip::{Clip, ClipItem};
use clipvault::store::{
    decode_clip, decode_tags, delete_item, encode_clip, get_items, row_to_item, save_clip,
    PersistenceError, StoredRow,
};

fn row(id: i64, clip_json: &str, tags_json: Option<&str>) -> StoredRow {
    StoredRow {
        id,
        clip_json: clip_json.to_string(),
        created_at: "2024-05-01 10:00:00".to_string(),
        category: Some("notes".to_string()),
        summary: None,
        tags_json: tags_json.map(|t| t.to_string()),
    }
}

#[test]
fn a_text_is_written_with_its_kind() {
    let clip = Clip::Text { plain: "say \"hi\"\n".to_string() };
    assert_eq!(
        encode_clip(&clip),
        Some("{\"type\":\"text\",\"content\":\"say \\\"hi\\\"\\n\"}".to_string())
    );
}

#[test]
fn an_image_is_written_with_its_dimensions() {
    let clip = Clip::Image { data: "aGk=".to_string(), width: 12, height: 7 };
    assert_eq!(
        encode_clip(&clip),
        Some("{\"type\":\"image\",\"content\":\"aGk=\",\"width\":12,\"height\":7}".to_string())
    );
}

#[test]
fn a_written_capture_reads_back() {
    for clip in [
        Clip::Text { plain: "line\n\"quoted\" \\ é \u{1F600}".to_string() },
        Clip::Text { plain: String::new() },
        Clip::Image { data: "aGk=".to_string(), width: 1920, height: 1080 },
    ] {
        let written = encode_clip(&clip).unwrap();
        assert_eq!(decode_clip(&written), Ok(clip));
    }
}

#[test]
fn a_record_carries_capture_category_summary_and_tags() {
    let clip = Clip::Text { plain: "https://example.com".to_string() };
    let tags = vec!["reference".to_string(), "a\"b".to_string()];
    let record = save_clip(&clip, "url", &Some("- page".to_string()), &tags).unwrap();
    assert_eq!(record.clip_json, "{\"type\":\"text\",\"content\":\"https://example.com\"}");
    assert_eq!(record.category, "url");
    assert_eq!(record.summary, Some("- page".to_string()));
    assert_eq!(record.tags_json, "[\"reference\",\"a\\\"b\"]");
    let bare = save_clip(&clip, "url", &None, &vec![]).unwrap();
    assert_eq!(bare.summary, None);
    assert_eq!(bare.tags_json, "[]");
}

#[test]
fn stored_captures_are_read_by_kind() {
    assert_eq!(
        decode_clip("{\"content\":\"hello\",\"type\":\"text\",\"category\":\"x\"}"),
        Ok(Clip::Text { plain: "hello".to_string() })
    );
    assert_eq!(
        decode_clip("{\"type\":\"image\",\"content\":\"aGk=\",\"width\":3,\"height\":4}"),
        Ok(Clip::Image { data: "aGk=".to_string(), width: 3, height: 4 })
    );
}

#[test]
fn missing_fields_read_as_empty_or_zero() {
    assert_eq!(decode_clip("{\"type\":\"text\"}"), Ok(Clip::Text { plain: String::new() }));
    assert_eq!(
        decode_clip("{\"type\":\"image\",\"width\":-3}"),
        Ok(Clip::Image { data: String::new(), width: 0, height: 0 })
    );
}

#[test]
fn an_unknown_kind_reads_as_a_text_that_says_so() {
    let invalid = Clip::Text { plain: "Invalid clip type".to_string() };
    assert_eq!(decode_clip("{\"type\":\"video\",\"content\":\"x\"}"), Ok(invalid.clone()));
    assert_eq!(decode_clip("{\"content\":\"x\"}"), Ok(invalid.clone()));
    assert_eq!(decode_clip("[1,2]"), Ok(invalid));
}

#[test]
fn a_stored_capture_that_is_no_json_is_an_error() {
    assert_eq!(decode_clip("{\"type\":"), Err(PersistenceError::InvalidRecord));
    assert_eq!(decode_clip(""), Err(PersistenceError::InvalidRecord));
}

#[test]
fn absent_tags_are_not_an_empty_list() {
    assert_eq!(decode_tags(&None), None);
    assert_eq!(decode_tags(&Some("null".to_string())), None);
    assert_eq!(decode_tags(&Some("[]".to_string())), Some(vec![]));
    assert_eq!(
        decode_tags(&Some("[\"a\",\"b\"]".to_string())),
        Some(vec!["a".to_string(), "b".to_string()])
    );
    assert_eq!(decode_tags(&Some("[1]".to_string())), None);
    assert_eq!(decode_tags(&Some("oops".to_string())), None);
}

#[test]
fn a_row_becomes_a_record() {
    let item = row_to_item(&row(17, "{\"type\":\"text\",\"content\":\"hi\"}", Some("[\"t\"]")));
    assert_eq!(
        item,
        Ok(ClipItem {
            id: "17".to_string(),
            clip: Clip::Text { plain: "hi".to_string() },
            category: Some("notes".to_string()),
            summary: None,
            tags: Some(vec!["t".to_string()]),
            created_at: "2024-05-01 10:00:00".to_string(),
        })
    );
}

#[test]
fn a_listing_keeps_the_order_of_the_rows() {
    let rows = vec![
        row(3, "{\"type\":\"text\",\"content\":\"newest\"}", None),
        row(2, "{\"type\":\"text\",\"content\":\"older\"}", None),
        row(-1, "{\"type\":\"text\",\"content\":\"oldest\"}", None),
    ];
    let items = get_items(&rows).unwrap();
    let ids: Vec<&str> = items.iter().map(|i| i.id.as_str()).collect();
    assert_eq!(ids, vec!["3", "2", "-1"]);
    assert_eq!(items[0].clip, Clip::Text { plain: "newest".to_string() });
    assert_eq!(items[2].tags, None);
    assert_eq!(get_items(&vec![]), Ok(vec![]));
}

#[test]
fn a_listing_fails_on_a_row_that_is_no_json() {
    let rows = vec![row(1, "{\"type\":\"text\"}", None), row(2, "broken", None)];
    assert_eq!(get_items(&rows), Err(PersistenceError::InvalidRecord));
}

#[test]
fn deleting_nothing_is_not_found() {
    assert_eq!(delete_item("17", 0), Err(PersistenceError::NotFound));
    assert_eq!(delete_item("17", 1), Ok("17".to_string()));
}
