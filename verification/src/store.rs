//! The record store seen from the capture cycle: the text written for a
//! capture, the reading of stored rows, and the outcome of a deletion.

use vstd::prelude::*;
use vstd::string::*;
use crate::clip::{string_views, Clip, ClipItem, ClipView};
use crate::enrich::EnrichmentResult;
use crate::json::{
    is_document, json_is_document, json_optional_list, json_quoted, json_string_list,
    json_text_member, json_u64_member, optional_list, quote, string_list, text_member,
    u64_member,
};
use crate::text::{
    decimal_digits, decimal_string, opt_view, signed_decimal_string, signed_digits, str_eq,
};

verus! {

/// Why the store could not do what was asked.
#[derive(Clone, Copy, Debug, PartialEq, Eq, Structural)]
pub enum PersistenceError {
    /// A value could not be written as JSON.
    Serialization,
    /// A stored capture is no JSON document.
    InvalidRecord,
    /// No record has the identifier.
    NotFound,
}

/// The fields of a record that is about to be inserted. The store adds the
/// identifier and the time.
#[derive(Debug, PartialEq, Eq)]
pub struct NewRecord {
    pub clip_json: String,
    pub category: String,
    pub summary: Option<String>,
    pub tags_json: String,
}

/// A row as the store returns it.
#[derive(Debug, PartialEq, Eq)]
pub struct StoredRow {
    pub id: i64,
    pub clip_json: String,
    pub created_at: String,
    pub category: Option<String>,
    pub summary: Option<String>,
    pub tags_json: Option<String>,
}

/// The JSON object written for a capture: its kind under `type`, its
/// payload under `content` and, for an image, its dimensions.
pub open spec fn clip_json_of(clip: ClipView) -> Option<Seq<char>> {
    match clip {
        ClipView::Text { plain } => match json_quoted(plain) {
            Some(q) => Some("{\"type\":\"text\",\"content\":"@ + q + "}"@),
            None => None,
        },
        ClipView::Image { data, width, height } => match json_quoted(data) {
            Some(q) => Some(
                "{\"type\":\"image\",\"content\":"@ + q + ",\"width\":"@ + decimal_digits(width)
                    + ",\"height\":"@ + decimal_digits(height) + "}"@,
            ),
            None => None,
        },
    }
}

/// Writes a capture as a JSON object.
pub fn encode_clip(clip: &Clip) -> (text: Option<String>)
    ensures
        opt_view(text) == clip_json_of(clip@),
{
    match clip {
        Clip::Text { plain } => match quote(plain.as_str()) {
            Some(q) => {
                let mut text: String = String::from_str("{\"type\":\"text\",\"content\":");
                text.append(q.as_str());
                text.append("}");
                Some(text)
            },
            None => None,
        },
        Clip::Image { data, width, height } => match quote(data.as_str()) {
            Some(q) => {
                let mut text: String = String::from_str("{\"type\":\"image\",\"content\":");
                text.append(q.as_str());
                text.append(",\"width\":");
                let w: String = decimal_string(*width as u64);
                text.append(w.as_str());
                text.append(",\"height\":");
                let h: String = decimal_string(*height as u64);
                text.append(h.as_str());
                text.append("}");
                Some(text)
            },
            None => None,
        },
    }
}

/// Builds the record to insert for a capture and its enrichment. It fails
/// only where the capture or the tags cannot be written as JSON.
pub fn save_clip(clip: &Clip, category: &str, summary: &Option<String>, tags: &Vec<String>) -> (record:
    Result<NewRecord, PersistenceError>)
    ensures
        match record {
            Ok(r) => clip_json_of(clip@) == Some(r.clip_json@) && json_string_list(
                string_views(tags@),
            ) == Some(r.tags_json@) && r.category@ == category@ && opt_view(r.summary) == opt_view(
                *summary,
            ),
            Err(e) => e == PersistenceError::Serialization && (clip_json_of(clip@) is None
                || json_string_list(string_views(tags@)) is None),
        },
{
    let clip_json: String = match encode_clip(clip) {
        Some(text) => text,
        None => {
            return Err(PersistenceError::Serialization);
        },
    };
    let tags_json: String = match string_list(tags) {
        Some(text) => text,
        None => {
            return Err(PersistenceError::Serialization);
        },
    };
    let kept: Option<String> = match summary {
        Some(s) => Some(s.clone()),
        None => None,
    };
    Ok(NewRecord { clip_json, category: String::from_str(category), summary: kept, tags_json })
}

/// Merges a capture and its enrichment into the record to insert: the
/// category first, then the summary, then the tags.
pub fn build_record(clip: &Clip, enrichment: &EnrichmentResult) -> (record: Result<
    NewRecord,
    PersistenceError,
>)
    ensures
        match record {
            Ok(r) => clip_json_of(clip@) == Some(r.clip_json@) && json_string_list(
                enrichment@.tags,
            ) == Some(r.tags_json@) && r.category@ == enrichment@.category && opt_view(r.summary)
                == enrichment@.summary,
            Err(e) => e == PersistenceError::Serialization && (clip_json_of(clip@) is None
                || json_string_list(enrichment@.tags) is None),
        },
{
    save_clip(clip, enrichment.category.as_str(), &enrichment.summary, &enrichment.tags)
}

/// The capture that a stored JSON text stands for, or `None` where the text
/// is no JSON document. A missing payload reads as empty, a missing
/// dimension as zero, and an unknown kind as a text that says so.
pub open spec fn decoded_clip(text: Seq<char>) -> Option<ClipView> {
    if !json_is_document(text) {
        None
    } else {
        let content = match json_text_member(text, "content"@) {
            Some(c) => c,
            None => Seq::<char>::empty(),
        };
        let kind = json_text_member(text, "type"@);
        if kind == Some("text"@) {
            Some(ClipView::Text { plain: content })
        } else if kind == Some("image"@) {
            Some(
                ClipView::Image {
                    data: content,
                    width: dimension(json_u64_member(text, "width"@)) as nat,
                    height: dimension(json_u64_member(text, "height"@)) as nat,
                },
            )
        } else {
            Some(ClipView::Text { plain: "Invalid clip type"@ })
        }
    }
}

/// A stored dimension as a size; a missing one is zero.
pub open spec fn dimension(stored: Option<u64>) -> usize {
    match stored {
        Some(n) => n as usize,
        None => 0,
    }
}

fn content_of(text: &str) -> (content: String)
    ensures
        content@ == match json_text_member(text@, "content"@) {
            Some(c) => c,
            None => Seq::<char>::empty(),
        },
{
    match text_member(text, "content") {
        Some(c) => c,
        None => {
            let empty: String = String::new();
            assert(empty@ =~= Seq::<char>::empty());
            empty
        },
    }
}

fn dimension_of(text: &str, key: &str) -> (size: usize)
    ensures
        size == dimension(json_u64_member(text@, key@)),
{
    match u64_member(text, key) {
        Some(n) => n as usize,
        None => 0,
    }
}

/// Reads a stored capture back.
pub fn decode_clip(text: &str) -> (clip: Result<Clip, PersistenceError>)
    ensures
        match clip {
            Ok(c) => decoded_clip(text@) == Some(c@),
            Err(e) => e == PersistenceError::InvalidRecord && decoded_clip(text@) is None,
        },
{
    if !is_document(text) {
        return Err(PersistenceError::InvalidRecord);
    }
    let kind: Option<String> = text_member(text, "type");
    match kind {
        Some(k) => {
            if str_eq(k.as_str(), "text") {
                Ok(Clip::Text { plain: content_of(text) })
            } else if str_eq(k.as_str(), "image") {
                Ok(
                    Clip::Image {
                        data: content_of(text),
                        width: dimension_of(text, "width"),
                        height: dimension_of(text, "height"),
                    },
                )
            } else {
                Ok(Clip::Text { plain: String::from_str("Invalid clip type") })
            }
        },
        None => Ok(Clip::Text { plain: String::from_str("Invalid clip type") }),
    }
}

/// The tags that a stored column stands for: none where the column is
/// empty, holds `null`, or cannot be read as a list of strings.
pub open spec fn decoded_tags(column: Option<Seq<char>>) -> Option<Seq<Seq<char>>> {
    match column {
        Some(text) => match json_optional_list(text) {
            Some(list) => list,
            None => None,
        },
        None => None,
    }
}

/// The views of an optional list of strings.
pub open spec fn opt_list_view(o: Option<Vec<String>>) -> Option<Seq<Seq<char>>> {
    match o {
        Some(v) => Some(string_views(v@)),
        None => None,
    }
}

/// Reads the stored tags back. Absent tags stay absent and are not an
/// empty list.
pub fn decode_tags(column: &Option<String>) -> (tags: Option<Vec<String>>)
    ensures
        opt_list_view(tags) == decoded_tags(opt_view(*column)),
{
    match column {
        Some(text) => match optional_list(text.as_str()) {
            Some(list) => list,
            None => None,
        },
        None => None,
    }
}

/// Whether `item` is the record that `row` stands for.
pub open spec fn item_of_row(item: ClipItem, row: StoredRow) -> bool {
    &&& item.id@ == signed_digits(row.id as int)
    &&& decoded_clip(row.clip_json@) == Some(item.clip@)
    &&& item.created_at@ == row.created_at@
    &&& opt_view(item.category) == opt_view(row.category)
    &&& opt_view(item.summary) == opt_view(row.summary)
    &&& opt_list_view(item.tags) == decoded_tags(opt_view(row.tags_json))
}

fn copy_opt(o: &Option<String>) -> (copy: Option<String>)
    ensures
        opt_view(copy) == opt_view(*o),
{
    match o {
        Some(s) => Some(s.clone()),
        None => None,
    }
}

/// Turns a stored row into a record.
pub fn row_to_item(row: &StoredRow) -> (item: Result<ClipItem, PersistenceError>)
    ensures
        match item {
            Ok(it) => item_of_row(it, *row),
            Err(e) => e == PersistenceError::InvalidRecord && !json_is_document(row.clip_json@),
        },
{
    match decode_clip(row.clip_json.as_str()) {
        Ok(clip) => Ok(
            ClipItem {
                id: signed_decimal_string(row.id),
                clip,
                category: copy_opt(&row.category),
                summary: copy_opt(&row.summary),
                tags: decode_tags(&row.tags_json),
                created_at: row.created_at.clone(),
            },
        ),
        Err(e) => Err(e),
    }
}

/// Turns the rows of a listing into records, in the order of the rows. The
/// listing fails as a whole if a stored capture is no JSON document.
pub fn get_items(rows: &Vec<StoredRow>) -> (items: Result<Vec<ClipItem>, PersistenceError>)
    ensures
        match items {
            Ok(list) => list@.len() == rows@.len() && forall|i: int|
                0 <= i < rows@.len() ==> item_of_row(#[trigger] list@[i], rows@[i]),
            Err(e) => e == PersistenceError::InvalidRecord && exists|i: int|
                0 <= i < rows@.len() && !json_is_document((#[trigger] rows@[i]).clip_json@),
        },
        items is Ok <==> forall|i: int|
            0 <= i < rows@.len() ==> json_is_document((#[trigger] rows@[i]).clip_json@),
{
    let mut list: Vec<ClipItem> = Vec::new();
    let mut i: usize = 0;
    while i < rows.len()
        invariant
            i <= rows@.len(),
            list@.len() == i,
            forall|j: int| 0 <= j < i ==> item_of_row(#[trigger] list@[j], rows@[j]),
            forall|j: int| 0 <= j < i ==> json_is_document((#[trigger] rows@[j]).clip_json@),
        decreases rows@.len() - i,
    {
        match row_to_item(&rows[i]) {
            Ok(item) => {
                list.push(item);
            },
            Err(e) => {
                assert(!json_is_document(rows@[i as int].clip_json@));
                return Err(e);
            },
        }
        i += 1;
    }
    Ok(list)
}

/// Judges a deletion by the number of rows it removed. Removing none means
/// that the identifier was unknown, which is an error and no silent
/// success; otherwise the result is the identifier that the notification
/// of the deletion carries.
pub fn delete_item(item_id: &str, rows_affected: usize) -> (outcome: Result<
    String,
    PersistenceError,
>)
    ensures
        match outcome {
            Ok(notified) => rows_affected > 0 && notified@ == item_id@,
            Err(e) => rows_affected == 0 && e == PersistenceError::NotFound,
        },
{
    if rows_affected == 0 {
        Err(PersistenceError::NotFound)
    } else {
        Ok(String::from_str(item_id))
    }
}

} // verus!
