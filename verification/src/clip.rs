//! The capture itself and the records built from it.

use vstd::prelude::*;
use vstd::utf8::encode_utf8;

verus! {

/// One normalized clipboard read: plain text, or an encoded image with its
/// dimensions.
#[derive(Debug, Clone, PartialEq, Eq)]
pub enum Clip {
    Text { plain: String },
    Image { data: String, width: usize, height: usize },
}

/// The mathematical value of a [`Clip`].
pub enum ClipView {
    Text { plain: Seq<char> },
    Image { data: Seq<char>, width: nat, height: nat },
}

impl View for Clip {
    type V = ClipView;

    open spec fn view(&self) -> ClipView {
        match *self {
            Clip::Text { plain } => ClipView::Text { plain: plain@ },
            Clip::Image { data, width, height } => ClipView::Image {
                data: data@,
                width: width as nat,
                height: height as nat,
            },
        }
    }
}

impl Clip {
    /// The size by which two consecutive clipboard reads are compared: the
    /// byte length of the text, or of the encoded image.
    pub open spec fn spec_size(&self) -> usize {
        match *self {
            Clip::Text { plain } => encode_utf8(plain@).len() as usize,
            Clip::Image { data, .. } => encode_utf8(data@).len() as usize,
        }
    }

    /// The size of the payload in bytes.
    pub fn size(&self) -> (n: usize)
        ensures
            n == self.spec_size(),
    {
        match self {
            Clip::Text { plain } => plain.as_str().len(),
            Clip::Image { data, .. } => data.as_str().len(),
        }
    }

    /// An independent copy with the same value.
    pub fn duplicate(&self) -> (copy: Clip)
        ensures
            copy@ == self@,
    {
        match self {
            Clip::Text { plain } => Clip::Text { plain: plain.clone() },
            Clip::Image { data, width, height } => Clip::Image {
                data: data.clone(),
                width: *width,
                height: *height,
            },
        }
    }
}

/// The views of a sequence of strings.
pub open spec fn string_views(v: Seq<String>) -> Seq<Seq<char>> {
    Seq::new(v.len(), |i: int| v[i]@)
}

/// Copies a list of strings.
pub fn duplicate_strings(v: &Vec<String>) -> (copy: Vec<String>)
    ensures
        string_views(copy@) == string_views(v@),
{
    let mut copy: Vec<String> = Vec::new();
    let mut i: usize = 0;
    while i < v.len()
        invariant
            i <= v.len(),
            copy@.len() == i,
            forall|j: int| 0 <= j < i ==> copy@[j]@ == v@[j]@,
        decreases v.len() - i,
    {
        copy.push(v[i].clone());
        i += 1;
    }
    assert(string_views(copy@) =~= string_views(v@));
    copy
}

/// A capture together with a category suggested for it.
#[derive(Debug, Clone, PartialEq, Eq)]
pub struct ClipContext {
    pub suggested_category: Option<String>,
    pub clip: Clip,
}

/// A stored record as listings return it.
#[derive(Debug, PartialEq, Eq)]
pub struct ClipItem {
    pub id: String,
    pub clip: Clip,
    pub category: Option<String>,
    pub summary: Option<String>,
    pub tags: Option<Vec<String>>,
    pub created_at: String,
}

/// A category with its tags, as the model answers or as the fallback gives
/// it.
#[derive(Debug, PartialEq, Eq)]
pub struct CategoryResponse {
    pub category: String,
    pub tags: Vec<String>,
}

/// The mathematical value of a [`CategoryResponse`].
pub struct CategoryView {
    pub category: Seq<char>,
    pub tags: Seq<Seq<char>>,
}

impl View for CategoryResponse {
    type V = CategoryView;

    open spec fn view(&self) -> CategoryView {
        CategoryView { category: self.category@, tags: string_views(self.tags@) }
    }
}

} // verus!
