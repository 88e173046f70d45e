//! `/comments`: comments on shared recordings, with an optional drawing
//! over the video; what users write is cleaned before it is stored.

use vstd::prelude::*;
use crate::html::{html_clean, html_clean_allowing, html_clean_allowing_spec, html_clean_spec, supported_cleaning};

verus! {

/// Where on the recording a comment stands: a moment of the video and a
/// drawing (SVG markup) over it.
pub enum CommentMetadata {
    Video { timestamp: i64, drawing: String },
}

/// A new comment on a recording.
pub struct CreateCommentRequest {
    pub body: String,
    pub recording_id: u128,
    pub metadata: CommentMetadata,
}

/// A change to a comment.
pub struct UpdateCommentRequest {
    pub body: String,
    pub metadata: CommentMetadata,
}

/// Query of a recording's comments.
pub struct ListParams {
    pub recording_id: u128,
}

/// The tags a drawing may hold.
pub open spec fn drawing_tags() -> Seq<Seq<char>> {
    seq!["svg"@, "path"@]
}

/// The attributes a drawing's tags may carry.
pub open spec fn drawing_tag_attributes() -> Seq<(Seq<char>, Seq<Seq<char>>)> {
    seq![
        ("svg"@, seq!["viewBox"@]),
        ("path"@, seq![
            "stroke"@,
            "fill"@,
            "stroke-linecap"@,
            "stroke-linejoin"@,
            "stroke-width"@,
            "d"@,
        ]),
    ]
}

/// A drawing keeps exactly the `svg` and `path` tags; `svg` keeps its
/// `viewBox`, and `path` keeps exactly its stroke (colour, caps, joins and
/// width), its fill and its outline `d`.
pub proof fn lemma_drawing_tables()
    ensures
        drawing_tags() == seq!["svg"@, "path"@],
        drawing_tag_attributes().len() == 2,
        drawing_tag_attributes()[0] == ("svg"@, seq!["viewBox"@]),
        drawing_tag_attributes()[1] == ("path"@, seq![
            "stroke"@,
            "fill"@,
            "stroke-linecap"@,
            "stroke-linejoin"@,
            "stroke-width"@,
            "d"@,
        ]),
{
}

/// The drawing tables are ones that the cleaner runs with.
proof fn lemma_drawing_cleaning_supported()
    ensures
        supported_cleaning(drawing_tags(), drawing_tag_attributes()),
{
    reveal_strlit("svg");
    reveal_strlit("path");
    reveal_strlit("script");
    reveal_strlit("style");
    reveal_strlit("animate");
    reveal_strlit("animateTransform");
    reveal_strlit("animateMotion");
    reveal_strlit("animateColor");
    reveal_strlit("set");
    reveal_strlit("a");
    assert(drawing_tags()[0][1] == 'v' && "set"@[1] == 'e');
    assert(drawing_tags()[0][0] == 's' && "style"@[1] == 't' && "script"@[1] == 'c');
    assert(drawing_tags()[1][0] == 'p');
}

/// Cleans a comment's text with the default rules for HTML.
pub fn clean_comment_body(body: &str) -> (r: String)
    ensures
        r@ == html_clean_spec(body@),
{
    html_clean(body)
}

/// Cleans a drawing: only `svg` (with `viewBox`) and `path` (with its stroke,
/// fill and `d` attributes) are kept.
pub fn clean_drawing(drawing: &str) -> (r: String)
    ensures
        r@ == html_clean_allowing_spec(drawing@, drawing_tags(), drawing_tag_attributes()),
        r@ == html_clean_allowing_spec(
            drawing@,
            seq!["svg"@, "path"@],
            seq![
                ("svg"@, seq!["viewBox"@]),
                ("path"@, seq![
                    "stroke"@,
                    "fill"@,
                    "stroke-linecap"@,
                    "stroke-linejoin"@,
                    "stroke-width"@,
                    "d"@,
                ]),
            ],
        ),
{
    let tags: [&'static str; 2] = ["svg", "path"];
    let svg_attributes: &'static [&'static str] = &["viewBox"];
    let path_attributes: &'static [&'static str] = &[
        "stroke",
        "fill",
        "stroke-linecap",
        "stroke-linejoin",
        "stroke-width",
        "d",
    ];
    let table: [(&'static str, &'static [&'static str]); 2] = [("svg", svg_attributes), ("path", path_attributes)];
    let tag_slice = tags.as_slice();
    let table_slice = table.as_slice();
    proof {
        assert(crate::html::str_views(tag_slice@) =~= drawing_tags());
        assert(crate::html::str_views(svg_attributes@) =~= seq!["viewBox"@]);
        assert(crate::html::str_views(path_attributes@) =~= seq![
            "stroke"@,
            "fill"@,
            "stroke-linecap"@,
            "stroke-linejoin"@,
            "stroke-width"@,
            "d"@,
        ]);
        assert(crate::html::tag_attribute_views(table_slice@) =~= drawing_tag_attributes());
        lemma_drawing_cleaning_supported();
        lemma_drawing_tables();
        assert(drawing_tag_attributes() =~= seq![
            ("svg"@, seq!["viewBox"@]),
            ("path"@, seq![
                "stroke"@,
                "fill"@,
                "stroke-linecap"@,
                "stroke-linejoin"@,
                "stroke-width"@,
                "d"@,
            ]),
        ]);
    }
    html_clean_allowing(drawing, tag_slice, table_slice)
}

/// The metadata stored with a new comment: the same moment, the drawing
/// cleaned.
pub open spec fn cleaned_metadata_spec(m: CommentMetadata) -> (i64, Seq<char>) {
    match m {
        CommentMetadata::Video { timestamp, drawing } => (
            timestamp,
            html_clean_allowing_spec(drawing@, drawing_tags(), drawing_tag_attributes()),
        ),
    }
}

impl CreateCommentRequest {
    /// The comment as it is stored: its text and its drawing cleaned.
    pub fn cleaned(&self) -> (r: (String, CommentMetadata))
        ensures
            r.0@ == html_clean_spec(self.body@),
            match r.1 {
                CommentMetadata::Video { timestamp, drawing } => (timestamp, drawing@) == cleaned_metadata_spec(
                    self.metadata,
                ),
            },
    {
        let body = clean_comment_body(self.body.as_str());
        let metadata = match &self.metadata {
            CommentMetadata::Video { timestamp, drawing } => CommentMetadata::Video {
                timestamp: *timestamp,
                drawing: clean_drawing(drawing.as_str()),
            },
        };
        (body, metadata)
    }
}

} // verus!
