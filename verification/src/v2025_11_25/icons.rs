//! Icons that tools, resources, prompts and implementations may carry.

use vstd::prelude::*;
use crate::text::{owned, concat4};

verus! {

/// The theme an icon is designed for.
#[derive(Debug, Clone, Copy, PartialEq, Eq)]
pub enum IconTheme {
    Light,
    Dark,
}

/// An icon: its source URI, and optionally its MIME type, sizes and theme.
#[derive(Debug, Clone)]
pub struct Icon {
    pub src: String,
    pub mime_type: Option<String>,
    pub sizes: Option<Vec<String>>,
    pub theme: Option<IconTheme>,
}

/// The `data:` URI that embeds base64 data of a MIME type.
pub open spec fn data_uri_text(mime_type: Seq<char>, base64_data: Seq<char>) -> Seq<char> {
    "data:"@ + mime_type + ";base64,"@ + base64_data
}

impl Icon {
    /// An icon at `src`, with nothing else stated.
    pub fn new(src: &str) -> (r: Self)
        ensures
            r.src@ == src@,
            r.mime_type is None,
            r.sizes is None,
            r.theme is None,
    {
        Icon { src: owned(src), mime_type: None, sizes: None, theme: None }
    }

    /// An icon whose source embeds `base64_data` of type `mime_type` as a
    /// `data:` URI.
    pub fn data_uri(mime_type: &str, base64_data: &str) -> (r: Self)
        ensures
            r.src@ == data_uri_text(mime_type@, base64_data@),
            r.mime_type matches Some(m) && m@ == mime_type@,
            r.sizes is None,
            r.theme is None,
    {
        Icon {
            src: concat4("data:", mime_type, ";base64,", base64_data),
            mime_type: Some(owned(mime_type)),
            sizes: None,
            theme: None,
        }
    }

    /// The same icon with `mime_type` set.
    pub fn with_mime_type(self, mime_type: &str) -> (r: Self)
        ensures
            r.src == self.src,
            r.mime_type matches Some(m) && m@ == mime_type@,
            r.sizes == self.sizes,
            r.theme == self.theme,
    {
        Icon { mime_type: Some(owned(mime_type)), ..self }
    }

    /// The same icon with `sizes` set.
    pub fn with_sizes(self, sizes: Vec<String>) -> (r: Self)
        ensures
            r.src == self.src,
            r.mime_type == self.mime_type,
            r.sizes == Some(sizes),
            r.theme == self.theme,
    {
        Icon { sizes: Some(sizes), ..self }
    }

    /// The same icon with `theme` set.
    pub fn with_theme(self, theme: IconTheme) -> (r: Self)
        ensures
            r.src == self.src,
            r.mime_type == self.mime_type,
            r.sizes == self.sizes,
            r.theme == Some(theme),
    {
        Icon { theme: Some(theme), ..self }
    }
}

} // verus!
