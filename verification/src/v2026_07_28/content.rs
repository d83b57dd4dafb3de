//! Content blocks: text, images, audio, resource links, embedded resources,
//! tool uses and tool results, and the resource contents they embed.

use vstd::prelude::*;
use crate::json::Json;
use crate::text::owned;
use crate::v2025_11_25::icons::Icon;
use crate::v2026_07_28::meta::Annotations;

verus! {

/// The contents of a resource as text.
#[derive(Debug)]
pub struct TextResourceContents {
    pub uri: String,
    pub mime_type: Option<String>,
    pub meta: Option<Vec<(String, Json)>>,
    pub text: String,
}

/// The contents of a resource as base64-encoded binary data.
#[derive(Debug)]
pub struct BlobResourceContents {
    pub uri: String,
    pub mime_type: Option<String>,
    pub meta: Option<Vec<(String, Json)>>,
    pub blob: String,
}

/// The contents of a resource: text or binary data.
#[derive(Debug)]
pub enum ResourceContents {
    Text(TextResourceContents),
    Blob(BlobResourceContents),
}

/// The resource a resource link points to, with its descriptive fields;
/// the link's annotations and `_meta` are the resource's own.
#[derive(Debug)]
pub struct ResourceReference {
    pub uri: String,
    pub name: String,
    pub title: Option<String>,
    pub description: Option<String>,
    pub mime_type: Option<String>,
    pub size: Option<u64>,
    pub icons: Option<Vec<Icon>>,
    pub annotations: Option<Annotations>,
    pub meta: Option<Vec<(String, Json)>>,
}

/// A block of content, by its `type`.
#[derive(Debug)]
pub enum ContentBlock {
    Text { text: String, annotations: Option<Annotations>, meta: Option<Vec<(String, Json)>> },
    Image { data: String, mime_type: String, annotations: Option<Annotations>, meta: Option<Vec<(String, Json)>> },
    Audio { data: String, mime_type: String, annotations: Option<Annotations>, meta: Option<Vec<(String, Json)>> },
    ResourceLink { resource: ResourceReference },
    Resource { resource: ResourceContents, annotations: Option<Annotations>, meta: Option<Vec<(String, Json)>> },
    ToolUse { id: String, name: String, input: Vec<(String, Json)>, meta: Option<Vec<(String, Json)>> },
    ToolResult {
        tool_use_id: String,
        content: Vec<ContentBlock>,
        structured_content: Option<Json>,
        is_error: Option<bool>,
        meta: Option<Vec<(String, Json)>>,
    },
}

impl ContentBlock {
    /// The text `text`.
    pub fn text(text: &str) -> (r: Self)
        ensures
            r matches ContentBlock::Text { text: t, annotations: None, meta: None } && t@ == text@,
    {
        ContentBlock::Text { text: owned(text), annotations: None, meta: None }
    }

    /// The text `text` with `annotations`.
    pub fn text_with_annotations(text: &str, annotations: Annotations) -> (r: Self)
        ensures
            r matches ContentBlock::Text { text: t, annotations: Some(a), meta: None } && t@ == text@
                && a == annotations,
    {
        ContentBlock::Text { text: owned(text), annotations: Some(annotations), meta: None }
    }

    /// An image: base64 `data` of type `mime_type`.
    pub fn image(data: &str, mime_type: &str) -> (r: Self)
        ensures
            r matches ContentBlock::Image { data: d, mime_type: m, annotations: None, meta: None } && d@ == data@
                && m@ == mime_type@,
    {
        ContentBlock::Image { data: owned(data), mime_type: owned(mime_type), annotations: None, meta: None }
    }

    /// Audio: base64 `data` of type `mime_type`.
    pub fn audio(data: &str, mime_type: &str) -> (r: Self)
        ensures
            r matches ContentBlock::Audio { data: d, mime_type: m, annotations: None, meta: None } && d@ == data@
                && m@ == mime_type@,
    {
        ContentBlock::Audio { data: owned(data), mime_type: owned(mime_type), annotations: None, meta: None }
    }

    /// A link to `resource`.
    pub fn resource_link(resource: ResourceReference) -> (r: Self)
        ensures
            r == (ContentBlock::ResourceLink { resource }),
    {
        ContentBlock::ResourceLink { resource }
    }

    /// The embedded contents `resource`.
    pub fn resource(resource: ResourceContents) -> (r: Self)
        ensures
            r == (ContentBlock::Resource { resource, annotations: None, meta: None }),
    {
        ContentBlock::Resource { resource, annotations: None, meta: None }
    }

    /// A use of the tool `name`, identified by `id`, with `input`.
    pub fn tool_use(id: &str, name: &str, input: Vec<(String, Json)>) -> (r: Self)
        ensures
            r matches ContentBlock::ToolUse { id: i, name: n, input: x, meta: None } && i@ == id@ && n@ == name@
                && x == input,
    {
        ContentBlock::ToolUse { id: owned(id), name: owned(name), input, meta: None }
    }

    /// The result `content` of the tool use `tool_use_id`.
    pub fn tool_result(tool_use_id: &str, content: Vec<ContentBlock>) -> (r: Self)
        ensures
            r matches ContentBlock::ToolResult {
                tool_use_id: t,
                content: c,
                structured_content: None,
                is_error: None,
                meta: None,
            } && t@ == tool_use_id@ && c == content,
    {
        ContentBlock::ToolResult { tool_use_id: owned(tool_use_id), content, structured_content: None, is_error: None, meta: None }
    }

    /// The failed result `content` of the tool use `tool_use_id`.
    pub fn tool_result_error(tool_use_id: &str, content: Vec<ContentBlock>) -> (r: Self)
        ensures
            r matches ContentBlock::ToolResult {
                tool_use_id: t,
                content: c,
                structured_content: None,
                is_error: Some(true),
                meta: None,
            } && t@ == tool_use_id@ && c == content,
    {
        ContentBlock::ToolResult {
            tool_use_id: owned(tool_use_id),
            content,
            structured_content: None,
            is_error: Some(true),
            meta: None,
        }
    }

    /// The same block with `annotations`: on a resource link they go to the
    /// linked resource; tool uses and tool results carry none and are
    /// returned unchanged.
    pub fn with_annotations(self, annotations: Annotations) -> (r: Self)
        ensures
            match self {
                ContentBlock::Text { text, meta, .. } =>
                    r == (ContentBlock::Text { text, annotations: Some(annotations), meta }),
                ContentBlock::Image { data, mime_type, meta, .. } =>
                    r == (ContentBlock::Image { data, mime_type, annotations: Some(annotations), meta }),
                ContentBlock::Audio { data, mime_type, meta, .. } =>
                    r == (ContentBlock::Audio { data, mime_type, annotations: Some(annotations), meta }),
                ContentBlock::Resource { resource, meta, .. } =>
                    r == (ContentBlock::Resource { resource, annotations: Some(annotations), meta }),
                ContentBlock::ResourceLink { resource } =>
                    r == (ContentBlock::ResourceLink { resource: ResourceReference { annotations: Some(annotations), ..resource } }),
                _ => r == self,
            },
    {
        match self {
            ContentBlock::Text { text, meta, .. } => ContentBlock::Text { text, annotations: Some(annotations), meta },
            ContentBlock::Image { data, mime_type, meta, .. } =>
                ContentBlock::Image { data, mime_type, annotations: Some(annotations), meta },
            ContentBlock::Audio { data, mime_type, meta, .. } =>
                ContentBlock::Audio { data, mime_type, annotations: Some(annotations), meta },
            ContentBlock::Resource { resource, meta, .. } =>
                ContentBlock::Resource { resource, annotations: Some(annotations), meta },
            ContentBlock::ResourceLink { resource } =>
                ContentBlock::ResourceLink { resource: ResourceReference { annotations: Some(annotations), ..resource } },
            other => other,
        }
    }

    /// The same block with `meta` as its `_meta`: on a resource link it goes
    /// to the linked resource.
    pub fn with_meta(self, meta: Vec<(String, Json)>) -> (r: Self)
        ensures
            match self {
                ContentBlock::Text { text, annotations, .. } =>
                    r == (ContentBlock::Text { text, annotations, meta: Some(meta) }),
                ContentBlock::Image { data, mime_type, annotations, .. } =>
                    r == (ContentBlock::Image { data, mime_type, annotations, meta: Some(meta) }),
                ContentBlock::Audio { data, mime_type, annotations, .. } =>
                    r == (ContentBlock::Audio { data, mime_type, annotations, meta: Some(meta) }),
                ContentBlock::Resource { resource, annotations, .. } =>
                    r == (ContentBlock::Resource { resource, annotations, meta: Some(meta) }),
                ContentBlock::ToolUse { id, name, input, .. } =>
                    r == (ContentBlock::ToolUse { id, name, input, meta: Some(meta) }),
                ContentBlock::ToolResult { tool_use_id, content, structured_content, is_error, .. } =>
                    r == (ContentBlock::ToolResult { tool_use_id, content, structured_content, is_error, meta: Some(meta) }),
                ContentBlock::ResourceLink { resource } =>
                    r == (ContentBlock::ResourceLink { resource: ResourceReference { meta: Some(meta), ..resource } }),
            },
    {
        match self {
            ContentBlock::Text { text, annotations, .. } => ContentBlock::Text { text, annotations, meta: Some(meta) },
            ContentBlock::Image { data, mime_type, annotations, .. } =>
                ContentBlock::Image { data, mime_type, annotations, meta: Some(meta) },
            ContentBlock::Audio { data, mime_type, annotations, .. } =>
                ContentBlock::Audio { data, mime_type, annotations, meta: Some(meta) },
            ContentBlock::Resource { resource, annotations, .. } =>
                ContentBlock::Resource { resource, annotations, meta: Some(meta) },
            ContentBlock::ToolUse { id, name, input, .. } => ContentBlock::ToolUse { id, name, input, meta: Some(meta) },
            ContentBlock::ToolResult { tool_use_id, content, structured_content, is_error, .. } =>
                ContentBlock::ToolResult { tool_use_id, content, structured_content, is_error, meta: Some(meta) },
            ContentBlock::ResourceLink { resource } =>
                ContentBlock::ResourceLink { resource: ResourceReference { meta: Some(meta), ..resource } },
        }
    }
}

impl ResourceContents {
    /// Text `text` at `uri`, of no stated MIME type.
    pub fn text(uri: &str, text: &str) -> (r: Self)
        ensures
            r matches ResourceContents::Text(t) && t.uri@ == uri@ && t.text@ == text@ && t.mime_type is None
                && t.meta is None,
    {
        ResourceContents::Text(TextResourceContents { uri: owned(uri), mime_type: None, meta: None, text: owned(text) })
    }

    /// Text `text` of type `mime_type` at `uri`.
    pub fn text_with_mime(uri: &str, text: &str, mime_type: &str) -> (r: Self)
        ensures
            r matches ResourceContents::Text(t) && t.uri@ == uri@ && t.text@ == text@ && t.meta is None
                && (t.mime_type matches Some(m) && m@ == mime_type@),
    {
        ResourceContents::Text(TextResourceContents {
            uri: owned(uri),
            mime_type: Some(owned(mime_type)),
            meta: None,
            text: owned(text),
        })
    }

    /// Base64 data `blob` of type `mime_type` at `uri`.
    pub fn blob(uri: &str, blob: &str, mime_type: &str) -> (r: Self)
        ensures
            r matches ResourceContents::Blob(b) && b.uri@ == uri@ && b.blob@ == blob@ && b.meta is None
                && (b.mime_type matches Some(m) && m@ == mime_type@),
    {
        ResourceContents::Blob(BlobResourceContents {
            uri: owned(uri),
            mime_type: Some(owned(mime_type)),
            meta: None,
            blob: owned(blob),
        })
    }
}

impl ResourceReference {
    /// The resource at `uri`, named `name`, with nothing else stated.
    pub fn new(uri: &str, name: &str) -> (r: Self)
        ensures
            r.uri@ == uri@,
            r.name@ == name@,
            r.title is None,
            r.description is None,
            r.mime_type is None,
            r.size is None,
            r.icons is None,
            r.annotations is None,
            r.meta is None,
    {
        ResourceReference {
            uri: owned(uri),
            name: owned(name),
            title: None,
            description: None,
            mime_type: None,
            size: None,
            icons: None,
            annotations: None,
            meta: None,
        }
    }

    /// The same resource with `title` set.
    pub fn with_title(self, title: &str) -> (r: Self)
        ensures
            r == (ResourceReference { title: r.title, ..self }),
            r.title matches Some(t) && t@ == title@,
    {
        ResourceReference { title: Some(owned(title)), ..self }
    }

    /// The same resource with `description` set.
    pub fn with_description(self, description: &str) -> (r: Self)
        ensures
            r == (ResourceReference { description: r.description, ..self }),
            r.description matches Some(d) && d@ == description@,
    {
        ResourceReference { description: Some(owned(description)), ..self }
    }

    /// The same resource with the MIME type `mime_type`.
    pub fn with_mime_type(self, mime_type: &str) -> (r: Self)
        ensures
            r == (ResourceReference { mime_type: r.mime_type, ..self }),
            r.mime_type matches Some(m) && m@ == mime_type@,
    {
        ResourceReference { mime_type: Some(owned(mime_type)), ..self }
    }

    /// The same resource, `size` bytes long.
    pub fn with_size(self, size: u64) -> (r: Self)
        ensures
            r == (ResourceReference { size: Some(size), ..self }),
    {
        ResourceReference { size: Some(size), ..self }
    }

    /// The same resource with `icons`.
    pub fn with_icons(self, icons: Vec<Icon>) -> (r: Self)
        ensures
            r == (ResourceReference { icons: Some(icons), ..self }),
    {
        ResourceReference { icons: Some(icons), ..self }
    }

    /// The same resource with `annotations`.
    pub fn with_annotations(self, annotations: Annotations) -> (r: Self)
        ensures
            r == (ResourceReference { annotations: Some(annotations), ..self }),
    {
        ResourceReference { annotations: Some(annotations), ..self }
    }

    /// The same resource with `meta` as its `_meta`.
    pub fn with_meta(self, meta: Vec<(String, Json)>) -> (r: Self)
        ensures
            r == (ResourceReference { meta: Some(meta), ..self }),
    {
        ResourceReference { meta: Some(meta), ..self }
    }
}

impl TextResourceContents {
    /// Text `text` at `uri`, of no stated MIME type.
    pub fn new(uri: &str, text: &str) -> (r: Self)
        ensures
            r.uri@ == uri@,
            r.text@ == text@,
            r.mime_type is None,
            r.meta is None,
    {
        TextResourceContents { uri: owned(uri), mime_type: None, meta: None, text: owned(text) }
    }

    /// The same contents of type `mime_type`.
    pub fn with_mime_type(self, mime_type: &str) -> (r: Self)
        ensures
            r == (TextResourceContents { mime_type: r.mime_type, ..self }),
            r.mime_type matches Some(m) && m@ == mime_type@,
    {
        TextResourceContents { mime_type: Some(owned(mime_type)), ..self }
    }

    /// The same contents with `meta` as their `_meta`.
    pub fn with_meta(self, meta: Vec<(String, Json)>) -> (r: Self)
        ensures
            r == (TextResourceContents { meta: Some(meta), ..self }),
    {
        TextResourceContents { meta: Some(meta), ..self }
    }
}

impl BlobResourceContents {
    /// Base64 data `blob` of type `mime_type` at `uri`.
    pub fn new(uri: &str, blob: &str, mime_type: &str) -> (r: Self)
        ensures
            r.uri@ == uri@,
            r.blob@ == blob@,
            r.mime_type matches Some(m) && m@ == mime_type@,
            r.meta is None,
    {
        BlobResourceContents { uri: owned(uri), mime_type: Some(owned(mime_type)), meta: None, blob: owned(blob) }
    }

    /// The same contents with `meta` as their `_meta`.
    pub fn with_meta(self, meta: Vec<(String, Json)>) -> (r: Self)
        ensures
            r == (BlobResourceContents { meta: Some(meta), ..self }),
    {
        BlobResourceContents { meta: Some(meta), ..self }
    }
}

} // verus!
