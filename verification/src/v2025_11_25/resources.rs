//! Resources: their descriptors and templates, their contents, and the
//! requests that list, read and subscribe to them.

use vstd::prelude::*;
use crate::json::Json;
use crate::text::owned;
use super::icons::Icon;
use super::meta::{Annotations, Cursor};

verus! {

/// A template from which resource URIs are built (RFC 6570).
#[derive(Debug)]
pub struct ResourceTemplate {
    pub name: String,
    pub title: Option<String>,
    pub uri_template: String,
    pub description: Option<String>,
    pub mime_type: Option<String>,
    pub annotations: Option<Annotations>,
    pub icons: Option<Vec<Icon>>,
    pub meta: Option<Vec<(String, Json)>>,
}

impl ResourceTemplate {
    /// The template `uri_template`, named `name`, with nothing else stated.
    pub fn new(name: &str, uri_template: &str) -> (r: Self)
        ensures
            r.name@ == name@,
            r.uri_template@ == uri_template@,
            r.title is None,
            r.description is None,
            r.mime_type is None,
            r.annotations is None,
            r.icons is None,
            r.meta is None,
    {
        ResourceTemplate {
            name: owned(name),
            title: None,
            uri_template: owned(uri_template),
            description: None,
            mime_type: None,
            annotations: None,
            icons: None,
            meta: None,
        }
    }

    /// The same template with `title` set.
    pub fn with_title(self, title: &str) -> (r: Self)
        ensures
            r.name == self.name,
            r.title matches Some(v) && v@ == title@,
            r.uri_template == self.uri_template,
            r.description == self.description,
            r.mime_type == self.mime_type,
            r.annotations == self.annotations,
            r.icons == self.icons,
            r.meta == self.meta,
    {
        ResourceTemplate { title: Some(owned(title)), ..self }
    }

    /// The same template with `description` set.
    pub fn with_description(self, description: &str) -> (r: Self)
        ensures
            r.name == self.name,
            r.title == self.title,
            r.uri_template == self.uri_template,
            r.description matches Some(v) && v@ == description@,
            r.mime_type == self.mime_type,
            r.annotations == self.annotations,
            r.icons == self.icons,
            r.meta == self.meta,
    {
        ResourceTemplate { description: Some(owned(description)), ..self }
    }

    /// The same template with the MIME type `mime_type`.
    pub fn with_mime_type(self, mime_type: &str) -> (r: Self)
        ensures
            r.name == self.name,
            r.title == self.title,
            r.uri_template == self.uri_template,
            r.description == self.description,
            r.mime_type matches Some(v) && v@ == mime_type@,
            r.annotations == self.annotations,
            r.icons == self.icons,
            r.meta == self.meta,
    {
        ResourceTemplate { mime_type: Some(owned(mime_type)), ..self }
    }

    /// The same template with `annotations`.
    pub fn with_annotations(self, annotations: Annotations) -> (r: Self)
        ensures
            r.name == self.name,
            r.title == self.title,
            r.uri_template == self.uri_template,
            r.description == self.description,
            r.mime_type == self.mime_type,
            r.annotations == Some(annotations),
            r.icons == self.icons,
            r.meta == self.meta,
    {
        ResourceTemplate { annotations: Some(annotations), ..self }
    }

    /// The same template with `icons`.
    pub fn with_icons(self, icons: Vec<Icon>) -> (r: Self)
        ensures
            r.name == self.name,
            r.title == self.title,
            r.uri_template == self.uri_template,
            r.description == self.description,
            r.mime_type == self.mime_type,
            r.annotations == self.annotations,
            r.icons == Some(icons),
            r.meta == self.meta,
    {
        ResourceTemplate { icons: Some(icons), ..self }
    }

    /// The same template with `meta` as its `_meta`.
    pub fn with_meta(self, meta: Vec<(String, Json)>) -> (r: Self)
        ensures
            r.name == self.name,
            r.title == self.title,
            r.uri_template == self.uri_template,
            r.description == self.description,
            r.mime_type == self.mime_type,
            r.annotations == self.annotations,
            r.icons == self.icons,
            r.meta == Some(meta),
    {
        ResourceTemplate { meta: Some(meta), ..self }
    }
}

/// A resource a server offers.
#[derive(Debug)]
pub struct Resource {
    pub uri: String,
    pub name: String,
    pub title: Option<String>,
    pub description: Option<String>,
    pub mime_type: Option<String>,
    pub size: Option<u64>,
    pub annotations: Option<Annotations>,
    pub icons: Option<Vec<Icon>>,
    pub meta: Option<Vec<(String, Json)>>,
}

impl Resource {
    /// The resource at `uri`, named `name`, with nothing else stated.
    pub fn new(uri: &str, name: &str) -> (r: Self)
        ensures
            r.uri@ == uri@,
            r.name@ == name@,
            r.title is None,
            r.description is None,
            r.mime_type is None,
            r.size is None,
            r.annotations is None,
            r.icons is None,
            r.meta is None,
    {
        Resource {
            uri: owned(uri),
            name: owned(name),
            title: None,
            description: None,
            mime_type: None,
            size: None,
            annotations: None,
            icons: None,
            meta: None,
        }
    }

    /// The same resource with `title` set.
    pub fn with_title(self, title: &str) -> (r: Self)
        ensures
            r.uri == self.uri,
            r.name == self.name,
            r.title matches Some(v) && v@ == title@,
            r.description == self.description,
            r.mime_type == self.mime_type,
            r.size == self.size,
            r.annotations == self.annotations,
            r.icons == self.icons,
            r.meta == self.meta,
    {
        Resource { title: Some(owned(title)), ..self }
    }

    /// The same resource with `description` set.
    pub fn with_description(self, description: &str) -> (r: Self)
        ensures
            r.uri == self.uri,
            r.name == self.name,
            r.title == self.title,
            r.description matches Some(v) && v@ == description@,
            r.mime_type == self.mime_type,
            r.size == self.size,
            r.annotations == self.annotations,
            r.icons == self.icons,
            r.meta == self.meta,
    {
        Resource { description: Some(owned(description)), ..self }
    }

    /// The same resource with the MIME type `mime_type`.
    pub fn with_mime_type(self, mime_type: &str) -> (r: Self)
        ensures
            r.uri == self.uri,
            r.name == self.name,
            r.title == self.title,
            r.description == self.description,
            r.mime_type matches Some(v) && v@ == mime_type@,
            r.size == self.size,
            r.annotations == self.annotations,
            r.icons == self.icons,
            r.meta == self.meta,
    {
        Resource { mime_type: Some(owned(mime_type)), ..self }
    }

    /// The same resource, `size` bytes long.
    pub fn with_size(self, size: u64) -> (r: Self)
        ensures
            r.uri == self.uri,
            r.name == self.name,
            r.title == self.title,
            r.description == self.description,
            r.mime_type == self.mime_type,
            r.size == Some(size),
            r.annotations == self.annotations,
            r.icons == self.icons,
            r.meta == self.meta,
    {
        Resource { size: Some(size), ..self }
    }

    /// The same resource with `annotations`.
    pub fn with_annotations(self, annotations: Annotations) -> (r: Self)
        ensures
            r.uri == self.uri,
            r.name == self.name,
            r.title == self.title,
            r.description == self.description,
            r.mime_type == self.mime_type,
            r.size == self.size,
            r.annotations == Some(annotations),
            r.icons == self.icons,
            r.meta == self.meta,
    {
        Resource { annotations: Some(annotations), ..self }
    }

    /// The same resource with `icons`.
    pub fn with_icons(self, icons: Vec<Icon>) -> (r: Self)
        ensures
            r.uri == self.uri,
            r.name == self.name,
            r.title == self.title,
            r.description == self.description,
            r.mime_type == self.mime_type,
            r.size == self.size,
            r.annotations == self.annotations,
            r.icons == Some(icons),
            r.meta == self.meta,
    {
        Resource { icons: Some(icons), ..self }
    }

    /// The same resource with `meta` as its `_meta`.
    pub fn with_meta(self, meta: Vec<(String, Json)>) -> (r: Self)
        ensures
            r.uri == self.uri,
            r.name == self.name,
            r.title == self.title,
            r.description == self.description,
            r.mime_type == self.mime_type,
            r.size == self.size,
            r.annotations == self.annotations,
            r.icons == self.icons,
            r.meta == Some(meta),
    {
        Resource { meta: Some(meta), ..self }
    }
}

/// Parameters of a `resources/list` request.
#[derive(Debug)]
pub struct ListResourcesParams {
    pub cursor: Option<Cursor>,
    pub meta: Option<Vec<(String, Json)>>,
}

impl ListResourcesParams {
    /// Parameters asking for the first page.
    pub fn new() -> (r: Self)
        ensures
            r.cursor is None,
            r.meta is None,
    {
        ListResourcesParams { cursor: None, meta: None }
    }

    /// The same parameters asking for the page at `cursor`.
    pub fn with_cursor(self, cursor: Cursor) -> (r: Self)
        ensures
            r.cursor == Some(cursor),
            r.meta == self.meta,
    {
        ListResourcesParams { cursor: Some(cursor), ..self }
    }

    /// The same parameters with `meta` as their `_meta`.
    pub fn with_meta(self, meta: Vec<(String, Json)>) -> (r: Self)
        ensures
            r.cursor == self.cursor,
            r.meta == Some(meta),
    {
        ListResourcesParams { meta: Some(meta), ..self }
    }
}

impl Default for ListResourcesParams {
    fn default() -> (r: Self)
        ensures
            r.cursor is None,
            r.meta is None,
    {
        ListResourcesParams::new()
    }
}

/// A `resources/list` request.
#[derive(Debug)]
pub struct ListResourcesRequest {
    pub method: String,
    pub params: ListResourcesParams,
}

impl ListResourcesRequest {
    /// A `resources/list` request for the first page.
    pub fn new() -> (r: Self)
        ensures
            r.method@ == "resources/list"@,
            r.params.cursor is None,
            r.params.meta is None,
    {
        ListResourcesRequest { method: owned("resources/list"), params: ListResourcesParams::new() }
    }

    /// The same request asking for the page at `cursor`.
    pub fn with_cursor(self, cursor: Cursor) -> (r: Self)
        ensures
            r.method == self.method,
            r.params.cursor == Some(cursor),
            r.params.meta == self.params.meta,
    {
        ListResourcesRequest { method: self.method, params: self.params.with_cursor(cursor) }
    }

    /// The same request with `meta` as the `_meta` of its parameters.
    pub fn with_meta(self, meta: Vec<(String, Json)>) -> (r: Self)
        ensures
            r.method == self.method,
            r.params.cursor == self.params.cursor,
            r.params.meta == Some(meta),
    {
        ListResourcesRequest { method: self.method, params: self.params.with_meta(meta) }
    }
}

impl Default for ListResourcesRequest {
    fn default() -> (r: Self)
        ensures
            r.method@ == "resources/list"@,
            r.params.cursor is None,
            r.params.meta is None,
    {
        ListResourcesRequest::new()
    }
}

/// The answer to `resources/list`: a page of resources.
#[derive(Debug)]
pub struct ListResourcesResult {
    pub resources: Vec<Resource>,
    pub next_cursor: Option<Cursor>,
    pub meta: Option<Vec<(String, Json)>>,
}

impl ListResourcesResult {
    /// The last page, holding `resources`.
    pub fn new(resources: Vec<Resource>) -> (r: Self)
        ensures
            r.resources == resources,
            r.next_cursor is None,
            r.meta is None,
    {
        ListResourcesResult { resources, next_cursor: None, meta: None }
    }

    /// The same page, followed by the page at `cursor`.
    pub fn with_next_cursor(self, cursor: Cursor) -> (r: Self)
        ensures
            r.resources == self.resources,
            r.next_cursor == Some(cursor),
            r.meta == self.meta,
    {
        ListResourcesResult { next_cursor: Some(cursor), ..self }
    }

    /// The same page with `meta` as its `_meta`.
    pub fn with_meta(self, meta: Vec<(String, Json)>) -> (r: Self)
        ensures
            r.resources == self.resources,
            r.next_cursor == self.next_cursor,
            r.meta == Some(meta),
    {
        ListResourcesResult { meta: Some(meta), ..self }
    }
}

/// Parameters of a `resources/read` request.
#[derive(Debug)]
pub struct ReadResourceParams {
    pub uri: String,
    pub meta: Option<Vec<(String, Json)>>,
}

impl ReadResourceParams {
    /// Parameters asking for the resource at `uri`.
    pub fn new(uri: &str) -> (r: Self)
        ensures
            r.uri@ == uri@,
            r.meta is None,
    {
        ReadResourceParams { uri: owned(uri), meta: None }
    }

    /// The same parameters with `meta` as their `_meta`.
    pub fn with_meta(self, meta: Vec<(String, Json)>) -> (r: Self)
        ensures
            r.uri == self.uri,
            r.meta == Some(meta),
    {
        ReadResourceParams { meta: Some(meta), ..self }
    }
}

/// A `resources/read` request.
#[derive(Debug)]
pub struct ReadResourceRequest {
    pub method: String,
    pub params: ReadResourceParams,
}

impl ReadResourceRequest {
    /// A `resources/read` request for the resource at `uri`.
    pub fn new(uri: &str) -> (r: Self)
        ensures
            r.method@ == "resources/read"@,
            r.params.uri@ == uri@,
            r.params.meta is None,
    {
        ReadResourceRequest { method: owned("resources/read"), params: ReadResourceParams::new(uri) }
    }

    /// The same request with `meta` as the `_meta` of its parameters.
    pub fn with_meta(self, meta: Vec<(String, Json)>) -> (r: Self)
        ensures
            r.method == self.method,
            r.params.uri == self.params.uri,
            r.params.meta == Some(meta),
    {
        ReadResourceRequest { method: self.method, params: self.params.with_meta(meta) }
    }
}

/// What every kind of resource contents carries: the URI, the MIME type and
/// `_meta`.
#[derive(Debug)]
pub struct ResourceContents {
    pub uri: String,
    pub mime_type: Option<String>,
    pub meta: Option<Vec<(String, Json)>>,
}

/// The contents of a resource as text.
#[derive(Debug)]
pub struct TextResourceContents {
    pub uri: String,
    pub mime_type: Option<String>,
    pub meta: Option<Vec<(String, Json)>>,
    pub text: String,
}

/// The contents of a resource as base64-encoded binary data.
#[derive(Debug)]
pub struct BlobResourceContents {
    pub uri: String,
    pub mime_type: Option<String>,
    pub meta: Option<Vec<(String, Json)>>,
    pub blob: String,
}

/// The contents of a resource: text or binary data.
#[derive(Debug)]
pub enum ResourceContent {
    Text(TextResourceContents),
    Blob(BlobResourceContents),
}

impl ResourceContent {
    /// Plain text (`text/plain`) at `uri`.
    pub fn text(uri: &str, text: &str) -> (r: Self)
        ensures
            r matches ResourceContent::Text(t) && t.uri@ == uri@ && t.text@ == text@ && t.meta is None
                && (t.mime_type matches Some(m) && m@ == "text/plain"@),
    {
        ResourceContent::Text(TextResourceContents {
            uri: owned(uri),
            mime_type: Some(owned("text/plain")),
            meta: None,
            text: owned(text),
        })
    }

    /// JSON text (`application/json`) at `uri`.
    pub fn json(uri: &str, json: &str) -> (r: Self)
        ensures
            r matches ResourceContent::Text(t) && t.uri@ == uri@ && t.text@ == json@ && t.meta is None
                && (t.mime_type matches Some(m) && m@ == "application/json"@),
    {
        ResourceContent::Text(TextResourceContents {
            uri: owned(uri),
            mime_type: Some(owned("application/json")),
            meta: None,
            text: owned(json),
        })
    }

    /// Base64 data `blob` of type `mime_type` at `uri`.
    pub fn blob(uri: &str, blob: &str, mime_type: &str) -> (r: Self)
        ensures
            r matches ResourceContent::Blob(b) && b.uri@ == uri@ && b.blob@ == blob@ && b.meta is None
                && (b.mime_type matches Some(m) && m@ == mime_type@),
    {
        ResourceContent::Blob(BlobResourceContents {
            uri: owned(uri),
            mime_type: Some(owned(mime_type)),
            meta: None,
            blob: owned(blob),
        })
    }
}

/// Parameters of a `resources/templates/list` request.
#[derive(Debug)]
pub struct ListResourceTemplatesParams {
    pub cursor: Option<Cursor>,
    pub meta: Option<Vec<(String, Json)>>,
}

impl ListResourceTemplatesParams {
    /// Parameters asking for the first page.
    pub fn new() -> (r: Self)
        ensures
            r.cursor is None,
            r.meta is None,
    {
        ListResourceTemplatesParams { cursor: None, meta: None }
    }

    /// The same parameters asking for the page at `cursor`.
    pub fn with_cursor(self, cursor: Cursor) -> (r: Self)
        ensures
            r.cursor == Some(cursor),
            r.meta == self.meta,
    {
        ListResourceTemplatesParams { cursor: Some(cursor), ..self }
    }

    /// The same parameters with `meta` as their `_meta`.
    pub fn with_meta(self, meta: Vec<(String, Json)>) -> (r: Self)
        ensures
            r.cursor == self.cursor,
            r.meta == Some(meta),
    {
        ListResourceTemplatesParams { meta: Some(meta), ..self }
    }
}

impl Default for ListResourceTemplatesParams {
    fn default() -> (r: Self)
        ensures
            r.cursor is None,
            r.meta is None,
    {
        ListResourceTemplatesParams::new()
    }
}

/// A `resources/templates/list` request.
#[derive(Debug)]
pub struct ListResourceTemplatesRequest {
    pub method: String,
    pub params: ListResourceTemplatesParams,
}

impl ListResourceTemplatesRequest {
    /// A `resources/templates/list` request for the first page.
    pub fn new() -> (r: Self)
        ensures
            r.method@ == "resources/templates/list"@,
            r.params.cursor is None,
            r.params.meta is None,
    {
        ListResourceTemplatesRequest { method: owned("resources/templates/list"), params: ListResourceTemplatesParams::new() }
    }
}

impl Default for ListResourceTemplatesRequest {
    fn default() -> (r: Self)
        ensures
            r.method@ == "resources/templates/list"@,
            r.params.cursor is None,
            r.params.meta is None,
    {
        ListResourceTemplatesRequest::new()
    }
}

/// The answer to `resources/templates/list`: a page of templates.
#[derive(Debug)]
pub struct ListResourceTemplatesResult {
    pub resource_templates: Vec<ResourceTemplate>,
    pub next_cursor: Option<Cursor>,
    pub meta: Option<Vec<(String, Json)>>,
}

impl ListResourceTemplatesResult {
    /// The last page, holding `resource_templates`.
    pub fn new(resource_templates: Vec<ResourceTemplate>) -> (r: Self)
        ensures
            r.resource_templates == resource_templates,
            r.next_cursor is None,
            r.meta is None,
    {
        ListResourceTemplatesResult { resource_templates, next_cursor: None, meta: None }
    }

    /// The same page, followed by the page at `cursor`.
    pub fn with_next_cursor(self, cursor: Cursor) -> (r: Self)
        ensures
            r.resource_templates == self.resource_templates,
            r.next_cursor == Some(cursor),
            r.meta == self.meta,
    {
        ListResourceTemplatesResult { next_cursor: Some(cursor), ..self }
    }

    /// The same page with `meta` as its `_meta`.
    pub fn with_meta(self, meta: Vec<(String, Json)>) -> (r: Self)
        ensures
            r.resource_templates == self.resource_templates,
            r.next_cursor == self.next_cursor,
            r.meta == Some(meta),
    {
        ListResourceTemplatesResult { meta: Some(meta), ..self }
    }
}

/// Parameters of a `resources/subscribe` request: the resource to subscribe to.
#[derive(Debug)]
pub struct SubscribeParams {
    pub uri: String,
    pub meta: Option<Vec<(String, Json)>>,
}

/// A `resources/subscribe` request.
#[derive(Debug)]
pub struct SubscribeRequest {
    pub method: String,
    pub params: SubscribeParams,
}

impl SubscribeRequest {
    /// A request to subscribe to the resource at `uri`.
    pub fn new(uri: &str) -> (r: Self)
        ensures
            r.method@ == "resources/subscribe"@,
            r.params.uri@ == uri@,
            r.params.meta is None,
    {
        SubscribeRequest { method: owned("resources/subscribe"), params: SubscribeParams { uri: owned(uri), meta: None } }
    }

    /// The same request with `meta` as the `_meta` of its parameters.
    pub fn with_meta(self, meta: Vec<(String, Json)>) -> (r: Self)
        ensures
            r.method == self.method,
            r.params.uri == self.params.uri,
            r.params.meta == Some(meta),
    {
        SubscribeRequest { method: self.method, params: SubscribeParams { uri: self.params.uri, meta: Some(meta) } }
    }
}

/// Parameters of a `resources/unsubscribe` request: the resource to unsubscribe from.
#[derive(Debug)]
pub struct UnsubscribeParams {
    pub uri: String,
    pub meta: Option<Vec<(String, Json)>>,
}

/// A `resources/unsubscribe` request.
#[derive(Debug)]
pub struct UnsubscribeRequest {
    pub method: String,
    pub params: UnsubscribeParams,
}

impl UnsubscribeRequest {
    /// A request to unsubscribe from the resource at `uri`.
    pub fn new(uri: &str) -> (r: Self)
        ensures
            r.method@ == "resources/unsubscribe"@,
            r.params.uri@ == uri@,
            r.params.meta is None,
    {
        UnsubscribeRequest { method: owned("resources/unsubscribe"), params: UnsubscribeParams { uri: owned(uri), meta: None } }
    }

    /// The same request with `meta` as the `_meta` of its parameters.
    pub fn with_meta(self, meta: Vec<(String, Json)>) -> (r: Self)
        ensures
            r.method == self.method,
            r.params.uri == self.params.uri,
            r.params.meta == Some(meta),
    {
        UnsubscribeRequest { method: self.method, params: UnsubscribeParams { uri: self.params.uri, meta: Some(meta) } }
    }
}

/// The answer to `resources/read`: the contents read.
#[derive(Debug)]
pub struct ReadResourceResult {
    pub contents: Vec<ResourceContent>,
    pub meta: Option<Vec<(String, Json)>>,
}

impl ReadResourceResult {
    /// The answer holding `contents`.
    pub fn new(contents: Vec<ResourceContent>) -> (r: Self)
        ensures
            r.contents == contents,
            r.meta is None,
    {
        ReadResourceResult { contents, meta: None }
    }

    /// The answer holding `content` alone.
    pub fn single(content: ResourceContent) -> (r: Self)
        ensures
            r.contents@ == seq![content],
            r.meta is None,
    {
        ReadResourceResult::new(vec![content])
    }

    /// The same answer with `meta` as its `_meta`.
    pub fn with_meta(self, meta: Vec<(String, Json)>) -> (r: Self)
        ensures
            r.contents == self.contents,
            r.meta == Some(meta),
    {
        ReadResourceResult { meta: Some(meta), ..self }
    }
}

/// Parameters of a subscription to a resource's updates.
#[derive(Debug, Clone)]
pub struct ResourceSubscription {
    /// URI of the resource.
    pub uri: String,
}

impl ResourceSubscription {
    /// A subscription to `uri`.
    pub fn new(uri: &str) -> (r: Self)
        ensures
            r.uri@ == uri@,
    {
        ResourceSubscription { uri: owned(uri) }
    }
}

} // verus!
