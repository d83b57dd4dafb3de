//! The coverage table: one entry per upstream example directory, with the
//! kind of wire shape it holds, or marked as not modeled.

use vstd::prelude::*;
use crate::text::{text_lt, str_lt};

verus! {

/// What level of the wire a fixture represents.
#[derive(Debug, Clone, Copy, PartialEq, Eq, Structural)]
pub enum Kind {
    /// An inner shape only.
    Struct,
    /// A `*Params` shape inside a request envelope.
    Params,
    /// A request, with `method` and possibly `params`.
    Request,
    /// An inner result object.
    Result,
    /// A full JSON-RPC response envelope.
    Response,
    /// A full JSON-RPC notification envelope.
    Notification,
    /// A JSON-RPC `error` object on its own.
    ErrorEnvelope,
    /// A JSON Schema fragment.
    JsonSchemaFragment,
    /// Not bound to a type; skipped and counted as not modeled.
    NotModeled,
}

/// One upstream example directory and the kind of its binding.
#[derive(Debug, Clone, Copy)]
pub struct Case {
    /// The upstream directory name.
    pub dir: &'static str,
    pub kind: Kind,
}

/// The table, sorted by directory name.
pub open spec fn case_table() -> Seq<Case> {
    seq![
        Case { dir: "AudioContent", kind: Kind::NotModeled },
        Case { dir: "BlobResourceContents", kind: Kind::NotModeled },
        Case { dir: "BooleanSchema", kind: Kind::NotModeled },
        Case { dir: "CallToolRequest", kind: Kind::NotModeled },
        Case { dir: "CallToolRequestParams", kind: Kind::Params },
        Case { dir: "CallToolResult", kind: Kind::Result },
        Case { dir: "CallToolResultResponse", kind: Kind::NotModeled },
        Case { dir: "CancelledNotification", kind: Kind::NotModeled },
        Case { dir: "CancelledNotificationParams", kind: Kind::NotModeled },
        Case { dir: "ClientCapabilities", kind: Kind::NotModeled },
        Case { dir: "CompleteRequest", kind: Kind::NotModeled },
        Case { dir: "CompleteRequestParams", kind: Kind::NotModeled },
        Case { dir: "CompleteResult", kind: Kind::NotModeled },
        Case { dir: "CompleteResultResponse", kind: Kind::NotModeled },
        Case { dir: "CreateMessageRequest", kind: Kind::NotModeled },
        Case { dir: "CreateMessageRequestParams", kind: Kind::NotModeled },
        Case { dir: "CreateMessageResult", kind: Kind::NotModeled },
        Case { dir: "DiscoverRequest", kind: Kind::NotModeled },
        Case { dir: "DiscoverResult", kind: Kind::NotModeled },
        Case { dir: "DiscoverResultResponse", kind: Kind::NotModeled },
        Case { dir: "ElicitRequest", kind: Kind::NotModeled },
        Case { dir: "ElicitRequestFormParams", kind: Kind::NotModeled },
        Case { dir: "ElicitRequestURLParams", kind: Kind::NotModeled },
        Case { dir: "ElicitResult", kind: Kind::Result },
        Case { dir: "ElicitationCompleteNotification", kind: Kind::NotModeled },
        Case { dir: "EmbeddedResource", kind: Kind::NotModeled },
        Case { dir: "GetPromptRequest", kind: Kind::NotModeled },
        Case { dir: "GetPromptRequestParams", kind: Kind::NotModeled },
        Case { dir: "GetPromptResult", kind: Kind::NotModeled },
        Case { dir: "GetPromptResultResponse", kind: Kind::NotModeled },
        Case { dir: "ImageContent", kind: Kind::NotModeled },
        Case { dir: "InputRequests", kind: Kind::NotModeled },
        Case { dir: "InputRequiredResult", kind: Kind::NotModeled },
        Case { dir: "InputResponses", kind: Kind::NotModeled },
        Case { dir: "InternalError", kind: Kind::NotModeled },
        Case { dir: "InvalidParamsError", kind: Kind::NotModeled },
        Case { dir: "ListPromptsRequest", kind: Kind::NotModeled },
        Case { dir: "ListPromptsResult", kind: Kind::NotModeled },
        Case { dir: "ListPromptsResultResponse", kind: Kind::NotModeled },
        Case { dir: "ListResourceTemplatesRequest", kind: Kind::NotModeled },
        Case { dir: "ListResourceTemplatesResult", kind: Kind::NotModeled },
        Case { dir: "ListResourceTemplatesResultResponse", kind: Kind::NotModeled },
        Case { dir: "ListResourcesRequest", kind: Kind::NotModeled },
        Case { dir: "ListResourcesResult", kind: Kind::NotModeled },
        Case { dir: "ListResourcesResultResponse", kind: Kind::NotModeled },
        Case { dir: "ListRootsRequest", kind: Kind::NotModeled },
        Case { dir: "ListRootsResult", kind: Kind::Result },
        Case { dir: "ListToolsRequest", kind: Kind::NotModeled },
        Case { dir: "ListToolsResult", kind: Kind::Result },
        Case { dir: "ListToolsResultResponse", kind: Kind::NotModeled },
        Case { dir: "LoggingMessageNotification", kind: Kind::NotModeled },
        Case { dir: "LoggingMessageNotificationParams", kind: Kind::NotModeled },
        Case { dir: "MethodNotFoundError", kind: Kind::NotModeled },
        Case { dir: "MissingRequiredClientCapabilityError", kind: Kind::NotModeled },
        Case { dir: "ModelPreferences", kind: Kind::NotModeled },
        Case { dir: "NumberSchema", kind: Kind::NotModeled },
        Case { dir: "PaginatedRequestParams", kind: Kind::NotModeled },
        Case { dir: "ParseError", kind: Kind::NotModeled },
        Case { dir: "ProgressNotification", kind: Kind::NotModeled },
        Case { dir: "ProgressNotificationParams", kind: Kind::NotModeled },
        Case { dir: "PromptListChangedNotification", kind: Kind::NotModeled },
        Case { dir: "ReadResourceRequest", kind: Kind::NotModeled },
        Case { dir: "ReadResourceResult", kind: Kind::NotModeled },
        Case { dir: "ReadResourceResultResponse", kind: Kind::NotModeled },
        Case { dir: "Resource", kind: Kind::Struct },
        Case { dir: "ResourceLink", kind: Kind::NotModeled },
        Case { dir: "ResourceListChangedNotification", kind: Kind::NotModeled },
        Case { dir: "ResourceUpdatedNotification", kind: Kind::NotModeled },
        Case { dir: "ResourceUpdatedNotificationParams", kind: Kind::NotModeled },
        Case { dir: "Root", kind: Kind::Struct },
        Case { dir: "SamplingMessage", kind: Kind::NotModeled },
        Case { dir: "ServerCapabilities", kind: Kind::NotModeled },
        Case { dir: "StringSchema", kind: Kind::NotModeled },
        Case { dir: "SubscriptionsAcknowledgedNotification", kind: Kind::NotModeled },
        Case { dir: "SubscriptionsListenRequest", kind: Kind::NotModeled },
        Case { dir: "TextContent", kind: Kind::NotModeled },
        Case { dir: "TextResourceContents", kind: Kind::NotModeled },
        Case { dir: "TitledMultiSelectEnumSchema", kind: Kind::NotModeled },
        Case { dir: "TitledSingleSelectEnumSchema", kind: Kind::NotModeled },
        Case { dir: "Tool", kind: Kind::Struct },
        Case { dir: "ToolListChangedNotification", kind: Kind::NotModeled },
        Case { dir: "ToolResultContent", kind: Kind::NotModeled },
        Case { dir: "ToolUseContent", kind: Kind::NotModeled },
        Case { dir: "UnsupportedProtocolVersionError", kind: Kind::NotModeled },
        Case { dir: "UntitledMultiSelectEnumSchema", kind: Kind::NotModeled },
        Case { dir: "UntitledSingleSelectEnumSchema", kind: Kind::NotModeled }
    ]
}

/// The coverage table at the pinned upstream revision: one case per
/// example directory, sorted by directory name.
pub fn cases() -> (r: Vec<Case>)
    ensures
        r@ == case_table(),
{
    vec![
        Case { dir: "AudioContent", kind: Kind::NotModeled },
        Case { dir: "BlobResourceContents", kind: Kind::NotModeled },
        Case { dir: "BooleanSchema", kind: Kind::NotModeled },
        Case { dir: "CallToolRequest", kind: Kind::NotModeled },
        Case { dir: "CallToolRequestParams", kind: Kind::Params },
        Case { dir: "CallToolResult", kind: Kind::Result },
        Case { dir: "CallToolResultResponse", kind: Kind::NotModeled },
        Case { dir: "CancelledNotification", kind: Kind::NotModeled },
        Case { dir: "CancelledNotificationParams", kind: Kind::NotModeled },
        Case { dir: "ClientCapabilities", kind: Kind::NotModeled },
        Case { dir: "CompleteRequest", kind: Kind::NotModeled },
        Case { dir: "CompleteRequestParams", kind: Kind::NotModeled },
        Case { dir: "CompleteResult", kind: Kind::NotModeled },
        Case { dir: "CompleteResultResponse", kind: Kind::NotModeled },
        Case { dir: "CreateMessageRequest", kind: Kind::NotModeled },
        Case { dir: "CreateMessageRequestParams", kind: Kind::NotModeled },
        Case { dir: "CreateMessageResult", kind: Kind::NotModeled },
        Case { dir: "DiscoverRequest", kind: Kind::NotModeled },
        Case { dir: "DiscoverResult", kind: Kind::NotModeled },
        Case { dir: "DiscoverResultResponse", kind: Kind::NotModeled },
        Case { dir: "ElicitRequest", kind: Kind::NotModeled },
        Case { dir: "ElicitRequestFormParams", kind: Kind::NotModeled },
        Case { dir: "ElicitRequestURLParams", kind: Kind::NotModeled },
        Case { dir: "ElicitResult", kind: Kind::Result },
        Case { dir: "ElicitationCompleteNotification", kind: Kind::NotModeled },
        Case { dir: "EmbeddedResource", kind: Kind::NotModeled },
        Case { dir: "GetPromptRequest", kind: Kind::NotModeled },
        Case { dir: "GetPromptRequestParams", kind: Kind::NotModeled },
        Case { dir: "GetPromptResult", kind: Kind::NotModeled },
        Case { dir: "GetPromptResultResponse", kind: Kind::NotModeled },
        Case { dir: "ImageContent", kind: Kind::NotModeled },
        Case { dir: "InputRequests", kind: Kind::NotModeled },
        Case { dir: "InputRequiredResult", kind: Kind::NotModeled },
        Case { dir: "InputResponses", kind: Kind::NotModeled },
        Case { dir: "InternalError", kind: Kind::NotModeled },
        Case { dir: "InvalidParamsError", kind: Kind::NotModeled },
        Case { dir: "ListPromptsRequest", kind: Kind::NotModeled },
        Case { dir: "ListPromptsResult", kind: Kind::NotModeled },
        Case { dir: "ListPromptsResultResponse", kind: Kind::NotModeled },
        Case { dir: "ListResourceTemplatesRequest", kind: Kind::NotModeled },
        Case { dir: "ListResourceTemplatesResult", kind: Kind::NotModeled },
        Case { dir: "ListResourceTemplatesResultResponse", kind: Kind::NotModeled },
        Case { dir: "ListResourcesRequest", kind: Kind::NotModeled },
        Case { dir: "ListResourcesResult", kind: Kind::NotModeled },
        Case { dir: "ListResourcesResultResponse", kind: Kind::NotModeled },
        Case { dir: "ListRootsRequest", kind: Kind::NotModeled },
        Case { dir: "ListRootsResult", kind: Kind::Result },
        Case { dir: "ListToolsRequest", kind: Kind::NotModeled },
        Case { dir: "ListToolsResult", kind: Kind::Result },
        Case { dir: "ListToolsResultResponse", kind: Kind::NotModeled },
        Case { dir: "LoggingMessageNotification", kind: Kind::NotModeled },
        Case { dir: "LoggingMessageNotificationParams", kind: Kind::NotModeled },
        Case { dir: "MethodNotFoundError", kind: Kind::NotModeled },
        Case { dir: "MissingRequiredClientCapabilityError", kind: Kind::NotModeled },
        Case { dir: "ModelPreferences", kind: Kind::NotModeled },
        Case { dir: "NumberSchema", kind: Kind::NotModeled },
        Case { dir: "PaginatedRequestParams", kind: Kind::NotModeled },
        Case { dir: "ParseError", kind: Kind::NotModeled },
        Case { dir: "ProgressNotification", kind: Kind::NotModeled },
        Case { dir: "ProgressNotificationParams", kind: Kind::NotModeled },
        Case { dir: "PromptListChangedNotification", kind: Kind::NotModeled },
        Case { dir: "ReadResourceRequest", kind: Kind::NotModeled },
        Case { dir: "ReadResourceResult", kind: Kind::NotModeled },
        Case { dir: "ReadResourceResultResponse", kind: Kind::NotModeled },
        Case { dir: "Resource", kind: Kind::Struct },
        Case { dir: "ResourceLink", kind: Kind::NotModeled },
        Case { dir: "ResourceListChangedNotification", kind: Kind::NotModeled },
        Case { dir: "ResourceUpdatedNotification", kind: Kind::NotModeled },
        Case { dir: "ResourceUpdatedNotificationParams", kind: Kind::NotModeled },
        Case { dir: "Root", kind: Kind::Struct },
        Case { dir: "SamplingMessage", kind: Kind::NotModeled },
        Case { dir: "ServerCapabilities", kind: Kind::NotModeled },
        Case { dir: "StringSchema", kind: Kind::NotModeled },
        Case { dir: "SubscriptionsAcknowledgedNotification", kind: Kind::NotModeled },
        Case { dir: "SubscriptionsListenRequest", kind: Kind::NotModeled },
        Case { dir: "TextContent", kind: Kind::NotModeled },
        Case { dir: "TextResourceContents", kind: Kind::NotModeled },
        Case { dir: "TitledMultiSelectEnumSchema", kind: Kind::NotModeled },
        Case { dir: "TitledSingleSelectEnumSchema", kind: Kind::NotModeled },
        Case { dir: "Tool", kind: Kind::Struct },
        Case { dir: "ToolListChangedNotification", kind: Kind::NotModeled },
        Case { dir: "ToolResultContent", kind: Kind::NotModeled },
        Case { dir: "ToolUseContent", kind: Kind::NotModeled },
        Case { dir: "UnsupportedProtocolVersionError", kind: Kind::NotModeled },
        Case { dir: "UntitledMultiSelectEnumSchema", kind: Kind::NotModeled },
        Case { dir: "UntitledSingleSelectEnumSchema", kind: Kind::NotModeled },
    ]
}

/// Whether the directory names of `cs` are strictly ascending (so sorted
/// and free of repeats).
pub open spec fn dirs_strictly_ascending(cs: Seq<Case>) -> bool {
    forall|i: int| 0 <= i < cs.len() - 1 ==> text_lt(#[trigger] cs[i].dir@, cs[i + 1].dir@)
}

/// Checks that the directory names of `cs` are strictly ascending.
pub fn check_dirs_strictly_ascending(cs: &Vec<Case>) -> (r: bool)
    ensures
        r == dirs_strictly_ascending(cs@),
{
    if cs.len() == 0 {
        return true;
    }
    let mut i: usize = 0;
    while i < cs.len() - 1
        invariant
            cs@.len() > 0,
            i <= cs@.len() - 1,
            forall|j: int| 0 <= j < i && j < cs@.len() - 1 ==> text_lt(#[trigger] cs@[j].dir@, cs@[j + 1].dir@),
        decreases cs.len() - i,
    {
        if !str_lt(cs[i].dir, cs[i + 1].dir) {
            return false;
        }
        i = i + 1;
    }
    true
}

/// The number of cases of `cs` that are bound to a type.
pub open spec fn modeled_count(cs: Seq<Case>) -> nat
    decreases cs.len(),
{
    if cs.len() == 0 {
        0
    } else {
        modeled_count(cs.drop_last()) + if cs.last().kind == Kind::NotModeled { 0nat } else { 1nat }
    }
}

} // verus!
