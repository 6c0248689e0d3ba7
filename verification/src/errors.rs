use vstd::prelude::*;

verus! {

/// The closed set of failures this library reports.
///
/// Distinct kinds are kept apart because callers react differently to them:
/// a registry install failure with a usable stale copy is tolerated, while
/// every other kind aborts the request that raised it.
#[derive(Debug)]
pub enum ToolError {
    /// The release source was unreachable or returned no qualifying release.
    ReleaseLookup { detail: String },
    /// The located release has no asset under the expected name.
    AssetNotFound { asset_name: String },
    /// Fetching or unpacking a release asset failed.
    Download { detail: String },
    /// The package registry could not be queried.
    RegistryLookup { detail: String },
    /// A registry install failed and no usable local copy exists.
    Install { detail: String },
    /// The registry claimed a successful install but the entry point is missing.
    InstallIncomplete { entry_path: String },
    /// The tool identifier is not in the dispatch table.
    UnsupportedTool { tool_id: String },
    /// The debug request field is absent or names an unsupported kind.
    InvalidRequestKind,
    /// The caller's debug configuration does not have the expected shape.
    ConfigParse { detail: String },
    /// An attach-style debug session was requested.
    UnsupportedOperation,
}

/// The human-readable text for each error kind, with the offending value.
pub open spec fn error_message(e: ToolError) -> Seq<char> {
    match e {
        ToolError::ReleaseLookup { detail } => "release lookup failed: "@ + detail@,
        ToolError::AssetNotFound { asset_name } => "no asset found named "@ + asset_name@,
        ToolError::Download { detail } => "failed to download file error: "@ + detail@,
        ToolError::RegistryLookup { detail } => "registry lookup failed: "@ + detail@,
        ToolError::Install { detail } => "failed to install package: "@ + detail@,
        ToolError::InstallIncomplete { entry_path } => "install reported success but entry point is missing: "@
            + entry_path@,
        ToolError::UnsupportedTool { tool_id } => "Unrecognized language server for "@ + tool_id@,
        ToolError::InvalidRequestKind => "Invalid config"@,
        ToolError::ConfigParse { detail } => "`config` is not a valid JSON: "@ + detail@,
        ToolError::UnsupportedOperation => "Ton adapter doesn't support attaching"@,
    }
}

impl ToolError {
    /// Formats the error for a human, exactly as `error_message` states.
    pub fn message(&self) -> (r: String)
        ensures
            r@ == error_message(*self),
    {
        match self {
            ToolError::ReleaseLookup { detail } => {
                let mut m = "release lookup failed: ".to_owned();
                m.append(detail.as_str());
                m
            },
            ToolError::AssetNotFound { asset_name } => {
                let mut m = "no asset found named ".to_owned();
                m.append(asset_name.as_str());
                m
            },
            ToolError::Download { detail } => {
                let mut m = "failed to download file error: ".to_owned();
                m.append(detail.as_str());
                m
            },
            ToolError::RegistryLookup { detail } => {
                let mut m = "registry lookup failed: ".to_owned();
                m.append(detail.as_str());
                m
            },
            ToolError::Install { detail } => {
                let mut m = "failed to install package: ".to_owned();
                m.append(detail.as_str());
                m
            },
            ToolError::InstallIncomplete { entry_path } => {
                let mut m = "install reported success but entry point is missing: ".to_owned();
                m.append(entry_path.as_str());
                m
            },
            ToolError::UnsupportedTool { tool_id } => {
                let mut m = "Unrecognized language server for ".to_owned();
                m.append(tool_id.as_str());
                m
            },
            ToolError::InvalidRequestKind => "Invalid config".to_owned(),
            ToolError::ConfigParse { detail } => {
                let mut m = "`config` is not a valid JSON: ".to_owned();
                m.append(detail.as_str());
                m
            },
            ToolError::UnsupportedOperation => "Ton adapter doesn't support attaching".to_owned(),
        }
    }
}

} // verus!
