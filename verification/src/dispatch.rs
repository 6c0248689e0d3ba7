use vstd::prelude::*;
use vstd::string::*;

use crate::errors::ToolError;
use crate::release::ReleaseSource;
use crate::textutil::str_eq;

verus! {

/// The fixed association of the one registry-installed tool: the package
/// to install and the entry point a finished install leaves behind.
pub struct PackageSource {
    pub package: String,
    pub entry_path: String,
}

/// Which resolver provisions a tool, with that resolver's configuration.
pub enum ToolRoute {
    ReleaseAsset(ReleaseSource),
    RegistryPackage(PackageSource),
}

/// The tool identifiers provisioned from release assets.
pub open spec fn is_release_tool(id: Seq<char>) -> bool {
    id == "func"@ || id == "tolk"@ || id == "fift"@ || id == "tlb"@
}

/// The tool identifier provisioned from the package registry.
pub open spec fn is_registry_tool(id: Seq<char>) -> bool {
    id == "tact"@
}

pub open spec fn is_known_tool(id: Seq<char>) -> bool {
    is_release_tool(id) || is_registry_tool(id)
}

/// The release source every release-asset tool resolves against.
pub open spec fn is_ton_release_source(s: ReleaseSource) -> bool {
    &&& s.repository@ == "ton-blockchain/ton-language-server"@
    &&& s.asset_prefix@ == "ton-language-server-"@
    &&& s.asset_suffix@ == ".zip"@
    &&& s.dir_prefix@ == "ton-lsp-"@
    &&& s.entry_rel@ == "ton-language-server/server.js"@
}

/// The package source the registry-installed tool resolves against.
pub open spec fn is_tact_package_source(p: PackageSource) -> bool {
    &&& p.package@ == "@tact-lang/tact-language-server"@
    &&& p.entry_path@ == "node_modules/@tact-lang/tact-language-server/dist/server.js"@
}

/// The release source for the release-asset tools.
pub fn ton_release_source() -> (s: ReleaseSource)
    ensures
        is_ton_release_source(s),
{
    ReleaseSource {
        repository: "ton-blockchain/ton-language-server".to_owned(),
        asset_prefix: "ton-language-server-".to_owned(),
        asset_suffix: ".zip".to_owned(),
        dir_prefix: "ton-lsp-".to_owned(),
        entry_rel: "ton-language-server/server.js".to_owned(),
    }
}

/// The package source for the registry-installed tool.
pub fn tact_package_source() -> (p: PackageSource)
    ensures
        is_tact_package_source(p),
{
    PackageSource {
        package: "@tact-lang/tact-language-server".to_owned(),
        entry_path: "node_modules/@tact-lang/tact-language-server/dist/server.js".to_owned(),
    }
}

/// The dispatch table: each known tool identifier routes to exactly one
/// resolver with its fixed configuration; every other identifier fails,
/// naming the identifier it rejected.
pub fn route_for(tool_id: &str) -> (r: Result<ToolRoute, ToolError>)
    ensures
        is_release_tool(tool_id@) ==> (r matches Ok(ToolRoute::ReleaseAsset(s))
            && is_ton_release_source(s)),
        is_registry_tool(tool_id@) ==> (r matches Ok(ToolRoute::RegistryPackage(p))
            && is_tact_package_source(p)),
        !is_known_tool(tool_id@) ==> (r matches Err(e) && (match e {
            ToolError::UnsupportedTool { tool_id: t } => t@ == tool_id@,
            _ => false,
        })),
{
    proof {
        reveal_strlit("func");
        reveal_strlit("tolk");
        reveal_strlit("fift");
        reveal_strlit("tlb");
        reveal_strlit("tact");
        assert("tact"@[0] != "func"@[0]);
        assert("tact"@[1] != "tolk"@[1]);
        assert("tact"@[0] != "fift"@[0]);
        assert("tact"@.len() != "tlb"@.len());
    }
    if str_eq(tool_id, "func") || str_eq(tool_id, "tolk") || str_eq(tool_id, "fift") || str_eq(
        tool_id,
        "tlb",
    ) {
        Ok(ToolRoute::ReleaseAsset(ton_release_source()))
    } else if str_eq(tool_id, "tact") {
        Ok(ToolRoute::RegistryPackage(tact_package_source()))
    } else {
        Err(ToolError::UnsupportedTool { tool_id: tool_id.to_owned() })
    }
}

/// A runnable command description; ownership passes to the caller, which
/// spawns it.
pub struct ResolvedCommand {
    pub command: String,
    pub args: Vec<String>,
    pub env: Vec<(String, String)>,
}

/// A path anchored against the working directory: an already-absolute path
/// stands, any other is joined under the working directory.
pub open spec fn absolutized(cwd: Seq<char>, path: Seq<char>) -> Seq<char> {
    if path.len() > 0 && path[0] == '/' {
        path
    } else {
        cwd + "/"@ + path
    }
}

/// Wraps a resolved server path into a runnable command: the interpreter,
/// the path anchored at the caller's working directory, and the fixed
/// protocol flag, with an empty environment.
///
/// The working directory is ambient process state: the caller must pass
/// the directory the host expects tool-relative paths to resolve against.
pub fn wrap_command(interpreter: String, cwd: &str, resolved_path: &str) -> (c: ResolvedCommand)
    ensures
        c.command == interpreter,
        c.args@.len() == 2,
        c.args@[0]@ == absolutized(cwd@, resolved_path@),
        c.args@[1]@ == "--stdio"@,
        c.env@.len() == 0,
{
    let abs = if resolved_path.unicode_len() > 0 && resolved_path.get_char(0) == '/' {
        resolved_path.to_owned()
    } else {
        let mut m = cwd.to_owned();
        m.append("/");
        m.append(resolved_path);
        m
    };
    let mut args: Vec<String> = Vec::new();
    args.push(abs);
    args.push("--stdio".to_owned());
    ResolvedCommand { command: interpreter, args, env: Vec::new() }
}

} // verus!
