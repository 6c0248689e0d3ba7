use ton_tooling::dispatch::{
    route_for, tact_package_source, ton_release_source, wrap_command, ToolRoute,
};
use ton_tooling::registry::{RegistryResolver, RegistryStep};
use ton_tooling::release::{
    expected_asset_name, find_asset, next_step, plan_fetch, AssetInfo, CacheDecision,
    ReleaseDescriptor,
};
use ton_tooling::ToolError;

#[test]
fn unknown_tool_is_rejected_with_its_name() {
    match route_for("swift") {
        Err(ToolError::UnsupportedTool { tool_id }) => assert_eq!(tool_id, "swift"),
        _ => panic!("expected UnsupportedTool"),
    }
    match route_for("") {
        Err(ToolError::UnsupportedTool { tool_id }) => assert_eq!(tool_id, ""),
        _ => panic!("expected UnsupportedTool"),
    }
}

#[test]
fn known_tools_route_to_their_resolver() {
    for id in ["func", "tolk", "fift", "tlb"] {
        match route_for(id) {
            Ok(ToolRoute::ReleaseAsset(s)) => {
                assert_eq!(s.repository, "ton-blockchain/ton-language-server");
                assert_eq!(s.asset_prefix, "ton-language-server-");
                assert_eq!(s.asset_suffix, ".zip");
                assert_eq!(s.dir_prefix, "ton-lsp-");
                assert_eq!(s.entry_rel, "ton-language-server/server.js");
            }
            _ => panic!("expected a release-asset route for {id}"),
        }
    }
    match route_for("tact") {
        Ok(ToolRoute::RegistryPackage(p)) => {
            assert_eq!(p.package, "@tact-lang/tact-language-server");
            assert_eq!(
                p.entry_path,
                "node_modules/@tact-lang/tact-language-server/dist/server.js"
            );
        }
        _ => panic!("expected the registry route for tact"),
    }
}

#[test]
fn asset_name_substitutes_the_version() {
    let src = ton_release_source();
    assert_eq!(
        expected_asset_name(&src, "1.2.3"),
        "ton-language-server-1.2.3.zip"
    );
}

#[test]
fn find_asset_matches_exactly_and_case_sensitively() {
    let assets = vec![
        AssetInfo {
            name: "Ton-Language-Server-1.0.0.zip".to_string(),
            download_url: "https://example.invalid/wrong-case".to_string(),
        },
        AssetInfo {
            name: "ton-language-server-1.0.0.zip".to_string(),
            download_url: "https://example.invalid/right".to_string(),
        },
    ];
    assert_eq!(find_asset(&assets, "ton-language-server-1.0.0.zip"), Some(1));
    assert_eq!(find_asset(&assets, "ton-language-server-2.0.0.zip"), None);
}

#[test]
fn resolution_is_idempotent_per_version() {
    let src = ton_release_source();
    let release = ReleaseDescriptor {
        version: "1.2.3".to_string(),
        assets: vec![AssetInfo {
            name: "ton-language-server-1.2.3.zip".to_string(),
            download_url: "https://example.invalid/a.zip".to_string(),
        }],
    };
    let plan = match plan_fetch(&src, &release) {
        Ok(p) => p,
        Err(_) => panic!("expected a plan"),
    };
    assert_eq!(plan.version_dir, "ton-lsp-1.2.3");
    assert_eq!(plan.entry_path, "ton-lsp-1.2.3/ton-language-server/server.js");
    assert_eq!(plan.download_url, "https://example.invalid/a.zip");

    let mut downloads = 0;
    // First resolution: the entry point does not exist yet.
    if next_step(false) == CacheDecision::Download {
        downloads += 1;
    }
    // Second resolution of the same version: the downloaded entry exists.
    if next_step(true) == CacheDecision::Download {
        downloads += 1;
    }
    assert_eq!(downloads, 1);
}

#[test]
fn missing_asset_names_the_attempted_name() {
    let src = ton_release_source();
    let release = ReleaseDescriptor {
        version: "2.0.0".to_string(),
        assets: vec![AssetInfo {
            name: "something-else.zip".to_string(),
            download_url: "https://example.invalid/other".to_string(),
        }],
    };
    match plan_fetch(&src, &release) {
        Err(ToolError::AssetNotFound { asset_name }) => {
            assert_eq!(asset_name, "ton-language-server-2.0.0.zip")
        }
        _ => panic!("expected AssetNotFound"),
    }
}

#[test]
fn incomplete_install_is_rejected() {
    let mut r = RegistryResolver::new();
    // The registry claims success but the entry point is still missing.
    match r.conclude(true, true, false, false, "node_modules/pkg/server.js", "") {
        Err(ToolError::InstallIncomplete { entry_path }) => {
            assert_eq!(entry_path, "node_modules/pkg/server.js")
        }
        _ => panic!("expected InstallIncomplete"),
    }
    assert!(!r.verified);
}

#[test]
fn failed_install_degrades_only_with_a_local_copy() {
    let mut r = RegistryResolver::new();
    // No local copy at all: the failure is surfaced.
    match r.conclude(true, false, false, false, "entry", "network down") {
        Err(ToolError::Install { detail }) => assert_eq!(detail, "network down"),
        _ => panic!("expected Install"),
    }
    assert!(!r.verified);
    // A stale copy survives from an earlier run: the failure is tolerated.
    let mut r2 = RegistryResolver::new();
    assert!(r2.conclude(true, false, true, true, "entry", "network down").is_ok());
    assert!(r2.verified);
}

#[test]
fn verified_resolver_makes_zero_queries() {
    let mut r = RegistryResolver::new();
    let mut queries = 0;

    // First round: nothing local, so the registry is queried and installs.
    if r.begin(false) == RegistryStep::CheckLatest {
        queries += 1;
    }
    assert!(r.install_needed(false, &None, "1.4.0"));
    assert!(r.conclude(true, true, true, false, "entry", "").is_ok());
    assert!(r.verified);

    // Second round: verified and the local file exists.
    let before = queries;
    match r.begin(true) {
        RegistryStep::UseLocal => {}
        RegistryStep::CheckLatest => queries += 1,
    }
    assert_eq!(queries, before);
}

#[test]
fn install_needed_compares_versions_exactly() {
    let r = RegistryResolver::new();
    assert!(r.install_needed(true, &None, "1.0.0"));
    assert!(r.install_needed(true, &Some("0.9.0".to_string()), "1.0.0"));
    assert!(!r.install_needed(true, &Some("1.0.0".to_string()), "1.0.0"));
    assert!(r.install_needed(false, &Some("1.0.0".to_string()), "1.0.0"));
}

#[test]
fn wrap_command_anchors_relative_paths() {
    let c = wrap_command("/usr/bin/node".to_string(), "/work", "ton-lsp-1.0.0/server.js");
    assert_eq!(c.command, "/usr/bin/node");
    assert_eq!(
        c.args,
        vec!["/work/ton-lsp-1.0.0/server.js".to_string(), "--stdio".to_string()]
    );
    assert!(c.env.is_empty());

    let c2 = wrap_command("/usr/bin/node".to_string(), "/work", "/opt/server.js");
    assert_eq!(c2.args[0], "/opt/server.js");
}

#[test]
fn error_messages_name_the_offending_value() {
    assert_eq!(
        ToolError::UnsupportedTool { tool_id: "zig".to_string() }.message(),
        "Unrecognized language server for zig"
    );
    assert_eq!(
        ToolError::AssetNotFound { asset_name: "a.zip".to_string() }.message(),
        "no asset found named a.zip"
    );
    assert_eq!(ToolError::InvalidRequestKind.message(), "Invalid config");
    assert_eq!(
        ToolError::UnsupportedOperation.message(),
        "Ton adapter doesn't support attaching"
    );
    assert_eq!(
        ToolError::Download { detail: "timeout".to_string() }.message(),
        "failed to download file error: timeout"
    );
    assert_eq!(
        ToolError::ReleaseLookup { detail: "offline".to_string() }.message(),
        "release lookup failed: offline"
    );
    assert_eq!(
        ToolError::RegistryLookup { detail: "offline".to_string() }.message(),
        "registry lookup failed: offline"
    );
    assert_eq!(
        ToolError::Install { detail: "denied".to_string() }.message(),
        "failed to install package: denied"
    );
    assert_eq!(
        ToolError::InstallIncomplete { entry_path: "e.js".to_string() }.message(),
        "install reported success but entry point is missing: e.js"
    );
}
