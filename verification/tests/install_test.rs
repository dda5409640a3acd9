use hypo::commands::info::{parse_package, parse_uninstall_target};
use hypo::commands::install::{
    apply_freeze, check_downgrade, check_freeze, determine_install_dir, find_index_package, find_version_info,
    freeze_warning, from_url_start, from_url_unsupported, select_platform_entry, target_version,
};
use hypo::commands::install_flow::{InstallFlow, InstallStage};
use hypo::commands::registry::export_content;
use hypo::db::{latest_seen_from_column, RegistryRecord};
use hypo::error::{ErrorKind, HypoError};
use hypo::package::hash::sha256_hex;
use hypo::package::manifest::{Manifest, PackageMeta, SandboxDecl, Scripts};
use hypo::registry::types::{
    HypoIndex, HypoIndexPackage, HypoIndexVersion, HypoPackage, HypoPackageEntry, KeyRotation, RegistryJson,
    ShardJson,
};
use hypo::str_map::StrMap;

fn version(v: &str, freeze: bool, reason: Option<&str>, rollback: Option<&str>) -> HypoIndexVersion {
    HypoIndexVersion {
        version: v.into(),
        released_at: "2024-01-01".into(),
        package_index_path: format!("tool/{v}/hypo-package.json"),
        manifest_path: format!("tool/{v}/manifest.toml"),
        manifest_sig_path: format!("tool/{v}/manifest.toml.sig"),
        freeze,
        freeze_reason: reason.map(|s| s.to_string()),
        rollback_version: rollback.map(|s| s.to_string()),
        hypo_deps: vec![],
        system_deps: vec![],
    }
}

fn index_package() -> HypoIndexPackage {
    HypoIndexPackage {
        name: "tool".into(),
        description: "a tool".into(),
        repo: "alice/tool".into(),
        latest_version: "1.2.0".into(),
        versions: vec![
            version("1.0.0", false, None, None),
            version("1.2.0", false, None, None),
            version("1.1.0", true, Some("bad build"), Some("1.0.0")),
        ],
    }
}

fn index() -> HypoIndex {
    HypoIndex { schema_version: 1, owner: "alice".into(), packages: vec![index_package()] }
}

fn entry(platform: &str) -> HypoPackageEntry {
    HypoPackageEntry {
        platform: platform.into(),
        arch: vec!["x86_64".into()],
        url: format!("https://alice.github.io/p/packages/tool-{platform}.hypo"),
        size: 10,
        sha256: "00".into(),
        sig_url: format!("https://alice.github.io/p/packages/tool-{platform}.hypo.sig"),
    }
}

#[test]
fn downgrade_protection() {
    assert!(check_downgrade(None, "1.0.0", false).is_ok());
    assert!(check_downgrade(Some("1.0.0"), "1.2.0", false).is_ok());
    assert!(check_downgrade(Some("1.2.0"), "1.2.0", false).is_ok());
    let e = check_downgrade(Some("2.0.0"), "1.2.0", false).unwrap_err();
    assert_eq!(e.exit_code(), 15);
    assert_eq!(e.detail(), "检测到降级: latest_seen=2.0.0, target=1.2.0。使用 --force 强制执行。");
    assert!(check_downgrade(Some("2.0.0"), "1.2.0", true).is_ok());
    assert!(check_downgrade(Some("not-semver"), "1.2.0", false).is_ok());
}

#[test]
fn freeze_protection() {
    let pkg = index_package();
    let frozen = &pkg.versions[2];
    let e = check_freeze(frozen, false, &pkg).unwrap_err();
    assert_eq!(e.exit_code(), 14);
    assert_eq!(
        e.detail(),
        "版本 1.1.0 已被冻结: Some(\"bad build\")。使用 --force 强制执行，或安装回退版本 1.0.0。"
    );
    assert!(check_freeze(frozen, true, &pkg).is_ok());
    assert!(check_freeze(&pkg.versions[0], false, &pkg).is_ok());
    assert_eq!(
        freeze_warning(frozen, true).as_deref(),
        Some("警告: 版本 1.1.0 已被冻结，原因: Some(\"bad build\")。强制安装。")
    );
    assert_eq!(freeze_warning(frozen, false), None);
    let mut no_rollback = version("3.0.0", true, None, None);
    no_rollback.freeze_reason = None;
    assert_eq!(
        check_freeze(&no_rollback, false, &pkg).unwrap_err().detail(),
        "版本 3.0.0 已被冻结: None。使用 --force 强制执行，或安装回退版本 1.2.0。"
    );
}

#[test]
fn choosing_package_version_and_build() {
    let idx = index();
    let pkg = find_index_package(&idx, "alice", "tool").unwrap();
    assert_eq!(pkg.name, "tool");
    assert_eq!(find_index_package(&idx, "alice", "nope").unwrap_err().detail(), "nope 不在 alice 的包列表中");
    assert_eq!(target_version(pkg, "").unwrap(), "1.2.0");
    assert_eq!(target_version(pkg, "< 1.2.0").unwrap(), "1.1.0");
    assert!(target_version(pkg, ">= 9").is_err());
    assert_eq!(find_version_info(pkg, "1.1.0").unwrap().freeze, true);
    assert!(find_version_info(pkg, "9.9.9").is_none());
    let hp = HypoPackage {
        schema_version: 1,
        name: "tool".into(),
        version: "1.2.0".into(),
        packages: vec![entry("macos"), entry("all"), entry("linux")],
    };
    assert_eq!(select_platform_entry(&hp, "linux").unwrap().platform, "all");
    assert_eq!(select_platform_entry(&hp, "macos").unwrap().platform, "macos");
    let only_win = HypoPackage { packages: vec![entry("windows")], ..hp.clone() };
    assert_eq!(select_platform_entry(&only_win, "linux").unwrap_err().detail(), "当前平台 linux 无可用包");
    assert_eq!(determine_install_dir("/home/u", "alice", "tool"), "/home/u/.hypo/apps/alice/tool");
}

#[test]
fn install_from_custom_url() {
    let (base, line, trust) = from_url_start("https://alice.github.io/pkgs//");
    assert_eq!(base, "https://alice.github.io/pkgs");
    assert_eq!(line, "从自定义 URL 安装: https://alice.github.io/pkgs");
    assert_eq!(trust, "检测到 GitHub Pages，自动建立信任");
    let (_, _, trust) = from_url_start("https://example.com/pkgs");
    assert_eq!(trust, "非 GitHub Pages URL，使用 TOFU 信任模型");
    let e = from_url_unsupported();
    assert_eq!(e.kind(), ErrorKind::Config);
    assert_eq!(e.detail(), "--from-url 完整安装流程将在集成测试阶段实现。请先使用官方目录安装。");
}

#[test]
fn package_references() {
    assert_eq!(parse_package("@alice/tool").unwrap(), ("alice".to_string(), "tool".to_string()));
    assert_eq!(parse_package("alice/tool").unwrap(), ("alice".to_string(), "tool".to_string()));
    assert_eq!(parse_package("@alice").unwrap_err().detail(), "无效的包名格式: alice，应为 @owner/pkg");
    assert_eq!(parse_uninstall_target("@alice").unwrap_err().detail(), "无效的包名格式: @alice，应为 @owner/pkg");
    assert_eq!(parse_uninstall_target("@a/b/c").unwrap(), ("a".to_string(), "b/c".to_string()));
}

#[test]
fn registry_export_and_database_columns() {
    let regs = vec![
        RegistryRecord { id: 1, name: "a".into(), base_pkg_url: "https://a".into(), is_official: false, added_at: "".into() },
        RegistryRecord { id: 2, name: "b".into(), base_pkg_url: "https://b".into(), is_official: false, added_at: "".into() },
    ];
    assert_eq!(export_content(&regs), "a = \"https://a\"\nb = \"https://b\"");
    assert_eq!(export_content(&[]), "");
    assert_eq!(latest_seen_from_column(Some("".into())), None);
    assert_eq!(latest_seen_from_column(Some("1.0.0".into())), Some("1.0.0".to_string()));
    assert_eq!(latest_seen_from_column(None), None);
}

// ── The whole flow ──────────────────────────────────────────────

fn manifest(install_hash: &str) -> Manifest {
    let mut hashes = StrMap::new();
    hashes.insert("tools/install.ps1".into(), install_hash.into());
    Manifest {
        package: PackageMeta {
            name: "tool".into(),
            version: "1.2.0".into(),
            description: "".into(),
            author: "alice".into(),
            repo: "alice/tool".into(),
            platform: "linux".into(),
            arch: vec![],
        },
        scripts: Scripts {
            install: "tools/install.ps1".into(),
            uninstall: None,
            update: None,
            pre_install: None,
            post_install: None,
            pre_uninstall: None,
            post_uninstall: None,
            pre_update: None,
            post_update: None,
        },
        interpreter: Default::default(),
        sandbox: SandboxDecl { allowed_write_paths: vec!["~/tool".into()], allowed_network_egress: vec![] },
        dependencies: Default::default(),
        hashes,
    }
}

fn registry_with(shard_raw: &[u8]) -> RegistryJson {
    let mut hashes = StrMap::new();
    hashes.insert("a/alice.json".into(), format!("sha256:{}", sha256_hex(shard_raw)));
    RegistryJson {
        schema_version: 1,
        snapshot_version: 7,
        shards: vec!["a".into()],
        shard_hashes: hashes,
        official_key_fingerprints: vec![],
        key_rotation: KeyRotation {
            old_key_fingerprint: "".into(),
            old_key_retired_at: "".into(),
            transition_period_days: 90,
        },
        key_update_url: "".into(),
        mirrors: vec![],
    }
}

fn shard() -> ShardJson {
    ShardJson {
        github_username: "alice".into(),
        gpg_key_fingerprints: vec!["AA".into()],
        base_pkg_url: "https://alice.github.io/p".into(),
        registered_at: "".into(),
    }
}

/// A `registry.sig` verified by the official key (fingerprints match up to case).
fn official() -> Result<String, HypoError> {
    Ok("placeholder_fingerprint_1".into())
}

/// A signature verified by the developer's key of `shard()`.
fn developer() -> Result<String, HypoError> {
    Ok("aa".into())
}

fn start(package: &str, force: bool) -> InstallFlow {
    let (flow, line) =
        InstallFlow::start(package, force, true, "/home/u".into(), "linux".into(), "linux".into(), "x86_64".into())
            .unwrap();
    assert_eq!(flow.stage, InstallStage::Registry);
    assert!(line.starts_with("正在安装 @alice/tool"));
    flow
}

#[test]
fn install_flow_runs_the_script_only_after_every_check() {
    let raw = b"{\"shard\":1}";
    let mut flow = start("@alice/tool", false);
    let url = flow.on_registry(&registry_with(raw), &official()).unwrap();
    assert_eq!(url, "https://hypo-org.github.io/directory/a/alice.json");
    let s = flow.on_shard(raw, Ok(shard())).unwrap();
    assert_eq!(s.github_username, "alice");
    assert_eq!(flow.on_trusted(Ok(())).unwrap(), "https://alice.github.io/p/hypo-index.json");
    flow.on_index(&index()).unwrap();
    assert_eq!(flow.version, "1.2.0");
    let (pkg_url, note) = flow.on_latest_seen(Some("1.0.0")).unwrap();
    assert_eq!(pkg_url, "https://alice.github.io/p/tool/1.2.0/hypo-package.json");
    assert_eq!(note, None);
    let hp = HypoPackage {
        schema_version: 1,
        name: "tool".into(),
        version: "1.2.0".into(),
        packages: vec![entry("windows"), entry("linux")],
    };
    let plan = flow.on_package(&hp).unwrap();
    assert_eq!(plan.dir, "/home/u/.hypo/tmp/alice-tool-1.2.0");
    assert_eq!(plan.package_url, "https://alice.github.io/p/packages/tool-linux.hypo");
    assert_eq!(plan.package_file, "/home/u/.hypo/tmp/alice-tool-1.2.0/tool-1.2.0.hypo");
    assert_eq!(plan.sig_file, "/home/u/.hypo/tmp/alice-tool-1.2.0/tool-1.2.0.hypo.sig");
    let (file, extract_dir) = flow.on_downloaded(&developer()).unwrap();
    assert_eq!(file, plan.package_file);
    assert_eq!(extract_dir, "/home/u/.hypo/tmp/alice-tool-1.2.0/extracted");
    let (m_url, s_url) = flow.on_extracted();
    assert_eq!(m_url, "https://alice.github.io/p/tool/1.2.0/manifest.toml");
    assert_eq!(s_url, "https://alice.github.io/p/tool/1.2.0/manifest.toml.sig");
    let script: &[u8] = b"Write-Host 'installing'";
    let digest = sha256_hex(script);
    flow.on_manifests(manifest(&digest), &manifest(&digest), &developer()).unwrap();
    let mut actual = StrMap::new();
    actual.insert("tools/install.ps1".into(), sha256_hex(script));
    actual.insert("manifest.toml".into(), sha256_hex(b"[package]"));
    let (executor, script_path) = flow.on_files_hashed(&actual).unwrap();
    assert_eq!(flow.stage, InstallStage::Script);
    assert_eq!(executor.package_name, "@alice/tool");
    assert_eq!(executor.package_version, "1.2.0");
    assert_eq!(executor.install_dir, "/home/u/.hypo/apps/alice/tool");
    assert_eq!(executor.content_dir, "/home/u/.hypo/tmp/alice-tool-1.2.0/extracted/content");
    assert_eq!(executor.sandbox_info, "写入: [\"~/tool\"]");
    assert!(executor.skip_confirm);
    assert_eq!(script_path, "/home/u/.hypo/tmp/alice-tool-1.2.0/extracted/tools/install.ps1");
    let record = flow.on_script_done();
    assert_eq!(record.install_path, "/home/u/.hypo/apps/alice/tool");
    assert_eq!(record.script_dir, "/home/u/.hypo/tmp/alice-tool-1.2.0/extracted/tools");
    assert_eq!(record.source_registry, "https://alice.github.io/p");
    assert_eq!(record.latest_seen_version, "1.2.0");
    let lock = flow.on_recorded();
    assert_eq!(lock.version, 1);
    assert_eq!(lock.packages.len(), 1);
    assert_eq!(lock.packages[0].owner, "alice");
    assert_eq!(lock.packages[0].name, "tool");
    assert_eq!(lock.packages[0].version, "1.2.0");
    assert_eq!(lock.packages[0].url, "https://alice.github.io/p/packages/tool-linux.hypo");
    assert_eq!(lock.packages[0].sha256, "00");
    assert_eq!(lock.packages[0].source_registry, "https://alice.github.io/p");
    assert_eq!(flow.on_lockfile_written(), "安装完成: @alice/tool v1.2.0");
    assert_eq!(flow.stage, InstallStage::Done);
}

#[test]
fn install_flow_stops_at_a_broken_link() {
    let raw = b"{\"shard\":1}";
    // A tampered shard.
    let mut flow = start("@alice/tool", false);
    flow.on_registry(&registry_with(raw), &official()).unwrap();
    let e = flow.on_shard(b"{\"shard\":2}", Ok(shard())).unwrap_err();
    assert_eq!(e.exit_code(), 11);
    assert_eq!(flow.stage, InstallStage::Shard);
    // A downgrade.
    let mut flow = start("@alice/tool", false);
    flow.on_registry(&registry_with(raw), &official()).unwrap();
    flow.on_shard(raw, Ok(shard())).unwrap();
    flow.on_trusted(Ok(())).unwrap();
    flow.on_index(&index()).unwrap();
    assert_eq!(flow.on_latest_seen(Some("2.0.0")).unwrap_err().exit_code(), 15);
    // A frozen version.
    let mut flow = start("@alice/tool =1.1.0", false);
    flow.on_registry(&registry_with(raw), &official()).unwrap();
    flow.on_shard(raw, Ok(shard())).unwrap();
    flow.on_trusted(Ok(())).unwrap();
    flow.on_index(&index()).unwrap();
    assert_eq!(flow.version, "1.1.0");
    assert_eq!(flow.on_latest_seen(None).unwrap_err().exit_code(), 14);
    // A frozen version with force: warned, not refused.
    let mut flow = start("@alice/tool =1.1.0", true);
    flow.on_registry(&registry_with(raw), &official()).unwrap();
    flow.on_shard(raw, Ok(shard())).unwrap();
    flow.on_trusted(Ok(())).unwrap();
    flow.on_index(&index()).unwrap();
    let (_, note) = flow.on_latest_seen(Some("2.0.0")).unwrap();
    assert!(note.unwrap().starts_with("警告: 版本 1.1.0 已被冻结"));
    // A tampered file.
    let mut flow = start("@alice/tool", false);
    flow.on_registry(&registry_with(raw), &official()).unwrap();
    flow.on_shard(raw, Ok(shard())).unwrap();
    flow.on_trusted(Ok(())).unwrap();
    flow.on_index(&index()).unwrap();
    flow.on_latest_seen(None).unwrap();
    let hp = HypoPackage { schema_version: 1, name: "tool".into(), version: "1.2.0".into(), packages: vec![entry("all")] };
    flow.on_package(&hp).unwrap();
    flow.on_downloaded(&developer()).unwrap();
    flow.on_extracted();
    let digest = sha256_hex(b"good");
    let mut other = manifest(&digest);
    other.package.author = "mallory".into();
    assert_eq!(flow.on_manifests(manifest(&digest), &other, &developer()).unwrap_err().kind(), ErrorKind::Config);
    flow.on_manifests(manifest(&digest), &manifest(&digest), &developer()).unwrap();
    let mut actual = StrMap::new();
    actual.insert("tools/install.ps1".into(), sha256_hex(b"evil"));
    assert_eq!(flow.on_files_hashed(&actual).unwrap_err().exit_code(), 11);
    assert_eq!(flow.stage, InstallStage::Hashes);
    // An unknown owner name.
    let mut flow = start("@alice/tool", false);
    let mut bad = start("@alice/tool", false);
    bad.owner = "bad_owner".into();
    assert_eq!(bad.on_registry(&registry_with(raw), &official()).unwrap_err().exit_code(), 13);
    assert!(flow.on_registry(&registry_with(raw), &official()).is_ok());
    assert!(InstallFlow::start("tool", false, false, "/h".into(), "linux".into(), "linux".into(), "x".into()).is_err());
}

fn frozen_latest_package(rollback: Option<&str>) -> HypoIndexPackage {
    HypoIndexPackage {
        name: "tool".into(),
        description: "".into(),
        repo: "alice/tool".into(),
        latest_version: "2.0.0".into(),
        versions: vec![
            version("1.0.0", false, None, None),
            version("2.0.0", true, Some("broken"), rollback),
            version("1.5.0", true, Some("old"), Some("1.0.0")),
        ],
    }
}

#[test]
fn freeze_protection_three_behaviours() {
    let pkg = frozen_latest_package(Some("1.0.0"));
    // Not frozen: installed as is.
    assert_eq!(apply_freeze(&pkg, "1.0.0", true, false).unwrap(), ("1.0.0".to_string(), None));
    assert_eq!(apply_freeze(&pkg, "9.9.9", false, false).unwrap(), ("9.9.9".to_string(), None));
    // Latest version frozen and not named: its rollback version, with a warning.
    let (v, w) = apply_freeze(&pkg, "2.0.0", false, false).unwrap();
    assert_eq!(v, "1.0.0");
    assert_eq!(w.as_deref(), Some("警告: 版本 2.0.0 已被冻结，原因: Some(\"broken\")。自动安装回退版本 1.0.0。"));
    // Named frozen version without force: refused.
    let e = apply_freeze(&pkg, "2.0.0", true, false).unwrap_err();
    assert_eq!(e.exit_code(), 14);
    assert_eq!(e.detail(), "版本 2.0.0 已被冻结: Some(\"broken\")。使用 --force 强制执行，或安装回退版本 1.0.0。");
    // With force: installed with a warning.
    let (v, w) = apply_freeze(&pkg, "2.0.0", true, true).unwrap();
    assert_eq!(v, "2.0.0");
    assert_eq!(w.as_deref(), Some("警告: 版本 2.0.0 已被冻结，原因: Some(\"broken\")。强制安装。"));
    // No rollback version: refused.
    let none = frozen_latest_package(None);
    assert_eq!(apply_freeze(&none, "2.0.0", false, false).unwrap_err().exit_code(), 14);
    // A frozen rollback version is refused too.
    let chain = frozen_latest_package(Some("1.5.0"));
    assert_eq!(
        apply_freeze(&chain, "2.0.0", false, false).unwrap_err().detail(),
        "版本 1.5.0 已被冻结: Some(\"old\")。使用 --force 强制执行，或安装回退版本 1.0.0。"
    );
}

#[test]
fn install_flow_rolls_back_a_frozen_latest_version() {
    let raw = b"{\"shard\":1}";
    let mut flow = start("@alice/tool", false);
    flow.on_registry(&registry_with(raw), &official()).unwrap();
    flow.on_shard(raw, Ok(shard())).unwrap();
    flow.on_trusted(Ok(())).unwrap();
    let idx = HypoIndex { schema_version: 1, owner: "alice".into(), packages: vec![frozen_latest_package(Some("1.0.0"))] };
    flow.on_index(&idx).unwrap();
    assert_eq!(flow.version, "2.0.0");
    // The registry's latest version is what downgrade protection compares.
    let (url, note) = flow.on_latest_seen(Some("2.0.0")).unwrap();
    assert_eq!(flow.version, "1.0.0");
    assert_eq!(url, "https://alice.github.io/p/tool/1.0.0/hypo-package.json");
    assert!(note.unwrap().contains("自动安装回退版本 1.0.0"));
    // A named frozen version is refused.
    let mut flow = start("@alice/tool =2.0.0", false);
    flow.on_registry(&registry_with(raw), &official()).unwrap();
    flow.on_shard(raw, Ok(shard())).unwrap();
    flow.on_trusted(Ok(())).unwrap();
    flow.on_index(&idx).unwrap();
    assert_eq!(flow.on_latest_seen(None).unwrap_err().exit_code(), 14);
    // A registry whose latest version went backwards is a downgrade.
    let mut flow = start("@alice/tool", false);
    flow.on_registry(&registry_with(raw), &official()).unwrap();
    flow.on_shard(raw, Ok(shard())).unwrap();
    flow.on_trusted(Ok(())).unwrap();
    flow.on_index(&idx).unwrap();
    let e = flow.on_latest_seen(Some("3.0.0")).unwrap_err();
    assert_eq!(e.detail(), "检测到降级: latest_seen=3.0.0, target=2.0.0。使用 --force 强制执行。");
}

#[test]
fn versioned_install_asks_for_exactly_that_version() {
    let raw = b"{\"shard\":1}";
    let (flow, line) =
        InstallFlow::start("@alice/tool@1.0.0", false, true, "/home/u".into(), "linux".into(), "linux".into(), "x".into())
            .unwrap();
    assert_eq!(line, "正在安装 @alice/tool ...");
    assert_eq!(flow.name, "tool");
    assert_eq!(flow.constraint, "=1.0.0");
    let mut flow = flow;
    flow.on_registry(&registry_with(raw), &official()).unwrap();
    flow.on_shard(raw, Ok(shard())).unwrap();
    flow.on_trusted(Ok(())).unwrap();
    flow.on_index(&index()).unwrap();
    assert_eq!(flow.version, "1.0.0");
    let (url, _) = flow.on_latest_seen(None).unwrap();
    assert_eq!(url, "https://alice.github.io/p/tool/1.0.0/hypo-package.json");
    // A version the developer never published is not found.
    let mut flow = start("@alice/tool@9.9.9", false);
    flow.on_registry(&registry_with(raw), &official()).unwrap();
    flow.on_shard(raw, Ok(shard())).unwrap();
    flow.on_trusted(Ok(())).unwrap();
    assert!(flow.on_index(&index()).is_err());
    // The declaration form is unchanged.
    let flow = start("@alice/tool >=1.0.0", false);
    assert_eq!(flow.name, "tool");
    assert_eq!(flow.constraint, ">=1.0.0");
}

#[test]
fn install_flow_requires_every_signature() {
    let raw = b"{\"shard\":1}";
    // registry.sig that did not verify.
    let mut flow = start("@alice/tool", false);
    let e = flow
        .on_registry(&registry_with(raw), &Err(HypoError::SignatureVerification("签名验证失败: bad".into())))
        .unwrap_err();
    assert_eq!(e.exit_code(), 10);
    assert_eq!(e.detail(), "签名验证失败: bad");
    assert_eq!(flow.stage, InstallStage::Registry);
    // registry.sig verified by a key that is not an official one.
    let e = flow.on_registry(&registry_with(raw), &Ok("BEEF".into())).unwrap_err();
    assert_eq!(e.exit_code(), 10);
    assert_eq!(e.detail(), "证书指纹 BEEF 不在受信任列表中");
    // Any other failure of the check counts as a signature failure.
    let e = flow.on_registry(&registry_with(raw), &Err(HypoError::Network("超时".into()))).unwrap_err();
    assert_eq!(e.exit_code(), 10);
    assert_eq!(e.detail(), "网络错误: 超时");
    // The developer's keys could not be trusted.
    flow.on_registry(&registry_with(raw), &official()).unwrap();
    flow.on_shard(raw, Ok(shard())).unwrap();
    let e = flow.on_trusted(Err(HypoError::GpgNoPubkey("无公钥".into()))).unwrap_err();
    assert_eq!(e.kind(), ErrorKind::GpgNoPubkey);
    assert_eq!(flow.stage, InstallStage::Trust);
    flow.on_trusted(Ok(())).unwrap();
    flow.on_index(&index()).unwrap();
    flow.on_latest_seen(None).unwrap();
    let hp = HypoPackage { schema_version: 1, name: "tool".into(), version: "1.2.0".into(), packages: vec![entry("all")] };
    flow.on_package(&hp).unwrap();
    // .hypo.sig by a key that is not the developer's.
    let e = flow.on_downloaded(&Ok("BB".into())).unwrap_err();
    assert_eq!(e.exit_code(), 10);
    assert_eq!(flow.stage, InstallStage::Download);
    flow.on_downloaded(&developer()).unwrap();
    flow.on_extracted();
    // manifest.toml.sig that did not verify.
    let digest = sha256_hex(b"good");
    let e = flow
        .on_manifests(manifest(&digest), &manifest(&digest), &Err(HypoError::SignatureVerification("x".into())))
        .unwrap_err();
    assert_eq!(e.exit_code(), 10);
    assert_eq!(flow.stage, InstallStage::Manifests);
    flow.on_manifests(manifest(&digest), &manifest(&digest), &developer()).unwrap();
    // A file that the manifest does not declare.
    let mut actual = StrMap::new();
    actual.insert("tools/install.ps1".into(), digest.clone());
    actual.insert("tools/extra.ps1".into(), digest.clone());
    let e = flow.on_files_hashed(&actual).unwrap_err();
    assert_eq!(e.exit_code(), 11);
    assert_eq!(e.detail(), "包内存在 manifest 未声明的文件: tools/extra.ps1");
    assert_eq!(flow.stage, InstallStage::Hashes);
}
