use hypo::package::hash::{path_is_unsafe, sha256_hex, to_hex_lower, verify_files};
use hypo::package::manifest::{Interpreter, Manifest, PackageMeta, SandboxDecl, Scripts};
use hypo::str_map::StrMap;

fn manifest_with(hashes: StrMap<String>) -> Manifest {
    Manifest {
        package: PackageMeta {
            name: "test".into(),
            version: "1.0.0".into(),
            description: String::new(),
            author: "test".into(),
            repo: String::new(),
            platform: "windows".into(),
            arch: vec!["x86_64".into()],
        },
        scripts: Scripts {
            install: "tools/install.ps1".into(),
            uninstall: None,
            update: None,
            pre_install: None,
            post_install: None,
            pre_uninstall: None,
            post_uninstall: None,
            pre_update: None,
            post_update: None,
        },
        interpreter: Interpreter::default(),
        sandbox: SandboxDecl { allowed_write_paths: vec![], allowed_network_egress: vec![] },
        dependencies: Default::default(),
        hashes,
    }
}

/// The digests of files found in an unpacked package, as the caller computes them.
fn digests(files: &[(&str, &[u8])]) -> StrMap<String> {
    let mut m = StrMap::new();
    for (p, data) in files {
        m.insert(p.to_string(), sha256_hex(data));
    }
    m
}

#[test]
fn test_compute_sha256() {
    let hash = sha256_hex(b"hello hypo");
    assert_eq!(hash.len(), 64);
}

#[test]
fn test_compute_sha256_consistent() {
    assert_eq!(sha256_hex(b"same content"), sha256_hex(b"same content"));
}

#[test]
fn test_hash_mismatch_detected() {
    let hash1 = sha256_hex(b"original content for hash test");
    let hash2 = sha256_hex(b"tampered content");
    assert_ne!(hash1, hash2);
}

#[test]
fn sha256_of_known_inputs() {
    assert_eq!(sha256_hex(b"abc"), "ba7816bf8f01cfea414140de5dae2223b00361a396177a9cb410ff61f20015ad");
    assert_eq!(sha256_hex(b""), "e3b0c44298fc1c149afbf4c8996fb92427ae41e4649b934ca495991b7852b855");
    assert_eq!(to_hex_lower(&[0x00, 0xab, 0x10, 0xff]), "00ab10ff");
}

#[test]
fn test_verify_files_success() {
    let content: &[u8] = b"test content for verification";
    let mut hashes = StrMap::new();
    hashes.insert("tools/install.ps1".into(), sha256_hex(content));
    let manifest = manifest_with(hashes);
    let actual = digests(&[("tools/install.ps1", content)]);
    assert!(verify_files(&manifest, &actual).is_ok());
}

#[test]
fn test_verify_files_hash_mismatch() {
    let mut hashes = StrMap::new();
    hashes.insert("tools/install.ps1".into(), "deadbeef".into());
    let manifest = manifest_with(hashes);
    let actual = digests(&[("tools/install.ps1", b"actual content")]);
    assert!(verify_files(&manifest, &actual).is_err());
}

#[test]
fn test_verify_rejects_path_traversal() {
    let mut hashes = StrMap::new();
    hashes.insert("../etc/passwd".into(), "abc".into());
    let manifest = manifest_with(hashes);
    assert!(verify_files(&manifest, &StrMap::new()).is_err());
}

#[test]
fn test_verify_files_rejects_path_traversal() {
    let mut hashes = StrMap::new();
    hashes.insert("../etc/passwd".into(), "abc".into());
    hashes.insert("tools\\..\\..\\system".into(), "def".into());
    let manifest = manifest_with(hashes);
    assert!(verify_files(&manifest, &StrMap::new()).is_err());
}

#[test]
fn file_check_errors_name_the_file() {
    let mut hashes = StrMap::new();
    hashes.insert("a\\b".into(), "00".into());
    let e = verify_files(&manifest_with(hashes), &StrMap::new()).unwrap_err();
    assert_eq!(e.detail(), "manifest 中包含非法文件路径: a\\b");
    assert_eq!(e.exit_code(), 11);

    let mut hashes = StrMap::new();
    hashes.insert("missing.txt".into(), "00".into());
    let e = verify_files(&manifest_with(hashes), &StrMap::new()).unwrap_err();
    assert_eq!(e.detail(), "manifest 声明的文件在包中不存在: missing.txt");

    let mut hashes = StrMap::new();
    hashes.insert("f".into(), "DEADBEEF".into());
    let mut actual = StrMap::new();
    actual.insert("f".into(), "deadbeee".into());
    let e = verify_files(&manifest_with(hashes), &actual).unwrap_err();
    assert_eq!(e.detail(), "文件 f SHA256 不匹配：期望 DEADBEEF，实际 deadbeee");

    let mut hashes = StrMap::new();
    hashes.insert("f".into(), "DEADBEEF".into());
    let mut actual = StrMap::new();
    actual.insert("f".into(), "deadbeef".into());
    assert!(verify_files(&manifest_with(hashes), &actual).is_ok());
}

#[test]
fn unsafe_paths() {
    assert!(path_is_unsafe("../x"));
    assert!(path_is_unsafe("a/../../b"));
    assert!(path_is_unsafe("a\\b"));
    assert!(!path_is_unsafe("tools/install.ps1"));
    assert!(!path_is_unsafe("a.b/c"));
}

#[test]
fn extra_files_are_rejected() {
    let mut hashes = StrMap::new();
    hashes.insert("tools/install.ps1".into(), sha256_hex(b"a"));
    let manifest = manifest_with(hashes);
    let actual = digests(&[("tools/install.ps1", b"a"), ("tools/extra.ps1", b"b")]);
    let e = verify_files(&manifest, &actual).unwrap_err();
    assert_eq!(e.exit_code(), 11);
    assert_eq!(e.detail(), "包内存在 manifest 未声明的文件: tools/extra.ps1");
    // The manifest itself need not be declared.
    let actual = digests(&[("tools/install.ps1", b"a"), ("manifest.toml", b"m")]);
    assert!(verify_files(&manifest, &actual).is_ok());
    // A declared file's error comes first.
    let actual = digests(&[("tools/extra.ps1", b"b")]);
    let e = verify_files(&manifest, &actual).unwrap_err();
    assert_eq!(e.detail(), "manifest 声明的文件在包中不存在: tools/install.ps1");
}
