use hypo::error::{ErrorKind, HypoError};

#[test]
fn test_exit_codes() {
    let e = HypoError::SignatureVerification("test".into());
    assert_eq!(e.exit_code(), 10);
    let e = HypoError::HashMismatch("test".into());
    assert_eq!(e.exit_code(), 11);
    let e = HypoError::Network("test".into());
    assert_eq!(e.exit_code(), 12);
    let e = HypoError::PackageNotFound("test".into());
    assert_eq!(e.exit_code(), 13);
    let e = HypoError::RegistryNotFound("test".into());
    assert_eq!(e.exit_code(), 13);
    let e = HypoError::FreezeViolation("test".into());
    assert_eq!(e.exit_code(), 14);
    let e = HypoError::DowngradeDetected("test".into());
    assert_eq!(e.exit_code(), 15);
    let e = HypoError::Database("test".into());
    assert_eq!(e.exit_code(), 1);
    let e = HypoError::Config("test".into());
    assert_eq!(e.exit_code(), 1);
}

#[test]
fn error_message_has_kind_label() {
    let e = HypoError::HashMismatch("abc".into());
    assert_eq!(e.message(), "哈希不匹配: abc");
    assert_eq!(e.kind(), ErrorKind::HashMismatch);
    assert_eq!(e.detail(), "abc");
    let e = HypoError::GpgNoPubkey("F00".into());
    assert_eq!(e.message(), "GPG 公钥未找到，指纹: F00");
    let e = HypoError::Io("disk".into());
    assert_eq!(e.message(), "IO 错误: disk");
    assert_eq!(e.exit_code(), 1);
}
