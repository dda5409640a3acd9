//! Error type of the library and its mapping to process exit codes.

use vstd::prelude::*;

verus! {

/// What went wrong, without the detail text.
#[derive(Debug, Clone, Copy, PartialEq, Eq, Structural)]
pub enum ErrorKind {
    Io,
    Sqlite,
    Sequoia,
    PowerShell,
    Network,
    SignatureVerification,
    HashMismatch,
    RegistryNotFound,
    PackageNotFound,
    GpgNoPubkey,
    FreezeViolation,
    DowngradeDetected,
    Database,
    Config,
}

/// Errors of hypo. Each variant carries a human readable detail text.
#[derive(Debug, Clone)]
pub enum HypoError {
    Io(String),
    Sqlite(String),
    Sequoia(String),
    PowerShell(String),
    Network(String),
    SignatureVerification(String),
    HashMismatch(String),
    RegistryNotFound(String),
    PackageNotFound(String),
    GpgNoPubkey(String),
    FreezeViolation(String),
    DowngradeDetected(String),
    Database(String),
    Config(String),
}

impl View for HypoError {
    type V = (ErrorKind, Seq<char>);

    open spec fn view(&self) -> (ErrorKind, Seq<char>) {
        match self {
            HypoError::Io(m) => (ErrorKind::Io, m@),
            HypoError::Sqlite(m) => (ErrorKind::Sqlite, m@),
            HypoError::Sequoia(m) => (ErrorKind::Sequoia, m@),
            HypoError::PowerShell(m) => (ErrorKind::PowerShell, m@),
            HypoError::Network(m) => (ErrorKind::Network, m@),
            HypoError::SignatureVerification(m) => (ErrorKind::SignatureVerification, m@),
            HypoError::HashMismatch(m) => (ErrorKind::HashMismatch, m@),
            HypoError::RegistryNotFound(m) => (ErrorKind::RegistryNotFound, m@),
            HypoError::PackageNotFound(m) => (ErrorKind::PackageNotFound, m@),
            HypoError::GpgNoPubkey(m) => (ErrorKind::GpgNoPubkey, m@),
            HypoError::FreezeViolation(m) => (ErrorKind::FreezeViolation, m@),
            HypoError::DowngradeDetected(m) => (ErrorKind::DowngradeDetected, m@),
            HypoError::Database(m) => (ErrorKind::Database, m@),
            HypoError::Config(m) => (ErrorKind::Config, m@),
        }
    }
}

/// Exit code of the command line tool for an error of the given kind.
///
/// | code | meaning |
/// |------|---------|
/// | 1 | general error |
/// | 10 | signature verification failed |
/// | 11 | hash mismatch |
/// | 12 | network error |
/// | 13 | registry or package not found |
/// | 14 | freeze violation |
/// | 15 | downgrade detected |
pub open spec fn exit_code_of(kind: ErrorKind) -> i32 {
    match kind {
        ErrorKind::SignatureVerification => 10,
        ErrorKind::HashMismatch => 11,
        ErrorKind::Network => 12,
        ErrorKind::RegistryNotFound | ErrorKind::PackageNotFound => 13,
        ErrorKind::FreezeViolation => 14,
        ErrorKind::DowngradeDetected => 15,
        _ => 1,
    }
}

/// The text that the error displays: a label for its kind, a colon and the detail.
pub open spec fn display_prefix(kind: ErrorKind) -> Seq<char> {
    match kind {
        ErrorKind::Io => "IO 错误: "@,
        ErrorKind::Sqlite => "SQLite 错误: "@,
        ErrorKind::Sequoia => "Sequoia/OpenPGP 错误: "@,
        ErrorKind::PowerShell => "PowerShell 执行错误: "@,
        ErrorKind::Network => "网络错误: "@,
        ErrorKind::SignatureVerification => "签名验证失败: "@,
        ErrorKind::HashMismatch => "哈希不匹配: "@,
        ErrorKind::RegistryNotFound => "Registry 未找到: "@,
        ErrorKind::PackageNotFound => "包未找到: "@,
        ErrorKind::GpgNoPubkey => "GPG 公钥未找到，指纹: "@,
        ErrorKind::FreezeViolation => "Freeze 违规: "@,
        ErrorKind::DowngradeDetected => "降级检测: "@,
        ErrorKind::Database => "数据库错误: "@,
        ErrorKind::Config => "配置错误: "@,
    }
}

impl HypoError {
    /// The kind of this error.
    pub fn kind(&self) -> (r: ErrorKind)
        ensures
            r == self@.0,
    {
        match self {
            HypoError::Io(_) => ErrorKind::Io,
            HypoError::Sqlite(_) => ErrorKind::Sqlite,
            HypoError::Sequoia(_) => ErrorKind::Sequoia,
            HypoError::PowerShell(_) => ErrorKind::PowerShell,
            HypoError::Network(_) => ErrorKind::Network,
            HypoError::SignatureVerification(_) => ErrorKind::SignatureVerification,
            HypoError::HashMismatch(_) => ErrorKind::HashMismatch,
            HypoError::RegistryNotFound(_) => ErrorKind::RegistryNotFound,
            HypoError::PackageNotFound(_) => ErrorKind::PackageNotFound,
            HypoError::GpgNoPubkey(_) => ErrorKind::GpgNoPubkey,
            HypoError::FreezeViolation(_) => ErrorKind::FreezeViolation,
            HypoError::DowngradeDetected(_) => ErrorKind::DowngradeDetected,
            HypoError::Database(_) => ErrorKind::Database,
            HypoError::Config(_) => ErrorKind::Config,
        }
    }

    /// The detail text of this error.
    pub fn detail(&self) -> (r: &String)
        ensures
            r@ == self@.1,
    {
        match self {
            HypoError::Io(m) => m,
            HypoError::Sqlite(m) => m,
            HypoError::Sequoia(m) => m,
            HypoError::PowerShell(m) => m,
            HypoError::Network(m) => m,
            HypoError::SignatureVerification(m) => m,
            HypoError::HashMismatch(m) => m,
            HypoError::RegistryNotFound(m) => m,
            HypoError::PackageNotFound(m) => m,
            HypoError::GpgNoPubkey(m) => m,
            HypoError::FreezeViolation(m) => m,
            HypoError::DowngradeDetected(m) => m,
            HypoError::Database(m) => m,
            HypoError::Config(m) => m,
        }
    }

    /// Returns the exit code that the command line tool ends with on this error.
    pub fn exit_code(&self) -> (r: i32)
        ensures
            r == exit_code_of(self@.0),
    {
        match self {
            HypoError::SignatureVerification(_) => 10,
            HypoError::HashMismatch(_) => 11,
            HypoError::Network(_) => 12,
            HypoError::RegistryNotFound(_) | HypoError::PackageNotFound(_) => 13,
            HypoError::FreezeViolation(_) => 14,
            HypoError::DowngradeDetected(_) => 15,
            _ => 1,
        }
    }

    /// The message that the error displays.
    pub fn message(&self) -> (r: String)
        ensures
            r@ == display_prefix(self@.0) + self@.1,
    {
        let prefix: &str = match self {
            HypoError::Io(_) => "IO 错误: ",
            HypoError::Sqlite(_) => "SQLite 错误: ",
            HypoError::Sequoia(_) => "Sequoia/OpenPGP 错误: ",
            HypoError::PowerShell(_) => "PowerShell 执行错误: ",
            HypoError::Network(_) => "网络错误: ",
            HypoError::SignatureVerification(_) => "签名验证失败: ",
            HypoError::HashMismatch(_) => "哈希不匹配: ",
            HypoError::RegistryNotFound(_) => "Registry 未找到: ",
            HypoError::PackageNotFound(_) => "包未找到: ",
            HypoError::GpgNoPubkey(_) => "GPG 公钥未找到，指纹: ",
            HypoError::FreezeViolation(_) => "Freeze 违规: ",
            HypoError::DowngradeDetected(_) => "降级检测: ",
            HypoError::Database(_) => "数据库错误: ",
            HypoError::Config(_) => "配置错误: ",
        };
        crate::text::concat(prefix, self.detail().as_str())
    }
}

} // verus!
