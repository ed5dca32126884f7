//! Core logic of the StratMaster desktop shell: hardware-capability
//! classification and service-health aggregation, plus the small shared
//! configuration and error model that both pieces use.
//!
//! The surrounding shell (window chrome, OS dialogs, network transport) is an
//! external collaborator: it performs the probes and OS queries and hands this
//! library plain values; every decision the library makes about those values
//! is verified.

use vstd::prelude::*;

pub mod config;
pub mod health;
pub mod system;

verus! {

/// Application configuration as the shell persists and exchanges it.
#[derive(Debug, Clone)]
pub struct AppConfig {
    pub api_base_url: String,
    pub auto_start_services: bool,
    pub theme: String,
    pub hardware_profile: HardwareProfile,
}

/// Capability tier recommended for the host. Exactly one tier applies to a
/// snapshot; `Custom` is only ever user-supplied, never auto-derived.
#[derive(Debug, Clone)]
pub enum HardwareProfile {
    HighPerformance,
    Standard,
    Lightweight,
    Custom(CustomHardwareConfig),
}

/// Explicit configuration record carried by the `Custom` tier.
#[derive(Debug, Clone)]
pub struct CustomHardwareConfig {
    pub max_memory_mb: u64,
    pub cpu_threads: usize,
    pub enable_gpu: bool,
    pub model_preference: String,
}

/// Error taxonomy of the core. Each variant carries a human-readable cause;
/// `message` renders the full caller-visible text.
#[derive(Debug, Clone)]
pub enum AppError {
    ApiConnectionFailed(String),
    ConfigError(String),
    FileSystemError(String),
    SystemDetectionError(String),
    ResponseParseFailed(String),
}

impl AppError {
    /// The full message of an error: a fixed prefix naming the failure class,
    /// followed by the carried cause.
    pub open spec fn spec_message(&self) -> Seq<char> {
        match self {
            AppError::ApiConnectionFailed(s) => "API connection failed: "@ + s@,
            AppError::ConfigError(s) => "Configuration error: "@ + s@,
            AppError::FileSystemError(s) => "File system error: "@ + s@,
            AppError::SystemDetectionError(s) => "System detection error: "@ + s@,
            AppError::ResponseParseFailed(s) => "Failed to parse health response: "@ + s@,
        }
    }

    pub fn message(&self) -> (r: String)
        ensures
            r@ == self.spec_message(),
    {
        match self {
            AppError::ApiConnectionFailed(s) => {
                String::from_str("API connection failed: ").concat(s.as_str())
            },
            AppError::ConfigError(s) => {
                String::from_str("Configuration error: ").concat(s.as_str())
            },
            AppError::FileSystemError(s) => {
                String::from_str("File system error: ").concat(s.as_str())
            },
            AppError::SystemDetectionError(s) => {
                String::from_str("System detection error: ").concat(s.as_str())
            },
            AppError::ResponseParseFailed(s) => {
                String::from_str("Failed to parse health response: ").concat(s.as_str())
            },
        }
    }
}

impl Default for AppConfig {
    /// The configuration a fresh installation starts from.
    fn default() -> (c: Self)
        ensures
            c.api_base_url@ == "http://localhost:8080"@,
            c.auto_start_services == false,
            c.theme@ == "auto"@,
            c.hardware_profile is Standard,
    {
        AppConfig {
            api_base_url: String::from_str("http://localhost:8080"),
            auto_start_services: false,
            theme: String::from_str("auto"),
            hardware_profile: HardwareProfile::Standard,
        }
    }
}

} // verus!
