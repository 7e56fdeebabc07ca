use vstd::prelude::*;

use crate::types::ResourceId;

verus! {

/// The JSON error of serde_json, carried as it is.
#[verifier::external_type_specification]
#[verifier::external_body]
pub struct ExJsonError(serde_json::Error);

/// The I/O error of std, carried as it is.
#[verifier::external_type_specification]
#[verifier::external_body]
pub struct ExIoError(std::io::Error);

/// Result type used throughout the library.
pub type LighthouseResult<T> = Result<T, LighthouseError>;

/// All errors that can occur in the library.
#[derive(Debug)]
pub enum LighthouseError {
    /// Configuration-related errors.
    Config { message: String },
    /// Resource not found or invalid.
    ResourceNotFound { resource_id: ResourceId },
    /// Invalid or missing metrics.
    InvalidMetric { message: String },
    /// Callback execution failed.
    CallbackFailed { operation: String, message: String },
    /// Engine is not running or has stopped.
    EngineNotRunning { message: String },
    /// Policy evaluation failed.
    PolicyEvaluation { policy_name: String, message: String },
    /// Channel communication error (internal).
    ChannelError { message: String },
    /// Serialization/deserialization errors.
    Serialization { source: serde_json::Error },
    /// IO-related errors.
    Io { source: std::io::Error },
    /// Generic error for unexpected situations.
    Unexpected { message: String },
}

impl LighthouseError {
    pub fn config(message: &str) -> (e: Self)
        ensures
            e matches LighthouseError::Config { message: m } && m@ == message@,
    {
        LighthouseError::Config { message: message.to_string() }
    }

    pub fn resource_not_found(resource_id: &str) -> (e: Self)
        ensures
            e matches LighthouseError::ResourceNotFound { resource_id: r } && r@ == resource_id@,
    {
        LighthouseError::ResourceNotFound { resource_id: resource_id.to_string() }
    }

    pub fn invalid_metric(message: &str) -> (e: Self)
        ensures
            e matches LighthouseError::InvalidMetric { message: m } && m@ == message@,
    {
        LighthouseError::InvalidMetric { message: message.to_string() }
    }

    pub fn callback_failed(operation: &str, message: &str) -> (e: Self)
        ensures
            e matches LighthouseError::CallbackFailed { operation: o, message: m } && o@ == operation@
                && m@ == message@,
    {
        LighthouseError::CallbackFailed {
            operation: operation.to_string(),
            message: message.to_string(),
        }
    }

    pub fn engine_not_running(message: &str) -> (e: Self)
        ensures
            e matches LighthouseError::EngineNotRunning { message: m } && m@ == message@,
    {
        LighthouseError::EngineNotRunning { message: message.to_string() }
    }

    pub fn policy_evaluation(policy_name: &str, message: &str) -> (e: Self)
        ensures
            e matches LighthouseError::PolicyEvaluation { policy_name: p, message: m } && p@
                == policy_name@ && m@ == message@,
    {
        LighthouseError::PolicyEvaluation {
            policy_name: policy_name.to_string(),
            message: message.to_string(),
        }
    }

    pub fn unexpected(message: &str) -> (e: Self)
        ensures
            e matches LighthouseError::Unexpected { message: m } && m@ == message@,
    {
        LighthouseError::Unexpected { message: message.to_string() }
    }
}

} // verus!
