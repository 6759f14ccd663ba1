//! Values exchanged by the API and the records that describe containers
//! and jobs.

use vstd::prelude::*;
use vstd::string::*;
use std::collections::HashMap;
use crate::error::Error;
use crate::outside::{new_uuid, now_utc};

verus! {

/// A point in time: seconds and nanoseconds since the Unix epoch, UTC.
#[derive(Debug, Clone, Copy, PartialEq, Eq, Structural)]
pub struct Timestamp {
    pub secs: i64,
    pub nanos: u32,
}

/// The structured error of an API envelope.
#[derive(Debug, Clone)]
pub struct ApiError {
    pub code: String,
    pub message: String,
    pub details: Option<serde_json::Value>,
}

/// The uniform wrapper of every JSON response: exactly one of `data` and
/// `error` is present, with a fresh request id and the time of the answer.
#[derive(Debug, Clone)]
pub struct ApiResponse<T> {
    pub data: Option<T>,
    pub error: Option<ApiError>,
    pub request_id: String,
    pub timestamp: Timestamp,
}

impl<T> ApiResponse<T> {
    pub open spec fn wf(&self) -> bool {
        self.data.is_some() != self.error.is_some()
    }

    pub fn success(data: T) -> (r: Self)
        ensures
            r.wf(),
            r.data == Some(data),
            r.request_id@.len() == 36,
    {
        ApiResponse { data: Some(data), error: None, request_id: new_uuid(), timestamp: now_utc() }
    }

    pub fn error(code: String, message: String) -> (r: Self)
        ensures
            r.wf(),
            r.data.is_none(),
            r.error.unwrap().code == code,
            r.error.unwrap().message == message,
            r.error.unwrap().details.is_none(),
            r.request_id@.len() == 36,
    {
        ApiResponse {
            data: None,
            error: Some(ApiError { code, message, details: None }),
            request_id: new_uuid(),
            timestamp: now_utc(),
        }
    }

    pub fn error_with_details(code: String, message: String, details: serde_json::Value) -> (r:
        Self)
        ensures
            r.wf(),
            r.data.is_none(),
            r.error.unwrap().code == code,
            r.error.unwrap().message == message,
            r.error.unwrap().details == Some(details),
            r.request_id@.len() == 36,
    {
        ApiResponse {
            data: None,
            error: Some(ApiError { code, message, details: Some(details) }),
            request_id: new_uuid(),
            timestamp: now_utc(),
        }
    }

    /// The envelope that reports `err`: its code and its message.
    pub fn from_error(err: &Error) -> (r: Self)
        ensures
            r.wf(),
            r.data.is_none(),
            r.error.unwrap().code@ == err.spec_code(),
            r.error.unwrap().message@ == err.spec_message(),
            r.error.unwrap().details.is_none(),
    {
        Self::error(err.code(), err.message())
    }
}

/// One page of a listing.
#[derive(Debug, Clone)]
pub struct PaginatedResponse<T> {
    pub items: Vec<T>,
    pub total: u64,
    pub limit: u32,
    pub offset: u32,
    pub has_next: bool,
}

impl<T> PaginatedResponse<T> {
    /// A page at `offset` of at most `limit` items out of `total`; there is
    /// a next page when the page ends before `total`, compared in 32 bits.
    pub fn new(items: Vec<T>, total: u64, limit: u32, offset: u32) -> (r: Self)
        requires
            offset + limit <= u32::MAX,
        ensures
            r.items == items,
            r.total == total,
            r.limit == limit,
            r.offset == offset,
            r.has_next == (offset + limit < total as u32),
    {
        let has_next = offset + limit < total as u32;
        PaginatedResponse { items, total, limit, offset, has_next }
    }
}

/// The state of a dependency or of the whole service.
pub struct HealthStatus {
    pub status: String,
    pub timestamp: Timestamp,
    pub checks: Vec<(String, String)>,
    pub uptime: u64,
}

/// What is known of a file under the static root.
pub struct FileInfo {
    pub path: String,
    pub size: u64,
    pub mime_type: String,
    pub created_at: Timestamp,
    pub modified_at: Timestamp,
    pub etag: String,
    pub permissions: String,
}

#[derive(Debug, Clone, Copy, PartialEq, Eq, Structural)]
pub enum ContainerStatus {
    Created,
    Running,
    Paused,
    Restarting,
    Removing,
    Exited,
    Dead,
}

impl ContainerStatus {
    /// The lower-case name of the status.
    pub fn as_str(&self) -> (r: &'static str)
        ensures
            r@ == match self {
                ContainerStatus::Created => "created"@,
                ContainerStatus::Running => "running"@,
                ContainerStatus::Paused => "paused"@,
                ContainerStatus::Restarting => "restarting"@,
                ContainerStatus::Removing => "removing"@,
                ContainerStatus::Exited => "exited"@,
                ContainerStatus::Dead => "dead"@,
            },
    {
        match self {
            ContainerStatus::Created => "created",
            ContainerStatus::Running => "running",
            ContainerStatus::Paused => "paused",
            ContainerStatus::Restarting => "restarting",
            ContainerStatus::Removing => "removing",
            ContainerStatus::Exited => "exited",
            ContainerStatus::Dead => "dead",
        }
    }
}

#[derive(Debug, Clone)]
pub struct ContainerCreateRequest {
    pub name: String,
    pub image: String,
    pub command: Option<Vec<String>>,
    pub environment: Option<HashMap<String, String>>,
    pub ports: Option<HashMap<String, String>>,
    pub volumes: Option<HashMap<String, String>>,
    pub resources: Option<ResourceLimits>,
    pub network_mode: Option<String>,
    pub restart_policy: Option<String>,
    pub labels: Option<HashMap<String, String>>,
}

#[derive(Debug, Clone)]
pub struct ResourceLimits {
    pub cpu_limit: Option<String>,
    pub memory_limit: Option<String>,
    pub disk_limit: Option<String>,
}

#[derive(Debug, Clone, Copy, PartialEq, Eq, Structural)]
pub enum JobStatus {
    Queued,
    Running,
    Completed,
    Failed,
    Cancelled,
    Timeout,
}

impl JobStatus {
    /// The lower-case name of the status.
    pub fn as_str(&self) -> (r: &'static str)
        ensures
            r@ == match self {
                JobStatus::Queued => "queued"@,
                JobStatus::Running => "running"@,
                JobStatus::Completed => "completed"@,
                JobStatus::Failed => "failed"@,
                JobStatus::Cancelled => "cancelled"@,
                JobStatus::Timeout => "timeout"@,
            },
    {
        match self {
            JobStatus::Queued => "queued",
            JobStatus::Running => "running",
            JobStatus::Completed => "completed",
            JobStatus::Failed => "failed",
            JobStatus::Cancelled => "cancelled",
            JobStatus::Timeout => "timeout",
        }
    }
}

#[derive(Debug, Clone)]
pub struct JobCreateRequest {
    pub name: String,
    pub image: String,
    pub command: Option<Vec<String>>,
    pub environment: Option<HashMap<String, String>>,
    pub input_files: Option<Vec<FileMapping>>,
    pub output_patterns: Option<Vec<String>>,
    pub resources: Option<ResourceLimits>,
    pub priority: Option<String>,
    pub retry_policy: Option<RetryPolicy>,
    pub timeout: Option<String>,
}

#[derive(Debug, Clone)]
pub struct FileMapping {
    pub source: String,
    pub destination: String,
    pub permissions: Option<String>,
}

#[derive(Debug, Clone)]
pub struct RetryPolicy {
    pub max_attempts: u32,
    pub backoff: String,
    pub delay: Option<String>,
}

} // verus!
