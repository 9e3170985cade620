//! Audit events emitted at the end of every defense run.
use vstd::prelude::*;

verus! {

/// One completed defense run, as reported to an audit sink.
#[derive(Debug, Clone)]
pub struct PipelineAuditEvent {
    pub tenant_id: Option<String>,
    pub source: String,
    pub verdict: String,
    pub alert_count: usize,
    pub stage_count: usize,
}

/// Receiver of audit events, for users of the library to implement.
pub trait AuditSink {
    fn emit(&self, event: &PipelineAuditEvent);
}

/// A sink that drops every event.
#[derive(Debug, Default, Clone, Copy)]
pub struct NoopAuditSink;

impl AuditSink for NoopAuditSink {
    fn emit(&self, event: &PipelineAuditEvent) {
    }
}

} // verus!
