//! Commands.
use vstd::prelude::*;
use crate::domain::audit::TrustedAuditContext;
use crate::domain::idempotency::NewIdempotencyRecord;

verus! {

/// Why a command does not meet its contract: a rule of this layer, or one that was reported to it.
#[derive(Debug)]
pub enum Objection {
    Rule(&'static str),
    Reported(String),
}

impl Objection {
    /// The objection as a text.
    pub fn text(&self) -> (r: String)
        ensures
            r@ == (match self {
                Objection::Rule(t) => t@,
                Objection::Reported(t) => t@,
            }),
    {
        match self {
            Objection::Rule(t) => (*t).to_owned(),
            Objection::Reported(t) => t.clone(),
        }
    }
}

/// Who issues a command.
#[derive(Debug)]
pub struct Actor {
    pub subject: String,
}

/// The request that a command came with.
#[derive(Debug)]
pub struct RequestIdentity {
    pub correlation_id: String,
    pub request_id: String,
}

impl Clone for RequestIdentity {
    fn clone(&self) -> (r: Self)
        ensures
            r == *self,
    {
        RequestIdentity {
            correlation_id: self.correlation_id.clone(),
            request_id: self.request_id.clone(),
        }
    }
}

/// A command: what it does, under which idempotency key, for whom.
#[derive(Debug)]
pub struct MutationCommandContext {
    pub operation_type: String,
    pub idempotency_key: String,
    pub request_hash: String,
    pub actor: Actor,
    pub request: RequestIdentity,
    pub record: NewIdempotencyRecord,
    pub audit: TrustedAuditContext,
}

/// A command that outlives its request: what it does, under which key, for whom.
#[derive(Debug)]
pub struct DurableMutationContext {
    pub operation_type: String,
    pub idempotency_key: String,
    pub audit: TrustedAuditContext,
}

impl Clone for DurableMutationContext {
    fn clone(&self) -> (r: Self)
        ensures
            r == *self,
    {
        DurableMutationContext {
            operation_type: self.operation_type.clone(),
            idempotency_key: self.idempotency_key.clone(),
            audit: self.audit.clone(),
        }
    }
}

/// What the headers of an event are made of: the request of the command behind it, a command that
/// outlived its request, or headers that came with the command, as JSON.
#[derive(Debug)]
pub enum HeaderSource {
    Request(RequestIdentity),
    Durable(DurableMutationContext),
    Given(String),
}

impl Clone for HeaderSource {
    fn clone(&self) -> (r: Self)
        ensures
            r == *self,
    {
        match self {
            HeaderSource::Request(request) => HeaderSource::Request(request.clone()),
            HeaderSource::Durable(command) => HeaderSource::Durable(command.clone()),
            HeaderSource::Given(headers) => HeaderSource::Given(headers.clone()),
        }
    }
}

impl MutationCommandContext {
    /// What outlives the request.
    pub open spec fn lasting(self) -> DurableMutationContext {
        DurableMutationContext {
            operation_type: self.operation_type,
            idempotency_key: self.idempotency_key,
            audit: self.audit,
        }
    }

    /// What outlives the request.
    pub fn durable(&self) -> (r: DurableMutationContext)
        ensures
            r == self.lasting(),
    {
        DurableMutationContext {
            operation_type: self.operation_type.clone(),
            idempotency_key: self.idempotency_key.clone(),
            audit: self.audit.clone(),
        }
    }

    /// What the headers of the command's events are made of.
    pub open spec fn headers(self) -> HeaderSource {
        HeaderSource::Request(self.request)
    }

    /// What the headers of the command's events are made of.
    pub fn event_headers(&self) -> (r: HeaderSource)
        ensures
            r == self.headers(),
    {
        HeaderSource::Request(self.request.clone())
    }
}

impl DurableMutationContext {
    /// What the headers of the command's events are made of.
    pub open spec fn headers(self) -> HeaderSource {
        HeaderSource::Durable(self)
    }

    /// What the headers of the command's events are made of.
    pub fn event_headers(&self) -> (r: HeaderSource)
        ensures
            r == self.headers(),
    {
        HeaderSource::Durable(self.clone())
    }
}

} // verus!
