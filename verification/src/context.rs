//! What a request carries besides its payload: who and where it comes from,
//! whom it acts for, how to trace it and by when it must finish.

use vstd::prelude::*;
use std::time::SystemTime;

verus! {

fn clone_opt(o: &Option<String>) -> (r: Option<String>)
    ensures
        r == *o,
{
    match o {
        Some(s) => Some(s.clone()),
        None => None,
    }
}

/// Where a request comes from.
#[derive(Debug, Clone, Copy, PartialEq, Eq, Structural)]
pub enum RequestSource {
    System,
    Http,
    Grpc,
    Cli,
    Job,
    EventConsumer,
}

/// The identity of a request and of the requests it follows from.
#[derive(Debug, PartialEq, Eq)]
pub struct RequestMeta {
    pub request_id: String,
    pub correlation_id: Option<String>,
    pub causation_id: Option<String>,
    pub source: RequestSource,
}

impl Clone for RequestMeta {
    fn clone(&self) -> (r: Self)
        ensures
            r == *self,
    {
        RequestMeta {
            request_id: self.request_id.clone(),
            correlation_id: clone_opt(&self.correlation_id),
            causation_id: clone_opt(&self.causation_id),
            source: self.source,
        }
    }
}

/// The user a request acts for, with the roles the user holds.
#[derive(Debug, PartialEq, Eq)]
pub struct ActorContext {
    pub user_id: String,
    pub roles: Vec<String>,
}

impl Clone for ActorContext {
    fn clone(&self) -> (r: Self)
        ensures
            r.user_id == self.user_id,
            r.roles@ == self.roles@,
    {
        let mut roles: Vec<String> = Vec::new();
        let mut i: usize = 0;
        while i < self.roles.len()
            invariant
                i <= self.roles@.len(),
                roles@ == self.roles@.subrange(0, i as int),
            decreases self.roles@.len() - i,
        {
            roles.push(self.roles[i].clone());
            i = i + 1;
            proof {
                assert(roles@ =~= self.roles@.subrange(0, i as int));
            }
        }
        proof {
            assert(roles@ =~= self.roles@);
        }
        ActorContext { user_id: self.user_id.clone(), roles }
    }
}

/// The tenant, and perhaps the workspace, a request acts in.
#[derive(Debug, PartialEq, Eq)]
pub struct TenancyContext {
    pub tenant_id: String,
    pub workspace_id: Option<String>,
}

impl Clone for TenancyContext {
    fn clone(&self) -> (r: Self)
        ensures
            r == *self,
    {
        TenancyContext { tenant_id: self.tenant_id.clone(), workspace_id: clone_opt(&self.workspace_id) }
    }
}

/// The trace a request belongs to.
#[derive(Debug, PartialEq, Eq)]
pub struct TraceContext {
    pub trace_id: Option<String>,
    pub span_id: Option<String>,
}

impl Default for TraceContext {
    fn default() -> (t: Self)
        ensures
            t.trace_id is None,
            t.span_id is None,
    {
        TraceContext { trace_id: None, span_id: None }
    }
}

impl Clone for TraceContext {
    fn clone(&self) -> (r: Self)
        ensures
            r == *self,
    {
        TraceContext { trace_id: clone_opt(&self.trace_id), span_id: clone_opt(&self.span_id) }
    }
}

/// How a request is to be carried out: by when, and under which idempotency key.
#[derive(Debug, PartialEq, Eq)]
pub struct ExecutionContext {
    pub deadline_at: Option<SystemTime>,
    pub idempotency_key: Option<String>,
}

impl Default for ExecutionContext {
    fn default() -> (e: Self)
        ensures
            e.deadline_at is None,
            e.idempotency_key is None,
    {
        ExecutionContext { deadline_at: None, idempotency_key: None }
    }
}

impl Clone for ExecutionContext {
    fn clone(&self) -> (r: Self)
        ensures
            r == *self,
    {
        ExecutionContext {
            deadline_at: match &self.deadline_at {
                Some(t) => Some(*t),
                None => None,
            },
            idempotency_key: clone_opt(&self.idempotency_key),
        }
    }
}

/// Everything a request carries besides its payload.
#[derive(Debug, PartialEq, Eq)]
pub struct RequestContext {
    pub meta: RequestMeta,
    pub actor: Option<ActorContext>,
    pub tenancy: Option<TenancyContext>,
    pub trace: TraceContext,
    pub execution: ExecutionContext,
}

impl RequestContext {
    /// A request from `source` with the request identifier `system` and
    /// nothing else set.
    pub fn new(source: RequestSource) -> (c: Self)
        ensures
            c.meta.request_id@ == "system"@,
            c.meta.correlation_id is None,
            c.meta.causation_id is None,
            c.meta.source == source,
            c.actor is None,
            c.tenancy is None,
            c.trace.trace_id is None,
            c.trace.span_id is None,
            c.execution.deadline_at is None,
            c.execution.idempotency_key is None,
    {
        RequestContext {
            meta: RequestMeta {
                request_id: String::from_str("system"),
                correlation_id: None,
                causation_id: None,
                source,
            },
            actor: None,
            tenancy: None,
            trace: TraceContext::default(),
            execution: ExecutionContext::default(),
        }
    }

    /// A request the system makes of itself.
    pub fn system() -> (c: Self)
        ensures
            c.meta.request_id@ == "system"@,
            c.meta.correlation_id is None,
            c.meta.causation_id is None,
            c.meta.source == RequestSource::System,
            c.actor is None,
            c.tenancy is None,
            c.trace.trace_id is None,
            c.trace.span_id is None,
            c.execution.deadline_at is None,
            c.execution.idempotency_key is None,
    {
        Self::new(RequestSource::System)
    }

    /// The same request under the identifier `request_id`.
    pub fn with_request_id(self, request_id: &str) -> (c: Self)
        ensures
            c.meta.request_id@ == request_id@,
            c.meta.correlation_id == self.meta.correlation_id,
            c.meta.causation_id == self.meta.causation_id,
            c.meta.source == self.meta.source,
            c.actor == self.actor,
            c.tenancy == self.tenancy,
            c.trace == self.trace,
            c.execution == self.execution,
    {
        let mut c = self;
        c.meta.request_id = request_id.to_owned();
        c
    }

    /// The same request acting for `actor`.
    pub fn with_actor(self, actor: ActorContext) -> (c: Self)
        ensures
            c == (RequestContext { actor: Some(actor), ..self }),
    {
        let mut c = self;
        c.actor = Some(actor);
        c
    }

    /// The same request acting in `tenancy`.
    pub fn with_tenancy(self, tenancy: TenancyContext) -> (c: Self)
        ensures
            c == (RequestContext { tenancy: Some(tenancy), ..self }),
    {
        let mut c = self;
        c.tenancy = Some(tenancy);
        c
    }

    /// The same request in the trace `trace_id`.
    pub fn with_trace_id(self, trace_id: &str) -> (c: Self)
        ensures
            c.trace.trace_id matches Some(t) && t@ == trace_id@,
            c.trace.span_id == self.trace.span_id,
            c.meta == self.meta,
            c.actor == self.actor,
            c.tenancy == self.tenancy,
            c.execution == self.execution,
    {
        let mut c = self;
        c.trace.trace_id = Some(trace_id.to_owned());
        c
    }

    /// The same request under the idempotency key `key`.
    pub fn with_idempotency_key(self, key: &str) -> (c: Self)
        ensures
            c.execution.idempotency_key matches Some(k) && k@ == key@,
            c.execution.deadline_at == self.execution.deadline_at,
            c.meta == self.meta,
            c.actor == self.actor,
            c.tenancy == self.tenancy,
            c.trace == self.trace,
    {
        let mut c = self;
        c.execution.idempotency_key = Some(key.to_owned());
        c
    }

    /// The same request, due by `deadline_at`.
    pub fn with_deadline(self, deadline_at: SystemTime) -> (c: Self)
        ensures
            c.execution.deadline_at == Some(deadline_at),
            c.execution.idempotency_key == self.execution.idempotency_key,
            c.meta == self.meta,
            c.actor == self.actor,
            c.tenancy == self.tenancy,
            c.trace == self.trace,
    {
        let mut c = self;
        c.execution.deadline_at = Some(deadline_at);
        c
    }
}

impl Clone for RequestContext {
    fn clone(&self) -> (r: Self)
        ensures
            r.meta == self.meta,
            r.tenancy == self.tenancy,
            r.trace == self.trace,
            r.execution == self.execution,
            match (r.actor, self.actor) {
                (Some(a), Some(b)) => a.user_id == b.user_id && a.roles@ == b.roles@,
                (None, None) => true,
                _ => false,
            },
    {
        RequestContext {
            meta: self.meta.clone(),
            actor: match &self.actor {
                Some(a) => Some(a.clone()),
                None => None,
            },
            tenancy: match &self.tenancy {
                Some(t) => Some(t.clone()),
                None => None,
            },
            trace: self.trace.clone(),
            execution: self.execution.clone(),
        }
    }
}

impl Default for RequestContext {
    fn default() -> (c: Self)
        ensures
            c.meta.request_id@ == "system"@,
            c.meta.source == RequestSource::System,
            c.actor is None,
            c.tenancy is None,
            c.trace.trace_id is None,
            c.execution.deadline_at is None,
            c.execution.idempotency_key is None,
    {
        Self::system()
    }
}

} // verus!
