//! Audit records: who acted, in which tenant, and from where.

use vstd::prelude::*;
use crate::text::string_from_str;

verus! {

/// The context of an audited action: tenant and user (UUIDs as numbers), and the
/// client's address and agent where known.
#[derive(Debug, Clone)]
pub struct AuditContext {
    pub tenant_id: Option<u128>,
    pub user_id: Option<u128>,
    pub ip_address: Option<String>,
    pub user_agent: Option<String>,
}

impl AuditContext {
    /// A context for the tenant and user, with no request information.
    pub fn new(tenant_id: Option<u128>, user_id: Option<u128>) -> (c: Self)
        ensures
            c.tenant_id == tenant_id,
            c.user_id == user_id,
            c.ip_address is None,
            c.user_agent is None,
    {
        AuditContext { tenant_id, user_id, ip_address: None, user_agent: None }
    }

    /// The context with the request's address and agent.
    pub fn with_request_info(self, ip_address: Option<String>, user_agent: Option<String>) -> (c:
        Self)
        ensures
            c.tenant_id == self.tenant_id,
            c.user_id == self.user_id,
            c.ip_address == ip_address,
            c.user_agent == user_agent,
    {
        AuditContext { ip_address, user_agent, ..self }
    }
}

/// One entry of the audit log; the details are held as their JSON text.
#[derive(Debug, Clone)]
pub struct AuditLog {
    pub id: u128,
    pub tenant_id: Option<u128>,
    pub user_id: Option<u128>,
    pub action: String,
    pub resource_type: Option<String>,
    pub resource_id: Option<String>,
    pub details: String,
    pub ip_address: Option<String>,
    pub user_agent: Option<String>,
    pub created_at: i64,
}

/// The entry that records `action` by `user_id` in `tenant_id` at `now`, on the
/// resource named, with its details; the request's address and agent are not
/// recorded here.
pub fn log_entry(
    id: u128,
    tenant_id: Option<u128>,
    user_id: Option<u128>,
    action: &str,
    resource_type: Option<&str>,
    resource_id: Option<&str>,
    details: String,
    now: i64,
) -> (e: AuditLog)
    ensures
        e.id == id,
        e.tenant_id == tenant_id,
        e.user_id == user_id,
        e.action@ == action@,
        match resource_type {
            Some(t) => e.resource_type matches Some(x) && x@ == t@,
            None => e.resource_type is None,
        },
        match resource_id {
            Some(t) => e.resource_id matches Some(x) && x@ == t@,
            None => e.resource_id is None,
        },
        e.details == details,
        e.ip_address is None,
        e.user_agent is None,
        e.created_at == now,
{
    AuditLog {
        id,
        tenant_id,
        user_id,
        action: string_from_str(action),
        resource_type: match resource_type {
            Some(t) => Some(string_from_str(t)),
            None => None,
        },
        resource_id: match resource_id {
            Some(t) => Some(string_from_str(t)),
            None => None,
        },
        details,
        ip_address: None,
        user_agent: None,
        created_at: now,
    }
}

} // verus!
