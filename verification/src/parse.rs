//! The typed parse step over the panel's JSON answers: every required
//! field is extracted by its fixed path, and the first missing or
//! mistyped field fails with an error naming it and carrying the whole
//! payload.

use vstd::prelude::*;

use crate::error::ApiError;
use crate::error::ToErrorContext;
use crate::json::Json;
use crate::json::spec_as_milli;
use crate::json::spec_as_str;
use crate::json::spec_as_u64;
use crate::json::spec_at;
use crate::json::spec_get;
use crate::json::spec_json_text;

verus! {

/// A point-in-time reading of the server, as the `status` command shows
/// it. Readings are in thousandths (see the `units` module); uptime is
/// in milliseconds, as the panel reports it.
#[derive(Debug)]
pub struct StatusSummary {
    pub current_state: String,
    pub cpu_milli_percent: u64,
    pub memory_milli_bytes: u64,
    pub disk_milli_bytes: u64,
    pub uptime_ms: u64,
}

/// Where the server can be reached, from the server-details answer.
#[derive(Debug)]
pub struct Allocation {
    pub ip: String,
    pub port: u16,
}

/// The value at `body.attributes.<key>`.
pub open spec fn spec_attr(body: Json, key: Seq<char>) -> Option<Json> {
    match spec_get(body, "attributes"@) {
        Some(a) => spec_get(a, key),
        None => None,
    }
}

/// The value at `body.attributes.resources.<key>`.
pub open spec fn spec_resource(body: Json, key: Seq<char>) -> Option<Json> {
    match spec_attr(body, "resources"@) {
        Some(rs) => spec_get(rs, key),
        None => None,
    }
}

/// The server state string of a resources answer.
pub open spec fn spec_state_of(body: Json) -> Option<Seq<char>> {
    match spec_attr(body, "current_state"@) {
        Some(v) => spec_as_str(v),
        None => None,
    }
}

/// The uptime in milliseconds of a resources answer.
pub open spec fn spec_uptime_of(body: Json) -> Option<u64> {
    match spec_resource(body, "uptime"@) {
        Some(v) => spec_as_u64(v),
        None => None,
    }
}

/// A numeric reading under `resources`, in thousandths.
pub open spec fn spec_reading_of(body: Json, key: Seq<char>) -> Option<u64> {
    match spec_resource(body, key) {
        Some(v) => spec_as_milli(v),
        None => None,
    }
}

/// Whether a resources answer carries every field the summary needs.
pub open spec fn spec_resources_complete(body: Json) -> bool {
    &&& spec_uptime_of(body) is Some
    &&& spec_state_of(body) is Some
    &&& spec_reading_of(body, "cpu_absolute"@) is Some
    &&& spec_reading_of(body, "memory_bytes"@) is Some
    &&& spec_reading_of(body, "disk_bytes"@) is Some
}

/// The message of the error a resources answer fails with: the first
/// missing field, in the order the fields are read.
pub open spec fn spec_resources_error_message(body: Json) -> Seq<char> {
    if spec_uptime_of(body) is None {
        "missing field: uptime"@
    } else if spec_state_of(body) is None {
        "missing field: current_state"@
    } else if spec_reading_of(body, "cpu_absolute"@) is None {
        "missing field: cpu_absolute"@
    } else if spec_reading_of(body, "memory_bytes"@) is None {
        "missing field: memory_bytes"@
    } else {
        "missing field: disk_bytes"@
    }
}

/// A resources answer that carries a readable uptime but no usable
/// `current_state` is incomplete, and the error built for it names
/// exactly that field. `parse_resources` therefore returns that message
/// with the whole answer as context, and `render_error` embeds both in
/// the reply. The uptime condition matters: the fields are read in a
/// fixed order with uptime first, so an answer missing both names
/// uptime instead.
pub proof fn lemma_missing_state_is_named(body: Json)
    requires
        spec_uptime_of(body) is Some,
        spec_state_of(body) is None,
    ensures
        !spec_resources_complete(body),
        spec_resources_error_message(body) == "missing field: current_state"@,
{
}

/// Extracts the status summary from a resources answer, or fails on the
/// first missing or mistyped field with an error naming that field and
/// carrying the whole answer as text.
pub fn parse_resources(body: &Json) -> (r: Result<StatusSummary, ApiError>)
    ensures
        r is Ok <==> spec_resources_complete(*body),
        r is Ok ==> {
            &&& Some(r->Ok_0.current_state@) == spec_state_of(*body)
            &&& Some(r->Ok_0.uptime_ms) == spec_uptime_of(*body)
            &&& Some(r->Ok_0.cpu_milli_percent) == spec_reading_of(*body, "cpu_absolute"@)
            &&& Some(r->Ok_0.memory_milli_bytes) == spec_reading_of(*body, "memory_bytes"@)
            &&& Some(r->Ok_0.disk_milli_bytes) == spec_reading_of(*body, "disk_bytes"@)
        },
        r is Err ==> r->Err_0.message@ == spec_resources_error_message(*body)
            && r->Err_0.context@ == spec_json_text(*body),
{
    let attributes = body.get("attributes");
    let resources = match attributes {
        Some(a) => a.get("resources"),
        None => None,
    };

    let uptime_opt: Option<u64> = match resources {
        Some(rs) => match rs.get("uptime") {
            Some(v) => v.as_u64(),
            None => None,
        },
        None => None,
    };
    let uptime_ms = match uptime_opt.to_error_context("missing field: uptime", body) {
        Ok(v) => v,
        Err(e) => {
            return Err(e);
        },
    };

    let state_opt: Option<String> = match attributes {
        Some(a) => match a.get("current_state") {
            Some(v) => match v.as_str() {
                Some(s) => Some(s.clone()),
                None => None,
            },
            None => None,
        },
        None => None,
    };
    let current_state = match state_opt.to_error_context("missing field: current_state", body) {
        Ok(v) => v,
        Err(e) => {
            return Err(e);
        },
    };

    let cpu_opt: Option<u64> = match resources {
        Some(rs) => match rs.get("cpu_absolute") {
            Some(v) => v.as_milli(),
            None => None,
        },
        None => None,
    };
    let cpu_milli_percent = match cpu_opt.to_error_context("missing field: cpu_absolute", body) {
        Ok(v) => v,
        Err(e) => {
            return Err(e);
        },
    };

    let memory_opt: Option<u64> = match resources {
        Some(rs) => match rs.get("memory_bytes") {
            Some(v) => v.as_milli(),
            None => None,
        },
        None => None,
    };
    let memory_milli_bytes = match memory_opt.to_error_context(
        "missing field: memory_bytes",
        body,
    ) {
        Ok(v) => v,
        Err(e) => {
            return Err(e);
        },
    };

    let disk_opt: Option<u64> = match resources {
        Some(rs) => match rs.get("disk_bytes") {
            Some(v) => v.as_milli(),
            None => None,
        },
        None => None,
    };
    let disk_milli_bytes = match disk_opt.to_error_context("missing field: disk_bytes", body) {
        Ok(v) => v,
        Err(e) => {
            return Err(e);
        },
    };

    Ok(
        StatusSummary {
            current_state,
            cpu_milli_percent,
            memory_milli_bytes,
            disk_milli_bytes,
            uptime_ms,
        },
    )
}

/// The allocation list entry of a server-details answer:
/// `body.attributes.relationships.allocations.data[0].attributes`.
pub open spec fn spec_allocation_attrs(body: Json) -> Option<Json> {
    match spec_attr(body, "relationships"@) {
        Some(rel) => match spec_get(rel, "allocations"@) {
            Some(al) => match spec_get(al, "data"@) {
                Some(data) => match spec_at(data, 0) {
                    Some(first) => spec_get(first, "attributes"@),
                    None => None,
                },
                None => None,
            },
            None => None,
        },
        None => None,
    }
}

/// The allocation IP string of a server-details answer.
pub open spec fn spec_ip_of(body: Json) -> Option<Seq<char>> {
    match spec_allocation_attrs(body) {
        Some(a) => match spec_get(a, "ip"@) {
            Some(v) => spec_as_str(v),
            None => None,
        },
        None => None,
    }
}

/// The allocation port of a server-details answer, when it is a whole
/// number that fits a port.
pub open spec fn spec_port_of(body: Json) -> Option<u16> {
    match spec_allocation_attrs(body) {
        Some(a) => match spec_get(a, "port"@) {
            Some(v) => match spec_as_u64(v) {
                Some(p) => if p <= 65535 {
                    Some(p as u16)
                } else {
                    None
                },
                None => None,
            },
            None => None,
        },
        None => None,
    }
}

/// The message of the error a server-details answer fails with.
pub open spec fn spec_allocation_error_message(body: Json) -> Seq<char> {
    if spec_ip_of(body) is None {
        "missing field: ip"@
    } else {
        "missing field: port"@
    }
}

/// Extracts the first allocation's IP and port from a server-details
/// answer, or fails on the first missing or mistyped field with an
/// error naming that field and carrying the whole answer as text.
pub fn parse_allocation(body: &Json) -> (r: Result<Allocation, ApiError>)
    ensures
        r is Ok <==> spec_ip_of(*body) is Some && spec_port_of(*body) is Some,
        r is Ok ==> Some(r->Ok_0.ip@) == spec_ip_of(*body) && Some(r->Ok_0.port) == spec_port_of(
            *body,
        ),
        r is Err ==> r->Err_0.message@ == spec_allocation_error_message(*body)
            && r->Err_0.context@ == spec_json_text(*body),
{
    let attrs: Option<&Json> = match body.get("attributes") {
        Some(a) => match a.get("relationships") {
            Some(rel) => match rel.get("allocations") {
                Some(al) => match al.get("data") {
                    Some(data) => match data.at(0) {
                        Some(first) => first.get("attributes"),
                        None => None,
                    },
                    None => None,
                },
                None => None,
            },
            None => None,
        },
        None => None,
    };

    let ip_opt: Option<String> = match attrs {
        Some(a) => match a.get("ip") {
            Some(v) => match v.as_str() {
                Some(s) => Some(s.clone()),
                None => None,
            },
            None => None,
        },
        None => None,
    };
    let ip = match ip_opt.to_error_context("missing field: ip", body) {
        Ok(v) => v,
        Err(e) => {
            return Err(e);
        },
    };

    let port_opt: Option<u16> = match attrs {
        Some(a) => match a.get("port") {
            Some(v) => match v.as_u64() {
                Some(p) => if p <= 65535 {
                    Some(p as u16)
                } else {
                    None
                },
                None => None,
            },
            None => None,
        },
        None => None,
    };
    let port = match port_opt.to_error_context("missing field: port", body) {
        Ok(v) => v,
        Err(e) => {
            return Err(e);
        },
    };

    Ok(Allocation { ip, port })
}

} // verus!
