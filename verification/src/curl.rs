//! Dry-run output: the shell command equivalent to a broker call.
//!
//! When the user asks for a dry run, no network call is made; an equivalent
//! `curl` invocation is printed instead, with the `accepts_incomplete=true`
//! query parameter when the call would be asynchronous and a `-d` body when
//! the call carries one. Credentials and the broker URL appear as the
//! environment variables the client reads, never as their values.

use vstd::prelude::*;

verus! {

/// The query-string suffix announcing an asynchronous call.
pub open spec fn curl_sync_opt(synchronous: bool) -> Seq<char> {
    if !synchronous {
        "?accepts_incomplete=true"@
    } else {
        Seq::empty()
    }
}

/// The `-d` option carrying `body`, or nothing when the body is empty.
pub open spec fn curl_body_opt(body: Seq<char>) -> Seq<char> {
    if body.len() > 0 {
        " \\\n-d '"@ + body + "'"@
    } else {
        Seq::empty()
    }
}

/// The broker path for the addressed object; empty when the object kind is
/// not one the client knows.
pub open spec fn curl_path(object: Seq<char>, sid: Seq<char>, bid: Seq<char>) -> Seq<char> {
    if object == "catalog"@ {
        "catalog"@
    } else if object == "service_instance"@ {
        "service_instances/"@ + sid
    } else if object == "service_binding"@ {
        "service_instances/"@ + sid + "/service_bindings/"@ + bid
    } else {
        Seq::empty()
    }
}

/// The whole dry-run command line.
pub open spec fn curl_command_spec(
    object: Seq<char>,
    method: Seq<char>,
    body: Seq<char>,
    synchronous: bool,
    sid: Seq<char>,
    bid: Seq<char>,
) -> Seq<char> {
    "curl -H 'Content-type: application/json' -H 'X-Broker-API-Version: 2.16' -X "@ + method
        + " -u $ROCS_BROKER_USERNAME:$ROCS_BROKER_PASSWORD $ROCS_BROKER_URL/v2/"@ + curl_path(
        object,
        sid,
        bid,
    ) + curl_sync_opt(synchronous) + curl_body_opt(body)
}

/// Builds the shell command equivalent to one broker call against the
/// addressed object (`catalog`, `service_instance` or `service_binding`).
pub fn generate_curl_command(
    object: String,
    method: String,
    body: String,
    synchronous: bool,
    sid: String,
    bid: String,
) -> (r: String)
    ensures
        r@ == curl_command_spec(object@, method@, body@, synchronous, sid@, bid@),
{
    let mut out = String::new();
    out.append("curl -H 'Content-type: application/json' -H 'X-Broker-API-Version: 2.16' -X ");
    out.append(method.as_str());
    out.append(" -u $ROCS_BROKER_USERNAME:$ROCS_BROKER_PASSWORD $ROCS_BROKER_URL/v2/");
    if object == "catalog".to_owned() {
        out.append("catalog");
    } else if object == "service_instance".to_owned() {
        out.append("service_instances/");
        out.append(sid.as_str());
    } else if object == "service_binding".to_owned() {
        out.append("service_instances/");
        out.append(sid.as_str());
        out.append("/service_bindings/");
        out.append(bid.as_str());
    }
    if !synchronous {
        out.append("?accepts_incomplete=true");
    }
    if !body.as_str().is_empty() {
        out.append(" \\\n-d '");
        out.append(body.as_str());
        out.append("'");
    }
    proof {
        assert(out@ =~= curl_command_spec(object@, method@, body@, synchronous, sid@, bid@));
    }
    out
}

} // verus!
