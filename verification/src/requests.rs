//! The JSON bodies of the broker's two mutating calls.
//!
//! Field names and order follow the Open Service Broker API's provision and
//! bind request schemas; the organization and space identifiers travel as
//! given (the client passes empty strings when the platform supplies none).

use vstd::prelude::*;
use crate::json::{append_quoted, append_object, quoted, object};
use crate::params::Params;

verus! {

/// The JSON text of a provision body, over the fields' views.
pub open spec fn provision_json(
    service_id: Seq<char>,
    plan_id: Seq<char>,
    context: Seq<(Seq<char>, Seq<char>)>,
    organization_guid: Seq<char>,
    space_guid: Seq<char>,
    parameters: Seq<(Seq<char>, Seq<char>)>,
) -> Seq<char> {
    "{\"service_id\":"@ + quoted(service_id) + ",\"plan_id\":"@ + quoted(plan_id) + ",\"context\":"@
        + object(context) + ",\"organization_guid\":"@ + quoted(organization_guid)
        + ",\"space_guid\":"@ + quoted(space_guid) + ",\"parameters\":"@ + object(parameters)
        + "}"@
}

/// The JSON text of a bind body, over the fields' views.
pub open spec fn bind_json(
    context: Seq<(Seq<char>, Seq<char>)>,
    service_id: Seq<char>,
    plan_id: Seq<char>,
    parameters: Seq<(Seq<char>, Seq<char>)>,
) -> Seq<char> {
    "{\"context\":"@ + object(context) + ",\"service_id\":"@ + quoted(service_id) + ",\"plan_id\":"@
        + quoted(plan_id) + ",\"parameters\":"@ + object(parameters) + "}"@
}

/// The body of a provision (PUT service instance) call.
pub struct ProvisionBody {
    pub service_id: String,
    pub plan_id: String,
    pub context: Params,
    pub organization_guid: String,
    pub space_guid: String,
    pub parameters: Params,
}

impl ProvisionBody {
    pub fn new(service_id: String, plan_id: String, organization_guid: String, space_guid: String)
        -> (r: ProvisionBody)
        ensures
            r.service_id == service_id,
            r.plan_id == plan_id,
            r.organization_guid == organization_guid,
            r.space_guid == space_guid,
            r.context@ == Seq::<(Seq<char>, Seq<char>)>::empty(),
            r.parameters@ == Seq::<(Seq<char>, Seq<char>)>::empty(),
    {
        ProvisionBody {
            service_id,
            plan_id,
            context: Params::empty(),
            organization_guid,
            space_guid,
            parameters: Params::empty(),
        }
    }

    /// The body as JSON text.
    pub open spec fn json_spec(&self) -> Seq<char> {
        provision_json(
            self.service_id@,
            self.plan_id@,
            self.context@,
            self.organization_guid@,
            self.space_guid@,
            self.parameters@,
        )
    }

    /// Renders the body as JSON text.
    pub fn to_json(&self) -> (r: String)
        ensures
            r@ == self.json_spec(),
    {
        let mut out = String::new();
        out.append("{\"service_id\":");
        append_quoted(&mut out, self.service_id.as_str());
        out.append(",\"plan_id\":");
        append_quoted(&mut out, self.plan_id.as_str());
        out.append(",\"context\":");
        append_object(&mut out, &self.context);
        out.append(",\"organization_guid\":");
        append_quoted(&mut out, self.organization_guid.as_str());
        out.append(",\"space_guid\":");
        append_quoted(&mut out, self.space_guid.as_str());
        out.append(",\"parameters\":");
        append_object(&mut out, &self.parameters);
        out.append("}");
        proof {
            assert(out@ =~= self.json_spec());
        }
        out
    }
}

/// The body of a bind (PUT service binding) call.
pub struct BindBody {
    pub context: Params,
    pub service_id: String,
    pub plan_id: String,
    pub parameters: Params,
}

impl BindBody {
    pub fn new(service_id: String, plan_id: String) -> (r: BindBody)
        ensures
            r.service_id == service_id,
            r.plan_id == plan_id,
            r.context@ == Seq::<(Seq<char>, Seq<char>)>::empty(),
            r.parameters@ == Seq::<(Seq<char>, Seq<char>)>::empty(),
    {
        BindBody {
            context: Params::empty(),
            service_id,
            plan_id,
            parameters: Params::empty(),
        }
    }

    /// The body as JSON text.
    pub open spec fn json_spec(&self) -> Seq<char> {
        bind_json(self.context@, self.service_id@, self.plan_id@, self.parameters@)
    }

    /// Renders the body as JSON text.
    pub fn to_json(&self) -> (r: String)
        ensures
            r@ == self.json_spec(),
    {
        let mut out = String::new();
        out.append("{\"context\":");
        append_object(&mut out, &self.context);
        out.append(",\"service_id\":");
        append_quoted(&mut out, self.service_id.as_str());
        out.append(",\"plan_id\":");
        append_quoted(&mut out, self.plan_id.as_str());
        out.append(",\"parameters\":");
        append_object(&mut out, &self.parameters);
        out.append("}");
        proof {
            assert(out@ =~= self.json_spec());
        }
        out
    }
}

} // verus!
