//! The lifecycle orchestrators: explicit state machines for the provision
//! and bind flows.
//!
//! Each flow holds the command's inputs and its current step, and turns the
//! events the driver reports (catalog fetched, create call done, one
//! last-operation state, final resource fetched, or a transport failure)
//! into the next action to perform. The driver performs I/O only: it carries
//! out each action and reports what came back. Transport failures abort the
//! whole command; an operation that ends in a failed terminal state is not
//! distinguished from a succeeded one — both proceed to the final fetch.

use vstd::prelude::*;
use crate::catalog::{Catalog, find_service_plan_id, resolve_spec};
use crate::curl::{curl_command_spec, generate_curl_command};
use crate::outputs::{ServiceInstance, ServiceBinding, ServiceInstanceOutput, ServiceBindingOutput};
use crate::params::{Params, parse_parameters, parse_spec};
use crate::poll::{OperationState, is_terminal, state_is_terminal};
use crate::requests::{ProvisionBody, BindBody, provision_json, bind_json};

verus! {

/// The global output options.
#[derive(Clone, Copy, PartialEq, Eq, Structural, Debug)]
pub struct Options {
    pub json_output: bool,
    pub curl_output: bool,
    pub synchronous: bool,
}

/// The shape of a hyphenated UUID: 36 characters with hyphens at the four
/// fixed positions.
pub open spec fn uuid_shaped(s: Seq<char>) -> bool {
    &&& s.len() == 36
    &&& s[8] == '-'
    &&& s[13] == '-'
    &&& s[18] == '-'
    &&& s[23] == '-'
}

/// Relies on uuid's `Uuid::new_v4` and `as_hyphenated`: a fresh random
/// (version 4) identifier rendered as 36 characters with hyphens at
/// positions 8, 13, 18 and 23. The value itself is random; nothing more is
/// assumed of it.
#[verifier::external_body]
fn fresh_uuid() -> (r: String)
    ensures
        uuid_shaped(r@),
{
    uuid::Uuid::new_v4().as_hyphenated().to_string()
}

/// The inner identifier of an option known to be set.
fn unwrap_id(o: &Option<String>) -> (r: String)
    requires
        o is Some,
    ensures
        r == o->Some_0,
{
    match o {
        Some(s) => s.clone(),
        None => vstd::pervasive::unreached(),
    }
}

/// The steps of the provision flow.
#[derive(Clone, Copy, PartialEq, Eq, Structural, Debug)]
pub enum ProvisionStep {
    Resolving,
    Creating,
    Polling,
    Fetching,
    Done,
    Aborted,
}

/// What the provision flow asks its driver to do next.
pub enum ProvisionAction {
    /// GET the catalog and report it.
    FetchCatalog,
    /// Print this dry-run command; the flow is done.
    PrintCurl(String),
    /// PUT the instance with this body and report completion.
    Provision { instance_id: String, body: ProvisionBody, accepts_incomplete: bool },
    /// Sleep one interval, GET the instance's last operation, and report its
    /// state.
    PollLastOperation { instance_id: String, service_id: String, plan_id: String },
    /// GET the instance and report it.
    FetchInstance { instance_id: String },
    /// Present this result; the flow is done.
    Finish(ServiceInstanceOutput),
    /// Abort the command with this message.
    Fail(String),
}

/// The provision flow: resolve names, create the instance, poll if asked
/// to, fetch the final representation, present it.
pub struct ProvisionFlow {
    pub step: ProvisionStep,
    pub service_name: String,
    pub plan_name: String,
    pub parameters: Params,
    pub context: Params,
    pub wait: bool,
    pub options: Options,
    pub instance_id: Option<String>,
    pub service_id: Option<String>,
    pub plan_id: Option<String>,
}

/// The fields that no event may change.
pub open spec fn same_provision_inputs(pre: ProvisionFlow, post: ProvisionFlow) -> bool {
    &&& post.service_name == pre.service_name
    &&& post.plan_name == pre.plan_name
    &&& post.parameters == pre.parameters
    &&& post.context == pre.context
    &&& post.wait == pre.wait
    &&& post.options == pre.options
}

impl ProvisionFlow {
    /// Identifiers are present, and the instance identifier keeps its shape,
    /// whenever a broker call may still be issued.
    pub open spec fn inv(&self) -> bool {
        &&& (self.step is Resolving ==> self.instance_id is None)
        &&& ((self.step is Creating || self.step is Polling || self.step is Fetching) ==> {
            &&& self.instance_id matches Some(i) && uuid_shaped(i@)
            &&& self.service_id matches Some(s) && s@.len() > 0
            &&& self.plan_id matches Some(p) && p@.len() > 0
        })
    }

    /// A new flow for `provision --service <service_name> --plan <plan_name>`,
    /// with raw `key=value` parameter and context arguments.
    pub fn new(
        service_name: String,
        plan_name: String,
        raw_parameters: &Vec<String>,
        raw_context: &Vec<String>,
        wait: bool,
        options: Options,
    ) -> (r: ProvisionFlow)
        ensures
            r.step is Resolving,
            r.service_name == service_name,
            r.plan_name == plan_name,
            r.parameters@ == parse_spec(raw_parameters.deep_view()),
            r.context@ == parse_spec(raw_context.deep_view()),
            r.wait == wait,
            r.options == options,
            r.instance_id is None,
            r.service_id is None,
            r.plan_id is None,
            r.inv(),
    {
        ProvisionFlow {
            step: ProvisionStep::Resolving,
            service_name,
            plan_name,
            parameters: parse_parameters(raw_parameters),
            context: parse_parameters(raw_context),
            wait,
            options,
            instance_id: None,
            service_id: None,
            plan_id: None,
        }
    }

    /// The flow's first action: fetch the catalog. Resolution always comes
    /// first; no mutating call can be issued before it succeeds.
    pub fn start(&self) -> (r: ProvisionAction)
        ensures
            self.step is Resolving ==> r is FetchCatalog,
            !(self.step is Resolving) ==> (r matches ProvisionAction::Fail(m) && m@
                == "unexpected event"@),
    {
        if let ProvisionStep::Resolving = self.step {
            ProvisionAction::FetchCatalog
        } else {
            ProvisionAction::Fail("unexpected event".to_owned())
        }
    }

    /// The catalog arrived: resolve the names. On failure the whole command
    /// aborts here, before any mutating call. On success the flow generates
    /// the instance identifier (exactly once) and either prints the dry-run
    /// command or asks for the provision call, with `accepts_incomplete` the
    /// negation of the synchronous option.
    pub fn on_catalog(&mut self, catalog: &Catalog) -> (r: ProvisionAction)
        requires
            old(self).inv(),
        ensures
            final(self).inv(),
            same_provision_inputs(*old(self), *final(self)),
            !(old(self).step is Resolving) ==> final(self).step is Aborted && (
            r matches ProvisionAction::Fail(m) && m@ == "unexpected event"@),
            old(self).step is Resolving ==> match resolve_spec(
                catalog.services@,
                old(self).service_name@,
                old(self).plan_name@,
            ) {
                None => {
                    &&& final(self).step is Aborted
                    &&& final(self).instance_id is None
                    &&& r matches ProvisionAction::Fail(m) && m@ == "plan or service not found"@
                },
                Some(ids) => {
                    &&& final(self).service_id matches Some(s) && s@ == ids.0
                    &&& final(self).plan_id matches Some(p) && p@ == ids.1
                    &&& final(self).instance_id matches Some(i) && uuid_shaped(i@)
                    &&& old(self).options.curl_output ==> {
                        &&& final(self).step is Done
                        &&& r matches ProvisionAction::PrintCurl(c) && c@ == curl_command_spec(
                            "service_instance"@,
                            "PUT"@,
                            provision_json(
                                ids.0,
                                ids.1,
                                old(self).context@,
                                Seq::<char>::empty(),
                                Seq::<char>::empty(),
                                old(self).parameters@,
                            ),
                            old(self).options.synchronous,
                            final(self).instance_id->Some_0@,
                            Seq::<char>::empty(),
                        )
                    }
                    &&& !old(self).options.curl_output ==> {
                        &&& final(self).step is Creating
                        &&& r matches ProvisionAction::Provision {
                            instance_id,
                            body,
                            accepts_incomplete,
                        } && instance_id == final(self).instance_id->Some_0
                            && body.service_id@ == ids.0 && body.plan_id@ == ids.1
                            && body.organization_guid@ == Seq::<char>::empty()
                            && body.space_guid@ == Seq::<char>::empty() && body.context@ == old(
                            self,
                        ).context@ && body.parameters@ == old(self).parameters@
                            && accepts_incomplete == !old(self).options.synchronous
                    }
                },
            },
    {
        if let ProvisionStep::Resolving = self.step {
            match find_service_plan_id(catalog, &self.service_name, &self.plan_name) {
                Err(e) => {
                    self.step = ProvisionStep::Aborted;
                    ProvisionAction::Fail(e.message())
                },
                Ok((service_id, plan_id)) => {
                    let instance_id = fresh_uuid();
                    let mut body = ProvisionBody::new(
                        service_id.clone(),
                        plan_id.clone(),
                        String::new(),
                        String::new(),
                    );
                    body.parameters = self.parameters.duplicate();
                    body.context = self.context.duplicate();
                    self.service_id = Some(service_id);
                    self.plan_id = Some(plan_id);
                    self.instance_id = Some(instance_id.clone());
                    if self.options.curl_output {
                        self.step = ProvisionStep::Done;
                        ProvisionAction::PrintCurl(
                            generate_curl_command(
                                "service_instance".to_owned(),
                                "PUT".to_owned(),
                                body.to_json(),
                                self.options.synchronous,
                                instance_id,
                                String::new(),
                            ),
                        )
                    } else {
                        self.step = ProvisionStep::Creating;
                        ProvisionAction::Provision {
                            instance_id,
                            body,
                            accepts_incomplete: !self.options.synchronous,
                        }
                    }
                },
            }
        } else {
            self.step = ProvisionStep::Aborted;
            ProvisionAction::Fail("unexpected event".to_owned())
        }
    }

    /// The provision call completed. The flow polls only when waiting was
    /// requested and the request was not synchronous; otherwise it proceeds
    /// straight to the final fetch.
    pub fn on_provisioned(&mut self) -> (r: ProvisionAction)
        requires
            old(self).inv(),
        ensures
            final(self).inv(),
            same_provision_inputs(*old(self), *final(self)),
            final(self).instance_id == old(self).instance_id,
            final(self).service_id == old(self).service_id,
            final(self).plan_id == old(self).plan_id,
            !(old(self).step is Creating) ==> final(self).step is Aborted && (
            r matches ProvisionAction::Fail(m) && m@ == "unexpected event"@),
            old(self).step is Creating && old(self).wait && !old(self).options.synchronous ==> {
                &&& final(self).step is Polling
                &&& r matches ProvisionAction::PollLastOperation { instance_id, service_id, plan_id }
                    && instance_id == old(self).instance_id->Some_0 && service_id == old(
                    self,
                ).service_id->Some_0 && plan_id == old(self).plan_id->Some_0
            },
            old(self).step is Creating && !(old(self).wait && !old(self).options.synchronous)
                ==> {
                &&& final(self).step is Fetching
                &&& r matches ProvisionAction::FetchInstance { instance_id } && instance_id == old(
                    self,
                ).instance_id->Some_0
            },
    {
        if let ProvisionStep::Creating = self.step {
            if self.wait && !self.options.synchronous {
                self.step = ProvisionStep::Polling;
                ProvisionAction::PollLastOperation {
                    instance_id: unwrap_id(&self.instance_id),
                    service_id: unwrap_id(&self.service_id),
                    plan_id: unwrap_id(&self.plan_id),
                }
            } else {
                self.step = ProvisionStep::Fetching;
                ProvisionAction::FetchInstance { instance_id: unwrap_id(&self.instance_id) }
            }
        } else {
            self.step = ProvisionStep::Aborted;
            ProvisionAction::Fail("unexpected event".to_owned())
        }
    }

    /// One polled state arrived: keep polling while the operation is in
    /// progress; on any terminal state — succeeded or failed alike — proceed
    /// to the final fetch.
    pub fn on_last_operation(&mut self, state: OperationState) -> (r: ProvisionAction)
        requires
            old(self).inv(),
        ensures
            final(self).inv(),
            same_provision_inputs(*old(self), *final(self)),
            final(self).instance_id == old(self).instance_id,
            final(self).service_id == old(self).service_id,
            final(self).plan_id == old(self).plan_id,
            !(old(self).step is Polling) ==> final(self).step is Aborted && (
            r matches ProvisionAction::Fail(m) && m@ == "unexpected event"@),
            old(self).step is Polling && !is_terminal(state) ==> {
                &&& final(self).step is Polling
                &&& r matches ProvisionAction::PollLastOperation { instance_id, service_id, plan_id }
                    && instance_id == old(self).instance_id->Some_0 && service_id == old(
                    self,
                ).service_id->Some_0 && plan_id == old(self).plan_id->Some_0
            },
            old(self).step is Polling && is_terminal(state) ==> {
                &&& final(self).step is Fetching
                &&& r matches ProvisionAction::FetchInstance { instance_id } && instance_id == old(
                    self,
                ).instance_id->Some_0
            },
    {
        if let ProvisionStep::Polling = self.step {
            if !state_is_terminal(&state) {
                ProvisionAction::PollLastOperation {
                    instance_id: unwrap_id(&self.instance_id),
                    service_id: unwrap_id(&self.service_id),
                    plan_id: unwrap_id(&self.plan_id),
                }
            } else {
                self.step = ProvisionStep::Fetching;
                ProvisionAction::FetchInstance { instance_id: unwrap_id(&self.instance_id) }
            }
        } else {
            self.step = ProvisionStep::Aborted;
            ProvisionAction::Fail("unexpected event".to_owned())
        }
    }

    /// The final representation arrived: hand it to the presenter, paired
    /// with the generated instance identifier.
    pub fn on_instance(&mut self, instance: ServiceInstance) -> (r: ProvisionAction)
        requires
            old(self).inv(),
        ensures
            final(self).inv(),
            same_provision_inputs(*old(self), *final(self)),
            final(self).instance_id == old(self).instance_id,
            !(old(self).step is Fetching) ==> final(self).step is Aborted && (
            r matches ProvisionAction::Fail(m) && m@ == "unexpected event"@),
            old(self).step is Fetching ==> {
                &&& final(self).step is Done
                &&& r matches ProvisionAction::Finish(out) && out.service_instance_id == old(
                    self,
                ).instance_id && (out.service_instance_resource matches Some(res) && res
                    == instance)
            },
    {
        if let ProvisionStep::Fetching = self.step {
            self.step = ProvisionStep::Done;
            ProvisionAction::Finish(
                ServiceInstanceOutput {
                    service_instance_id: Some(unwrap_id(&self.instance_id)),
                    service_instance_resource: Some(instance),
                },
            )
        } else {
            self.step = ProvisionStep::Aborted;
            ProvisionAction::Fail("unexpected event".to_owned())
        }
    }

    /// A transport or HTTP failure: fatal for the whole command, whatever
    /// the step.
    pub fn on_call_failed(&mut self, message: String) -> (r: ProvisionAction)
        ensures
            final(self).inv(),
            same_provision_inputs(*old(self), *final(self)),
            final(self).step is Aborted,
            r matches ProvisionAction::Fail(m) && m == message,
    {
        self.step = ProvisionStep::Aborted;
        ProvisionAction::Fail(message)
    }
}

/// The steps of the bind flow.
#[derive(Clone, Copy, PartialEq, Eq, Structural, Debug)]
pub enum BindStep {
    Ready,
    Creating,
    Polling,
    Fetching,
    Done,
    Aborted,
}

/// What the bind flow asks its driver to do next.
pub enum BindAction {
    /// Print this dry-run command; the flow is done.
    PrintCurl(String),
    /// PUT the binding with this body and report the returned resource.
    Bind { instance_id: String, binding_id: String, body: BindBody, accepts_incomplete: bool },
    /// Sleep one interval, GET the binding's last operation, and report its
    /// state. No service or plan hints are available at bind time.
    PollLastOperation { instance_id: String, binding_id: String },
    /// GET the binding and report it.
    FetchBinding { instance_id: String, binding_id: String },
    /// Present this result; the flow is done.
    Finish(ServiceBindingOutput),
    /// Abort the command with this message.
    Fail(String),
}

/// The bind flow. When the caller supplies an existing binding identifier
/// the flow never creates anything: it skips straight to fetching that
/// binding. Otherwise it generates a fresh identifier (exactly once), issues
/// the bind call, polls if asked to, and presents the result; when the call
/// was synchronous or no wait was requested, the bind response itself is
/// presented without a follow-up fetch.
pub struct BindFlow {
    pub step: BindStep,
    pub instance_id: String,
    pub binding_id: String,
    pub supplied_binding: bool,
    pub parameters: Params,
    pub context: Params,
    pub wait: bool,
    pub options: Options,
}

/// The fields that no event may change.
pub open spec fn same_bind_inputs(pre: BindFlow, post: BindFlow) -> bool {
    &&& post.instance_id == pre.instance_id
    &&& post.binding_id == pre.binding_id
    &&& post.supplied_binding == pre.supplied_binding
    &&& post.parameters == pre.parameters
    &&& post.context == pre.context
    &&& post.wait == pre.wait
    &&& post.options == pre.options
}

impl BindFlow {
    /// A new flow for `bind --instance <instance_id>`, with the supplied
    /// binding identifier if any, and raw `key=value` parameter and context
    /// arguments. A fresh binding identifier is generated exactly when none
    /// was supplied.
    pub fn new(
        instance_id: String,
        binding: Option<String>,
        raw_parameters: &Vec<String>,
        raw_context: &Vec<String>,
        wait: bool,
        options: Options,
    ) -> (r: BindFlow)
        ensures
            r.step is Ready,
            r.instance_id == instance_id,
            match binding {
                Some(b) => r.binding_id == b && r.supplied_binding,
                None => uuid_shaped(r.binding_id@) && !r.supplied_binding,
            },
            r.parameters@ == parse_spec(raw_parameters.deep_view()),
            r.context@ == parse_spec(raw_context.deep_view()),
            r.wait == wait,
            r.options == options,
    {
        let (binding_id, supplied_binding): (String, bool) = match binding {
            Some(b) => (b, true),
            None => (fresh_uuid(), false),
        };
        BindFlow {
            step: BindStep::Ready,
            instance_id,
            binding_id,
            supplied_binding,
            parameters: parse_parameters(raw_parameters),
            context: parse_parameters(raw_context),
            wait,
            options,
        }
    }

    /// The flow's first action. A supplied binding identifier means fetch,
    /// never create; a dry run prints the command for what would have been
    /// done and ends the flow.
    pub fn start(&mut self) -> (r: BindAction)
        ensures
            same_bind_inputs(*old(self), *final(self)),
            old(self).supplied_binding ==> !(r is Bind),
            !(old(self).step is Ready) ==> final(self).step is Aborted && (
            r matches BindAction::Fail(m) && m@ == "unexpected event"@),
            old(self).step is Ready && old(self).options.curl_output ==> {
                &&& final(self).step is Done
                &&& !old(self).supplied_binding ==> (r matches BindAction::PrintCurl(c) && c@
                    == curl_command_spec(
                    "service_binding"@,
                    "PUT"@,
                    bind_json(
                        old(self).context@,
                        Seq::<char>::empty(),
                        Seq::<char>::empty(),
                        old(self).parameters@,
                    ),
                    old(self).options.synchronous,
                    old(self).instance_id@,
                    old(self).binding_id@,
                ))
                &&& old(self).supplied_binding ==> (r matches BindAction::PrintCurl(c) && c@
                    == curl_command_spec(
                    "service_binding"@,
                    "GET"@,
                    Seq::<char>::empty(),
                    old(self).options.synchronous,
                    old(self).instance_id@,
                    old(self).binding_id@,
                ))
            },
            old(self).step is Ready && !old(self).options.curl_output && old(self).supplied_binding
                ==> {
                &&& final(self).step is Fetching
                &&& r matches BindAction::FetchBinding { instance_id, binding_id } && instance_id
                    == old(self).instance_id && binding_id == old(self).binding_id
            },
            old(self).step is Ready && !old(self).options.curl_output && !old(
                self,
            ).supplied_binding ==> {
                &&& final(self).step is Creating
                &&& r matches BindAction::Bind { instance_id, binding_id, body, accepts_incomplete }
                    && instance_id == old(self).instance_id && binding_id == old(self).binding_id
                    && body.service_id@ == Seq::<char>::empty() && body.plan_id@ == Seq::<
                    char,
                >::empty() && body.context@ == old(self).context@ && body.parameters@ == old(
                    self,
                ).parameters@ && accepts_incomplete == !old(self).options.synchronous
            },
    {
        if let BindStep::Ready = self.step {
            if self.options.curl_output {
                self.step = BindStep::Done;
                if !self.supplied_binding {
                    let mut body = BindBody::new(String::new(), String::new());
                    body.parameters = self.parameters.duplicate();
                    body.context = self.context.duplicate();
                    BindAction::PrintCurl(
                        generate_curl_command(
                            "service_binding".to_owned(),
                            "PUT".to_owned(),
                            body.to_json(),
                            self.options.synchronous,
                            self.instance_id.clone(),
                            self.binding_id.clone(),
                        ),
                    )
                } else {
                    BindAction::PrintCurl(
                        generate_curl_command(
                            "service_binding".to_owned(),
                            "GET".to_owned(),
                            String::new(),
                            self.options.synchronous,
                            self.instance_id.clone(),
                            self.binding_id.clone(),
                        ),
                    )
                }
            } else if self.supplied_binding {
                self.step = BindStep::Fetching;
                BindAction::FetchBinding {
                    instance_id: self.instance_id.clone(),
                    binding_id: self.binding_id.clone(),
                }
            } else {
                let mut body = BindBody::new(String::new(), String::new());
                body.parameters = self.parameters.duplicate();
                body.context = self.context.duplicate();
                self.step = BindStep::Creating;
                BindAction::Bind {
                    instance_id: self.instance_id.clone(),
                    binding_id: self.binding_id.clone(),
                    body,
                    accepts_incomplete: !self.options.synchronous,
                }
            }
        } else {
            self.step = BindStep::Aborted;
            BindAction::Fail("unexpected event".to_owned())
        }
    }

    /// The bind call completed with this resource. Synchronous calls and
    /// calls nobody waits for present that resource directly, skipping the
    /// redundant follow-up fetch; otherwise the flow polls the binding's
    /// last operation.
    pub fn on_bound(&mut self, binding: ServiceBinding) -> (r: BindAction)
        ensures
            same_bind_inputs(*old(self), *final(self)),
            !(r is Bind),
            !(old(self).step is Creating) ==> final(self).step is Aborted && (
            r matches BindAction::Fail(m) && m@ == "unexpected event"@),
            old(self).step is Creating && (old(self).options.synchronous || !old(self).wait) ==> {
                &&& final(self).step is Done
                &&& r matches BindAction::Finish(out) && out.service_binding_id matches Some(b) && b
                    == old(self).binding_id && (out.service_binding_resource matches Some(res)
                    && res == binding)
            },
            old(self).step is Creating && !(old(self).options.synchronous || !old(self).wait)
                ==> {
                &&& final(self).step is Polling
                &&& r matches BindAction::PollLastOperation { instance_id, binding_id }
                    && instance_id == old(self).instance_id && binding_id == old(self).binding_id
            },
    {
        if let BindStep::Creating = self.step {
            if self.options.synchronous || !self.wait {
                self.step = BindStep::Done;
                BindAction::Finish(
                    ServiceBindingOutput {
                        service_binding_id: Some(self.binding_id.clone()),
                        service_binding_resource: Some(binding),
                    },
                )
            } else {
                self.step = BindStep::Polling;
                BindAction::PollLastOperation {
                    instance_id: self.instance_id.clone(),
                    binding_id: self.binding_id.clone(),
                }
            }
        } else {
            self.step = BindStep::Aborted;
            BindAction::Fail("unexpected event".to_owned())
        }
    }

    /// One polled state arrived: keep polling while the operation is in
    /// progress; on any terminal state — succeeded or failed alike — proceed
    /// to the final fetch.
    pub fn on_last_operation(&mut self, state: OperationState) -> (r: BindAction)
        ensures
            same_bind_inputs(*old(self), *final(self)),
            !(r is Bind),
            !(old(self).step is Polling) ==> final(self).step is Aborted && (
            r matches BindAction::Fail(m) && m@ == "unexpected event"@),
            old(self).step is Polling && !is_terminal(state) ==> {
                &&& final(self).step is Polling
                &&& r matches BindAction::PollLastOperation { instance_id, binding_id }
                    && instance_id == old(self).instance_id && binding_id == old(self).binding_id
            },
            old(self).step is Polling && is_terminal(state) ==> {
                &&& final(self).step is Fetching
                &&& r matches BindAction::FetchBinding { instance_id, binding_id } && instance_id
                    == old(self).instance_id && binding_id == old(self).binding_id
            },
    {
        if let BindStep::Polling = self.step {
            if !state_is_terminal(&state) {
                BindAction::PollLastOperation {
                    instance_id: self.instance_id.clone(),
                    binding_id: self.binding_id.clone(),
                }
            } else {
                self.step = BindStep::Fetching;
                BindAction::FetchBinding {
                    instance_id: self.instance_id.clone(),
                    binding_id: self.binding_id.clone(),
                }
            }
        } else {
            self.step = BindStep::Aborted;
            BindAction::Fail("unexpected event".to_owned())
        }
    }

    /// The fetched binding arrived: hand it to the presenter, paired with
    /// the binding identifier.
    pub fn on_fetched(&mut self, binding: ServiceBinding) -> (r: BindAction)
        ensures
            same_bind_inputs(*old(self), *final(self)),
            !(r is Bind),
            !(old(self).step is Fetching) ==> final(self).step is Aborted && (
            r matches BindAction::Fail(m) && m@ == "unexpected event"@),
            old(self).step is Fetching ==> {
                &&& final(self).step is Done
                &&& r matches BindAction::Finish(out) && out.service_binding_id matches Some(b) && b
                    == old(self).binding_id && (out.service_binding_resource matches Some(res)
                    && res == binding)
            },
    {
        if let BindStep::Fetching = self.step {
            self.step = BindStep::Done;
            BindAction::Finish(
                ServiceBindingOutput {
                    service_binding_id: Some(self.binding_id.clone()),
                    service_binding_resource: Some(binding),
                },
            )
        } else {
            self.step = BindStep::Aborted;
            BindAction::Fail("unexpected event".to_owned())
        }
    }

    /// A transport or HTTP failure: fatal for the whole command, whatever
    /// the step.
    pub fn on_call_failed(&mut self, message: String) -> (r: BindAction)
        ensures
            same_bind_inputs(*old(self), *final(self)),
            !(r is Bind),
            final(self).step is Aborted,
            r matches BindAction::Fail(m) && m == message,
    {
        self.step = BindStep::Aborted;
        BindAction::Fail(message)
    }
}

} // verus!
