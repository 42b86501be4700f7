//! The whitelist request lifecycle coordinator.
//!
//! A decision event (approve or deny, carrying a request identifier and the
//! acting user's role/permission snapshot) is resolved in strict order:
//! authorization is checked first, so an unauthorized actor never touches the
//! store; then the pending record is claimed — read and removed atomically —
//! so of N racing decisions at most one proceeds; only then may an approval
//! lead to a liveness probe and, if the target runs, to the one administrative
//! command. The probe and the command channel are outside collaborators, so
//! resolution is split into steps: [`Coordinator::handle_decision`] does
//! everything up to the claim and says which outside action is needed next,
//! [`after_probe`] classifies the probe's answer, and [`after_dispatch`]
//! classifies the command channel's answer. Each step's behaviour equals the
//! spec-level transition [`decide`] / [`spec_after_probe`], over which the
//! lifecycle laws are proved.

use vstd::prelude::*;

use crate::config::{Config, ConfigData, Server, ServerData, WhitelistConfig, spec_find_server};
use crate::config::WhitelistConfigData;
use crate::store::{RequestData, RequestStore, WhitelistRequest};

verus! {

/// The two kinds of decision an approver can take.
#[derive(Clone, Copy, Debug, PartialEq, Eq, Structural)]
pub enum Decision {
    Approve,
    Deny,
}

/// Terminal outcomes of one resolution attempt.
#[derive(Clone, Copy, Debug, PartialEq, Eq, Structural)]
pub enum Outcome {
    /// The request was claimed, the target ran, and the command was issued.
    Approved,
    /// The request was claimed and cleared without any external action.
    Denied,
    /// The acting user may not decide requests; nothing was touched.
    Unauthorized,
    /// No pending record existed: already decided concurrently, never
    /// created, or long gone — indistinguishable on purpose.
    AlreadyResolvedOrMissing,
    /// The claimed request names a server that is unknown or has no
    /// container reference; the record is already gone.
    ServerUnavailable,
    /// The target server's runtime is not running; the record is already gone.
    TargetNotRunning,
    /// The probe failed or the command channel failed; the record is already
    /// gone and the command may not have been applied.
    ActionFailed,
}

/// A decision event as delivered by the chat transport, with the acting
/// user's role and permission snapshot taken at delivery time.
pub struct DecisionEvent {
    /// Identifier of the request being decided.
    pub request_id: String,
    /// Approve or deny, parsed once at the transport boundary.
    pub decision: Decision,
    /// Platform identity of the acting user.
    pub acting_identity: String,
    /// Roles the acting user held when the event was delivered.
    pub acting_roles: Vec<u64>,
    /// Whether the acting user held the administrator permission.
    pub is_admin: bool,
}

/// Mathematical image of a [`DecisionEvent`].
pub struct EventData {
    pub request_id: Seq<char>,
    pub decision: Decision,
    pub acting_identity: Seq<char>,
    pub acting_roles: Seq<u64>,
    pub is_admin: bool,
}

impl View for DecisionEvent {
    type V = EventData;

    open spec fn view(&self) -> EventData {
        EventData {
            request_id: self.request_id@,
            decision: self.decision,
            acting_identity: self.acting_identity@,
            acting_roles: self.acting_roles@,
            is_admin: self.is_admin,
        }
    }
}

/// The acting user may decide requests: one of their roles is an allowed
/// role, or they hold the administrator permission and the policy lets
/// administrators bypass role membership.
pub open spec fn spec_authorized(roles: Seq<u64>, is_admin: bool, policy: WhitelistConfigData) -> bool {
    (exists|i: int| 0 <= i < roles.len() && policy.allowed_roles.contains(roles[i])) || (
    policy.allow_admin && is_admin)
}

fn contains_u64(haystack: &Vec<u64>, needle: u64) -> (r: bool)
    ensures
        r == haystack@.contains(needle),
{
    let mut i: usize = 0;
    while i < haystack.len()
        invariant
            i <= haystack@.len(),
            forall|j: int| 0 <= j < i ==> haystack@[j] != needle,
        decreases haystack@.len() - i,
    {
        if haystack[i] == needle {
            return true;
        }
        i = i + 1;
    }
    false
}

/// The pure authorization guard. No side effects; evaluated before any claim
/// attempt, so an unauthorized actor never consumes a pending request.
pub fn is_authorized(roles: &Vec<u64>, is_admin: bool, policy: &WhitelistConfig) -> (r: bool)
    ensures
        r == spec_authorized(roles@, is_admin, policy@),
{
    if policy.allow_admin && is_admin {
        return true;
    }
    let mut i: usize = 0;
    while i < roles.len()
        invariant
            i <= roles@.len(),
            forall|j: int| 0 <= j < i ==> !policy.allowed_roles@.contains(roles@[j]),
        decreases roles@.len() - i,
    {
        if contains_u64(&policy.allowed_roles, roles[i]) {
            return true;
        }
        i = i + 1;
    }
    false
}

/// What [`Coordinator::handle_decision`] asks of its caller next: nothing
/// (the attempt is terminal) or a liveness probe of the claimed request's
/// target server.
#[allow(inconsistent_fields)]
pub enum Step {
    /// Terminal without any external action. The claimed record, if the
    /// attempt got that far, rides along for display and notification.
    Done { outcome: Outcome, request: Option<WhitelistRequest> },
    /// The record was claimed for approval and the target server is
    /// configured: probe its runtime next.
    NeedProbe { request: WhitelistRequest, server: Server },
}

/// Mathematical image of a [`Step`].
#[allow(inconsistent_fields)]
pub enum SpecStep {
    Done { outcome: Outcome, request: Option<RequestData> },
    NeedProbe { request: RequestData, server: ServerData },
}

impl View for Step {
    type V = SpecStep;

    open spec fn view(&self) -> SpecStep {
        match self {
            Step::Done { outcome, request } => SpecStep::Done {
                outcome: *outcome,
                request: match request {
                    Some(r) => Some(r@),
                    None => None,
                },
            },
            Step::NeedProbe { request, server } => SpecStep::NeedProbe {
                request: request@,
                server: server@,
            },
        }
    }
}

/// The coordinator's transition on one decision event: the store afterwards,
/// and the step taken. Authorization strictly precedes the claim; the claim
/// strictly precedes any external action.
pub open spec fn decide(cfg: ConfigData, store: Map<Seq<char>, RequestData>, ev: EventData) -> (
    Map<Seq<char>, RequestData>,
    SpecStep,
) {
    if !spec_authorized(ev.acting_roles, ev.is_admin, cfg.whitelist) {
        (store, SpecStep::Done { outcome: Outcome::Unauthorized, request: None })
    } else if !store.contains_key(ev.request_id) {
        (store, SpecStep::Done { outcome: Outcome::AlreadyResolvedOrMissing, request: None })
    } else {
        let req = store[ev.request_id];
        let rest = store.remove(ev.request_id);
        if ev.decision is Deny {
            (rest, SpecStep::Done { outcome: Outcome::Denied, request: Some(req) })
        } else {
            match spec_find_server(cfg.servers, req.server_id) {
                Option::None => (
                    rest,
                    SpecStep::Done { outcome: Outcome::ServerUnavailable, request: Some(req) },
                ),
                Option::Some(srv) => {
                    if srv.container_id.len() == 0 {
                        (
                            rest,
                            SpecStep::Done {
                                outcome: Outcome::ServerUnavailable,
                                request: Some(req),
                            },
                        )
                    } else {
                        (rest, SpecStep::NeedProbe { request: req, server: srv })
                    }
                },
            }
        }
    }
}

/// The lifecycle coordinator: the static configuration plus the store of
/// pending requests. Decision events for different requests are independent;
/// events for one request are serialized by the store's exclusive borrow,
/// mirroring the storage-level atomicity of the claim.
pub struct Coordinator {
    /// Static configuration, loaded once and never changed.
    pub config: Config,
    /// The pending requests.
    pub store: RequestStore,
}

impl Coordinator {
    /// A coordinator over the given configuration and store.
    pub fn new(config: Config, store: RequestStore) -> (r: Self)
        ensures
            r.config == config,
            r.store == store,
    {
        Coordinator { config, store }
    }

    /// Resolves one decision event up to the point where an outside
    /// collaborator is needed, exactly as [`decide`] says: authorization
    /// first (unauthorized actors change nothing), then the atomic claim
    /// (a missing record ends the attempt with no action), then either the
    /// denial or the approval path. On the approval path the record is
    /// already gone, whatever happens afterwards.
    pub fn handle_decision(&mut self, event: &DecisionEvent) -> (step: Step)
        ensures
            final(self).config == old(self).config,
            ({
                let (store_after, spec_step) = decide(old(self).config@, old(self).store@, event@);
                final(self).store@ == store_after && step@ == spec_step
            }),
    {
        if !is_authorized(&event.acting_roles, event.is_admin, &self.config.whitelist) {
            return Step::Done { outcome: Outcome::Unauthorized, request: None };
        }
        match self.store.claim(event.request_id.as_str()) {
            None => Step::Done { outcome: Outcome::AlreadyResolvedOrMissing, request: None },
            Some(request) => {
                if event.decision == Decision::Deny {
                    Step::Done { outcome: Outcome::Denied, request: Some(request) }
                } else {
                    match self.config.find_server(request.server_id.as_str()) {
                        None => Step::Done {
                            outcome: Outcome::ServerUnavailable,
                            request: Some(request),
                        },
                        Some(server) => {
                            if server.container_id.as_str().is_empty() {
                                Step::Done {
                                    outcome: Outcome::ServerUnavailable,
                                    request: Some(request),
                                }
                            } else {
                                let server = server.clone();
                                Step::NeedProbe { request, server }
                            }
                        },
                    }
                }
            },
        }
    }
}

/// What the liveness probe answered for the target server's runtime.
#[derive(Clone, Copy, Debug, PartialEq, Eq, Structural)]
pub enum ProbeResult {
    Running,
    NotRunning,
    /// The probe itself failed; the runtime's state is unknown.
    ProbeError,
}

/// What to do after the liveness probe: abort with a terminal outcome, or
/// dispatch the administrative command over the remote command channel.
pub enum ProbeStep {
    Abort { outcome: Outcome },
    Dispatch { address: String, port: u16, password: String, command: String },
}

/// Mathematical image of a [`ProbeStep`].
pub enum SpecProbeStep {
    Abort { outcome: Outcome },
    Dispatch { address: Seq<char>, port: u16, password: Seq<char>, command: Seq<char> },
}

impl View for ProbeStep {
    type V = SpecProbeStep;

    open spec fn view(&self) -> SpecProbeStep {
        match self {
            ProbeStep::Abort { outcome } => SpecProbeStep::Abort { outcome: *outcome },
            ProbeStep::Dispatch { address, port, password, command } => SpecProbeStep::Dispatch {
                address: address@,
                port: *port,
                password: password@,
                command: command@,
            },
        }
    }
}

/// The administrative command that whitelists a player.
pub open spec fn spec_whitelist_add_command(player: Seq<char>) -> Seq<char> {
    "whitelist add "@ + player
}

/// The step after the probe: dispatch only when the target runs.
pub open spec fn spec_after_probe(request: RequestData, server: ServerData, probe: ProbeResult) -> SpecProbeStep {
    match probe {
        ProbeResult::Running => SpecProbeStep::Dispatch {
            address: server.address,
            port: server.rcon_port,
            password: server.rcon_password,
            command: spec_whitelist_add_command(request.minecraft_username),
        },
        ProbeResult::NotRunning => SpecProbeStep::Abort { outcome: Outcome::TargetNotRunning },
        ProbeResult::ProbeError => SpecProbeStep::Abort { outcome: Outcome::ActionFailed },
    }
}

/// Classifies the probe's answer for a claimed approval. Only a `Running`
/// answer leads to a dispatch, and the dispatched command is exactly
/// `whitelist add <player>` aimed at the configured command channel.
pub fn after_probe(request: &WhitelistRequest, server: &Server, probe: ProbeResult) -> (r:
    ProbeStep)
    ensures
        r@ == spec_after_probe(request@, server@, probe),
{
    match probe {
        ProbeResult::Running => {
            let mut command = String::from_str("whitelist add ");
            command.append(request.minecraft_username.as_str());
            ProbeStep::Dispatch {
                address: server.address.clone(),
                port: server.rcon_port,
                password: server.rcon_password.clone(),
                command,
            }
        },
        ProbeResult::NotRunning => ProbeStep::Abort { outcome: Outcome::TargetNotRunning },
        ProbeResult::ProbeError => ProbeStep::Abort { outcome: Outcome::ActionFailed },
    }
}

/// Classifies the command channel's answer: the approval either was applied
/// or failed; either way the request record is already gone.
pub fn after_dispatch(dispatched: bool) -> (r: Outcome)
    ensures
        r == (if dispatched {
            Outcome::Approved
        } else {
            Outcome::ActionFailed
        }),
{
    if dispatched {
        Outcome::Approved
    } else {
        Outcome::ActionFailed
    }
}

} // verus!
