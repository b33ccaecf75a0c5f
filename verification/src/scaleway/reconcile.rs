//! What a record from an earlier run is worth.

use vstd::prelude::*;
#[allow(unused_imports)]
use vstd::string::*;

use crate::error::AppError;
#[allow(unused_imports)]
use crate::error::AppErrorView;
#[allow(unused_imports)]
use crate::error;
use crate::scaleway::calls::{Call, Reply};
#[allow(unused_imports)]
use crate::scaleway::calls::CallView;
use crate::scaleway::models::{InstanceIp, Server};
#[allow(unused_imports)]
use crate::scaleway::models;
use crate::state::{ProvisioningPhase, State};
#[allow(unused_imports)]
use crate::state::StateView;
use crate::text::{copy_text, same_text};
#[allow(unused_imports)]
use crate::text;

verus! {

/// What a record from an earlier run is worth.
#[derive(Debug, Clone, PartialEq, Eq)]
pub enum ReconciliationOutcome {
    /// Its instance is up and can be used.
    ResumeRunning {
        /// The public address of the instance.
        ip_address: String,
        /// The volume that the instance boots from.
        boot_volume_id: Option<String>,
    },
    /// What it holds has to be removed first.
    NeedsCleanupAndRestart,
    /// It holds nothing.
    NoState,
}

/// What a record is worth, as a value.
pub enum OutcomeView {
    /// Its instance is up and can be used.
    ResumeRunning { ip_address: Seq<char>, boot_volume_id: Option<Seq<char>> },
    /// What it holds has to be removed first.
    NeedsCleanupAndRestart,
    /// It holds nothing.
    NoState,
}

impl View for ReconciliationOutcome {
    type V = OutcomeView;

    open spec fn view(&self) -> OutcomeView {
        match *self {
            ReconciliationOutcome::ResumeRunning { ip_address, boot_volume_id } => {
                OutcomeView::ResumeRunning {
                    ip_address: ip_address@,
                    boot_volume_id: text::some_text(boot_volume_id),
                }
            },
            ReconciliationOutcome::NeedsCleanupAndRestart => OutcomeView::NeedsCleanupAndRestart,
            ReconciliationOutcome::NoState => OutcomeView::NoState,
        }
    }
}

/// Where the examination of a record stands.
#[derive(Debug)]
pub enum Reconciliation {
    /// The instance is looked at.
    QueryingServer,
    /// The public address is looked at.
    QueryingIp {
        /// The instance.
        server_id: String,
        /// The volume that it boots from.
        boot_volume_id: Option<String>,
    },
    /// It is known what the record is worth.
    Decided(Result<ReconciliationOutcome, AppError>),
}

/// Where the examination of a record stands, as a value.
pub enum ReconciliationView {
    /// The instance is looked at.
    QueryingServer,
    /// The public address is looked at.
    QueryingIp { server_id: Seq<char>, boot_volume_id: Option<Seq<char>> },
    /// It is known what the record is worth.
    Decided(Result<OutcomeView, AppErrorView>),
}

impl View for Reconciliation {
    type V = ReconciliationView;

    open spec fn view(&self) -> ReconciliationView {
        match *self {
            Reconciliation::QueryingServer => ReconciliationView::QueryingServer,
            Reconciliation::QueryingIp { server_id, boot_volume_id } => {
                ReconciliationView::QueryingIp {
                    server_id: server_id@,
                    boot_volume_id: text::some_text(boot_volume_id),
                }
            },
            Reconciliation::Decided(Ok(outcome)) => ReconciliationView::Decided(Ok(outcome@)),
            Reconciliation::Decided(Err(e)) => ReconciliationView::Decided(Err(e@)),
        }
    }
}

// ---------------------------------------------------------------- the course of it

/// What an instance that is up makes of a record: it can be used where its address is known.
pub open spec fn usable(state: StateView, boot_volume_id: Option<Seq<char>>) -> OutcomeView {
    match state.public_ip_address {
        Some(ip_address) => OutcomeView::ResumeRunning { ip_address, boot_volume_id },
        None => OutcomeView::NeedsCleanupAndRestart,
    }
}

/// What is said of a public address that is attached to another server.
pub open spec fn conflict(
    ip_id: Seq<char>,
    other_name: Seq<char>,
    other_id: Seq<char>,
) -> AppErrorView {
    AppErrorView::IpAllocationFailed(
        "Conflicting attachment: Public IP "@ + ip_id
            + " is already attached to a different server: "@ + other_name + " ("@ + other_id
            + ")"@,
    )
}

impl ReconciliationView {
    /// The start of an examination.
    pub open spec fn begun(state: StateView) -> ReconciliationView {
        if state.tracks_nothing() {
            ReconciliationView::Decided(Ok(OutcomeView::NoState))
        } else if state.instance_id is Some {
            ReconciliationView::QueryingServer
        } else {
            ReconciliationView::Decided(Ok(OutcomeView::NeedsCleanupAndRestart))
        }
    }

    /// What the examination asks for; nothing when it is over.
    pub open spec fn pending(self, state: StateView) -> Option<CallView> {
        match self {
            ReconciliationView::QueryingServer => match state.instance_id {
                Some(server_id) => Some(CallView::GetServer { server_id }),
                None => None,
            },
            ReconciliationView::QueryingIp { .. } => match state.public_ip_id {
                Some(ip_id) => Some(CallView::GetPublicIp { ip_id }),
                None => None,
            },
            ReconciliationView::Decided(_) => None,
        }
    }

    /// The examination after a look at the instance.
    pub open spec fn seen_server(state: StateView, outcome: Result<Server, AppError>) -> Self {
        match outcome {
            Ok(server) => if server.state@ == "running"@ && state.phase is Ready {
                let boot_volume_id = models::boot_volume_of(server);
                if state.public_ip_id is Some {
                    ReconciliationView::QueryingIp { server_id: server.id@, boot_volume_id }
                } else {
                    ReconciliationView::Decided(Ok(usable(state, boot_volume_id)))
                }
            } else {
                ReconciliationView::Decided(Ok(OutcomeView::NeedsCleanupAndRestart))
            },
            Err(e) => if error::says_not_found(e@) {
                ReconciliationView::Decided(Ok(OutcomeView::NeedsCleanupAndRestart))
            } else {
                ReconciliationView::Decided(Err(e@))
            },
        }
    }

    /// The examination after a look at the public address.
    pub open spec fn seen_ip(
        state: StateView,
        server_id: Seq<char>,
        boot_volume_id: Option<Seq<char>>,
        outcome: Result<InstanceIp, AppError>,
    ) -> Self {
        match outcome {
            Ok(ip) => match ip.server {
                Some(attached) => if attached.id@ != server_id {
                    let ip_id = match state.public_ip_id {
                        Some(id) => id,
                        None => Seq::empty(),
                    };
                    ReconciliationView::Decided(
                        Err(conflict(ip_id, attached.name@, attached.id@)),
                    )
                } else {
                    ReconciliationView::Decided(Ok(usable(state, boot_volume_id)))
                },
                None => ReconciliationView::Decided(Ok(usable(state, boot_volume_id))),
            },
            Err(e) => if error::says_not_found(e@) {
                ReconciliationView::Decided(Ok(OutcomeView::NeedsCleanupAndRestart))
            } else {
                ReconciliationView::Decided(Err(e@))
            },
        }
    }

    /// The examination after a reply. A reply that does not answer what is asked for changes
    /// nothing.
    pub open spec fn after(self, state: StateView, reply: Reply) -> ReconciliationView {
        match (self, reply) {
            (ReconciliationView::QueryingServer, Reply::Server(outcome)) => {
                ReconciliationView::seen_server(state, outcome)
            },
            (ReconciliationView::QueryingIp { server_id, boot_volume_id }, Reply::Ip(outcome)) => {
                ReconciliationView::seen_ip(state, server_id, boot_volume_id, outcome)
            },
            _ => self,
        }
    }
}

// ---------------------------------------------------------------- carrying it out

fn usable_outcome(state: &State, boot_volume_id: Option<String>) -> (outcome: ReconciliationOutcome)
    ensures
        outcome@ == usable(state@, text::some_text(boot_volume_id)),
{
    match &state.public_ip_address {
        Some(ip) => ReconciliationOutcome::ResumeRunning {
            ip_address: ip.clone(),
            boot_volume_id,
        },
        None => ReconciliationOutcome::NeedsCleanupAndRestart,
    }
}

impl Reconciliation {
    /// Begins the examination of a record.
    pub fn reconcile_state(state: &State) -> (begun: Reconciliation)
        ensures
            begun@ == ReconciliationView::begun(state@),
    {
        if state.instance_id.is_none() && state.volume_id.is_none()
            && state.public_ip_id.is_none() {
            Reconciliation::Decided(Ok(ReconciliationOutcome::NoState))
        } else if state.instance_id.is_some() {
            Reconciliation::QueryingServer
        } else {
            Reconciliation::Decided(Ok(ReconciliationOutcome::NeedsCleanupAndRestart))
        }
    }

    /// What the examination asks for; nothing when it is over.
    pub fn pending(&self, state: &State) -> (call: Option<Call>)
        ensures
            call is Some == self@.pending(state@) is Some,
            call matches Some(c) ==> c@ == self@.pending(state@)->0,
    {
        match self {
            Reconciliation::QueryingServer => match &state.instance_id {
                Some(id) => Some(Call::GetServer { server_id: id.clone() }),
                None => None,
            },
            Reconciliation::QueryingIp { .. } => match &state.public_ip_id {
                Some(id) => Some(Call::GetPublicIp { ip_id: id.clone() }),
                None => None,
            },
            Reconciliation::Decided(_) => None,
        }
    }

    fn look_at_server(state: &State, outcome: Result<Server, AppError>) -> (next: Reconciliation)
        ensures
            next@ == ReconciliationView::seen_server(state@, outcome),
    {
        match outcome {
            Ok(server) => {
                let ready: bool = match state.phase {
                    ProvisioningPhase::Ready => true,
                    _ => false,
                };
                if same_text(server.state.as_str(), "running") && ready {
                    let boot_volume_id: Option<String> = server.boot_volume();
                    if state.public_ip_id.is_some() {
                        Reconciliation::QueryingIp { server_id: server.id, boot_volume_id }
                    } else {
                        Reconciliation::Decided(Ok(usable_outcome(state, boot_volume_id)))
                    }
                } else {
                    Reconciliation::Decided(Ok(ReconciliationOutcome::NeedsCleanupAndRestart))
                }
            },
            Err(e) => {
                if e.is_not_found() {
                    Reconciliation::Decided(Ok(ReconciliationOutcome::NeedsCleanupAndRestart))
                } else {
                    Reconciliation::Decided(Err(e))
                }
            },
        }
    }

    fn look_at_ip(
        state: &State,
        server_id: String,
        boot_volume_id: Option<String>,
        outcome: Result<InstanceIp, AppError>,
    ) -> (next: Reconciliation)
        ensures
            next@ == ReconciliationView::seen_ip(
                state@,
                server_id@,
                text::some_text(boot_volume_id),
                outcome,
            ),
    {
        match outcome {
            Ok(ip) => match &ip.server {
                Some(attached) => {
                    if !same_text(attached.id.as_str(), server_id.as_str()) {
                        let ip_id: String = match copy_text(&state.public_ip_id) {
                            Some(id) => id,
                            None => String::new(),
                        };
                        proof {
                            assert(state.public_ip_id is None ==> ip_id@ =~= Seq::<char>::empty());
                        }
                        Reconciliation::Decided(
                            Err(
                                AppError::IpAllocationFailed(
                                    "Conflicting attachment: Public IP ".to_owned()
                                        .concat(ip_id.as_str())
                                        .concat(" is already attached to a different server: ")
                                        .concat(attached.name.as_str())
                                        .concat(" (")
                                        .concat(attached.id.as_str())
                                        .concat(")"),
                                ),
                            ),
                        )
                    } else {
                        Reconciliation::Decided(Ok(usable_outcome(state, boot_volume_id)))
                    }
                },
                None => Reconciliation::Decided(Ok(usable_outcome(state, boot_volume_id))),
            },
            Err(e) => {
                if e.is_not_found() {
                    Reconciliation::Decided(Ok(ReconciliationOutcome::NeedsCleanupAndRestart))
                } else {
                    Reconciliation::Decided(Err(e))
                }
            },
        }
    }

    /// Takes the examination on by a reply. A reply that does not answer what is asked for changes
    /// nothing.
    pub fn resume(self, state: &State, reply: Reply) -> (next: Reconciliation)
        ensures
            next@ == self@.after(state@, reply),
    {
        match (self, reply) {
            (Reconciliation::QueryingServer, Reply::Server(outcome)) => {
                Reconciliation::look_at_server(state, outcome)
            },
            (Reconciliation::QueryingIp { server_id, boot_volume_id }, Reply::Ip(outcome)) => {
                Reconciliation::look_at_ip(state, server_id, boot_volume_id, outcome)
            },
            (same, _) => same,
        }
    }
}

// ---------------------------------------------------------------- laws

/// An instance is taken on again only where the record says that everything was up, the instance
/// is seen up, and its address is known; and the address is not attached to another server.
pub proof fn lemma_resumes_only_what_is_up(
    state: StateView,
    server: Result<Server, AppError>,
    ip: Result<InstanceIp, AppError>,
)
    ensures
        ({
            let first = ReconciliationView::begun(state);
            let second = first.after(state, Reply::Server(server));
            let third = second.after(state, Reply::Ip(ip));
            third matches ReconciliationView::Decided(Ok(OutcomeView::ResumeRunning {
                ip_address,
                ..
            })) ==> {
                &&& state.phase is Ready
                &&& state.instance_id is Some
                &&& state.public_ip_address == Some(ip_address)
                &&& server matches Ok(s) && s.state@ == "running"@
                &&& state.public_ip_id is Some ==> (ip matches Ok(i) && (i.server is None
                    || i.server->0.id@ == server->Ok_0.id@))
            }
        }),
{
}

/// A record that holds resources is never taken for one that holds none.
pub proof fn lemma_resources_are_not_overlooked(state: StateView, reply: Reply)
    requires
        !state.tracks_nothing(),
    ensures
        ReconciliationView::begun(state) != ReconciliationView::Decided(
            Ok::<OutcomeView, AppErrorView>(OutcomeView::NoState),
        ),
        forall|v: ReconciliationView|
            v != ReconciliationView::Decided(Ok::<OutcomeView, AppErrorView>(OutcomeView::NoState))
                ==> #[trigger] v.after(state, reply) != ReconciliationView::Decided(
                Ok::<OutcomeView, AppErrorView>(OutcomeView::NoState),
            ),
{
}

} // verus!
