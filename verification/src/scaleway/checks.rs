//! Whether the API bears the configuration out.

use vstd::prelude::*;
#[allow(unused_imports)]
use vstd::string::*;

use crate::config::Config;
use crate::error::AppError;
#[allow(unused_imports)]
use crate::error::AppErrorView;
use crate::scaleway::calls::{Call, Reply};
#[allow(unused_imports)]
use crate::scaleway::calls::CallView;
use crate::scaleway::client::ScalewayClient;
#[allow(unused_imports)]
use crate::scaleway::instances;
#[allow(unused_imports)]
use crate::text;

verus! {

/// What is checked.
#[derive(Debug, Clone, Copy, PartialEq, Eq, Structural)]
pub enum Check {
    /// The credentials and the project.
    Account,
    /// The snapshot.
    Snapshot,
    /// Whether the zone offers an instance type that may be tried.
    InstanceType,
}

/// Checks under way, one behind the other.
#[derive(Debug)]
pub struct RemoteChecks {
    /// The snapshot.
    pub snapshot_id: String,
    /// The instance types that may be tried.
    pub types: Vec<String>,
    /// What is left to be checked, the next at the end.
    pub left: Vec<Check>,
    /// What went wrong, if anything did.
    pub failure: Option<AppError>,
}

/// Checks under way, as a value.
#[verifier::ext_equal]
pub struct ChecksView {
    /// The snapshot.
    pub snapshot_id: Seq<char>,
    /// The instance types that may be tried.
    pub types: Seq<Seq<char>>,
    /// What is left to be checked, the next at the end.
    pub left: Seq<Check>,
    /// What went wrong, if anything did.
    pub failure: Option<AppErrorView>,
}

impl View for RemoteChecks {
    type V = ChecksView;

    open spec fn view(&self) -> ChecksView {
        ChecksView {
            snapshot_id: self.snapshot_id@,
            types: text::texts(self.types@),
            left: self.left@,
            failure: match self.failure {
                Some(e) => Some(e@),
                None => None,
            },
        }
    }
}

impl ChecksView {
    /// What is asked for; nothing when everything is checked or something went wrong.
    pub open spec fn pending(self) -> Option<CallView> {
        if self.failure is Some || self.left.len() == 0 {
            None
        } else {
            match self.left.last() {
                Check::Account => Some(CallView::ValidateAuth),
                Check::Snapshot => Some(CallView::GetSnapshot { snapshot_id: self.snapshot_id }),
                Check::InstanceType => Some(CallView::ListProducts),
            }
        }
    }

    /// The checks when the next one is passed.
    pub open spec fn passed(self) -> ChecksView {
        ChecksView { left: self.left.drop_last(), ..self }
    }

    /// The checks when the next one is not passed.
    pub open spec fn failed(self, e: AppErrorView) -> ChecksView {
        ChecksView { failure: Some(e), ..self }
    }

    /// The checks after a reply. A reply that does not answer what is asked for changes nothing.
    pub open spec fn after(self, zone: Seq<char>, reply: Reply) -> ChecksView {
        if self.failure is Some || self.left.len() == 0 {
            self
        } else {
            match (self.left.last(), reply) {
                (Check::Account, Reply::Done(Ok(_))) => self.passed(),
                (Check::Account, Reply::Done(Err(e))) => self.failed(e@),
                (Check::Snapshot, Reply::Snapshot(Ok(_))) => self.passed(),
                (Check::Snapshot, Reply::Snapshot(Err(e))) => self.failed(e@),
                (Check::InstanceType, Reply::Products(Ok(products))) => if instances::offers_some(
                    self.types,
                    products,
                ) {
                    self.passed()
                } else {
                    self.failed(
                        instances::unavailable(zone, text::joined(self.types, ", "@), products),
                    )
                },
                (Check::InstanceType, Reply::Products(Err(e))) => self.failed(e@),
                _ => self,
            }
        }
    }
}

impl RemoteChecks {
    /// The checks of a configuration: the account, the snapshot, the instance types.
    pub fn validate_config(config: &Config) -> (checks: RemoteChecks)
        ensures
            checks@ == (ChecksView {
                snapshot_id: config.instance.snapshot_id@,
                types: config.instance.gpu_list(),
                left: seq![Check::InstanceType, Check::Snapshot, Check::Account],
                failure: None,
            }),
    {
        let mut left: Vec<Check> = Vec::new();
        left.push(Check::InstanceType);
        left.push(Check::Snapshot);
        left.push(Check::Account);
        proof {
            assert(left@ =~= seq![Check::InstanceType, Check::Snapshot, Check::Account]);
        }
        RemoteChecks {
            snapshot_id: config.instance.snapshot_id.clone(),
            types: config.instance.effective_gpu_types(),
            left,
            failure: None,
        }
    }

    /// The checks that try the API out: the account, the instance types, the snapshot.
    pub fn run_live_integration_test(config: &Config) -> (checks: RemoteChecks)
        ensures
            checks@ == (ChecksView {
                snapshot_id: config.instance.snapshot_id@,
                types: config.instance.gpu_list(),
                left: seq![Check::Snapshot, Check::InstanceType, Check::Account],
                failure: None,
            }),
    {
        let mut left: Vec<Check> = Vec::new();
        left.push(Check::Snapshot);
        left.push(Check::InstanceType);
        left.push(Check::Account);
        proof {
            assert(left@ =~= seq![Check::Snapshot, Check::InstanceType, Check::Account]);
        }
        RemoteChecks {
            snapshot_id: config.instance.snapshot_id.clone(),
            types: config.instance.effective_gpu_types(),
            left,
            failure: None,
        }
    }

    /// What is asked for; nothing when everything is checked or something went wrong.
    pub fn pending(&self) -> (call: Option<Call>)
        ensures
            call is Some == self@.pending() is Some,
            call matches Some(c) ==> c@ == self@.pending()->0,
    {
        if self.failure.is_some() || self.left.len() == 0 {
            return None;
        }
        match self.left[self.left.len() - 1] {
            Check::Account => Some(Call::ValidateAuth),
            Check::Snapshot => Some(Call::GetSnapshot { snapshot_id: self.snapshot_id.clone() }),
            Check::InstanceType => Some(Call::ListProducts),
        }
    }

    fn pass(&mut self)
        requires
            old(self)@.left.len() > 0,
        ensures
            final(self)@ == old(self)@.passed(),
    {
        let _done: Option<Check> = self.left.pop();
        proof {
            assert(self@ =~= old(self)@.passed());
        }
    }

    fn fail(&mut self, e: AppError)
        ensures
            final(self)@ == old(self)@.failed(e@),
    {
        self.failure = Some(e);
    }

    /// Takes the checks on by a reply. A reply that does not answer what is asked for changes
    /// nothing.
    pub fn resume(&mut self, client: &ScalewayClient, reply: Reply)
        ensures
            final(self)@ == old(self)@.after(client.zone@, reply),
    {
        if self.failure.is_some() || self.left.len() == 0 {
            return;
        }
        let next: Check = self.left[self.left.len() - 1];
        match (next, reply) {
            (Check::Account, Reply::Done(outcome)) => match outcome {
                Ok(_) => self.pass(),
                Err(e) => self.fail(e),
            },
            (Check::Snapshot, Reply::Snapshot(outcome)) => match outcome {
                Ok(_) => self.pass(),
                Err(e) => self.fail(e),
            },
            (Check::InstanceType, Reply::Products(outcome)) => {
                match client.validate_candidates_available(&self.types, outcome) {
                    Ok(_) => self.pass(),
                    Err(e) => self.fail(e),
                }
            },
            _ => {},
        }
    }
}

} // verus!
