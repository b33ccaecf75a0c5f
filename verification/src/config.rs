//! The configuration and its rules.

use vstd::prelude::*;
#[allow(unused_imports)]
use vstd::string::*;
#[allow(unused_imports)]
use vstd::utf8::*;

use crate::error::AppError;
#[allow(unused_imports)]
use crate::error::AppErrorView;
use crate::outside::uuid_parse;
#[allow(unused_imports)]
use crate::outside;
use crate::text::{copy_texts, is_blank, parse_unsigned, same_text, split_char};
#[allow(unused_imports)]
use crate::text;

verus! {

/// A text that is not to be shown.
pub struct SecretText {
    hidden: String,
}

impl SecretText {
    /// The text itself.
    pub closed spec fn hidden_text(self) -> Seq<char> {
        self.hidden@
    }

    /// Hides a text.
    pub fn new(hidden: String) -> (secret: SecretText)
        ensures
            secret.hidden_text() == hidden@,
    {
        SecretText { hidden }
    }

    /// Shows the text, to whoever must send it.
    pub fn expose_secret(&self) -> (shown: &str)
        ensures
            shown@ == self.hidden_text(),
    {
        self.hidden.as_str()
    }

    /// What stands in a log in place of the text: the same for every text.
    pub fn redacted(&self) -> (shown: String)
        ensures
            shown@ == "[REDACTED]"@,
    {
        "[REDACTED]".to_owned()
    }
}

impl Clone for SecretText {
    fn clone(&self) -> (copy: SecretText)
        ensures
            copy == *self,
    {
        SecretText { hidden: self.hidden.clone() }
    }
}

/// The configuration.
pub struct Config {
    /// Who asks, and where.
    pub scaleway: ScalewayConfig,
    /// What is made.
    pub instance: InstanceConfig,
    /// How the model is talked to.
    pub nemotron: NemotronConfig,
    /// How long things may take.
    pub timeouts: TimeoutsConfig,
    /// What is logged.
    pub logging: LoggingConfig,
}

/// Who asks, and where.
pub struct ScalewayConfig {
    /// The public half of the credentials.
    pub access_key: String,
    /// The secret half of the credentials.
    pub secret_key: SecretText,
    /// The project.
    pub project_id: String,
    /// The organization.
    pub organization_id: String,
    /// The zone.
    pub zone: String,
}

/// What is made.
#[derive(Debug, Clone)]
pub struct InstanceConfig {
    /// The name of the instance.
    pub name: String,
    /// The one GPU type to try, where no list is given.
    pub instance_type: String,
    /// The snapshot that the instance is made from.
    pub snapshot_id: String,
    /// Which public address it gets.
    pub public_ip: String,
    /// The GPU types to try, in order.
    pub gpu_types: Option<Vec<String>>,
}

/// How the model is talked to.
pub struct NemotronConfig {
    /// The port of the inference server.
    pub port: u16,
    /// The key of the inference server.
    pub api_key: SecretText,
    /// The name of the model.
    pub model: String,
    /// How long an answer may be.
    pub max_tokens: u32,
    /// How freely the model answers: the bits of an IEEE 754 single.
    pub temperature_bits: u32,
    /// What the model is told before anything else.
    pub system_prompt: String,
}

/// How long things may take, in seconds.
#[derive(Debug, Clone, Copy)]
pub struct TimeoutsConfig {
    /// For the instance to come up.
    pub instance_creation_seconds: u64,
    /// Between two looks at the instance.
    pub instance_poll_interval_seconds: u64,
    /// For the inference server to come up.
    pub nemotron_startup_seconds: u64,
    /// Between two looks at the inference server.
    pub nemotron_poll_interval_seconds: u64,
    /// For a deletion to show.
    pub cleanup_timeout_seconds: u64,
    /// Between two looks at what was deleted.
    pub cleanup_poll_interval_seconds: u64,
    /// For an answer of the model.
    pub inference_timeout_seconds: u64,
}

/// What is logged.
#[derive(Debug, Clone, Copy)]
pub struct LoggingConfig {
    /// Whether everything is.
    pub verbose: bool,
}

/// How long an answer of the model may take where nothing is said of it, in seconds.
pub fn default_inference_timeout() -> (seconds: u64)
    ensures
        seconds == 300,
{
    300
}

/// Whether the mode of a file lets anyone but its owner at it.
pub fn permissions_too_broad(mode: u32) -> (broad: bool)
    ensures
        broad == (mode & 0o077 != 0),
{
    (mode & 0o077) != 0
}

impl InstanceConfig {
    /// The GPU types to try, in order: the list where there is one, else the one type that is
    /// named, else none.
    pub open spec fn gpu_list(self) -> Seq<Seq<char>> {
        match self.gpu_types {
            Some(list) => text::texts(list@),
            None => if text::blank(self.instance_type@) {
                Seq::empty()
            } else {
                seq![self.instance_type@]
            },
        }
    }

    /// The GPU types to try, in order.
    pub fn effective_gpu_types(&self) -> (list: Vec<String>)
        ensures
            text::texts(list@) == self.gpu_list(),
    {
        match &self.gpu_types {
            Some(list) => copy_texts(list),
            None => {
                let mut list: Vec<String> = Vec::new();
                if !is_blank(self.instance_type.as_str()) {
                    list.push(self.instance_type.clone());
                }
                proof {
                    assert(text::texts(list@) =~= self.gpu_list());
                }
                list
            },
        }
    }
}

// ---------------------------------------------------------------- the rules

/// What is wrong with the GPU types from a position on: a blank name, or one that came before.
pub open spec fn gpu_fault_from(list: Seq<Seq<char>>, at: int) -> Option<Seq<char>>
    decreases list.len() - at,
{
    if at < 0 || at >= list.len() {
        None
    } else if text::blank(list[at]) {
        Some("GPU type name cannot be empty"@)
    } else if list.take(at).contains(list[at]) {
        Some("Duplicate GPU type entry in config: "@ + list[at])
    } else {
        gpu_fault_from(list, at + 1)
    }
}

/// Whether a zone has the form of a zone: two bytes, three bytes and a number between dashes.
pub open spec fn zone_form(zone: Seq<char>) -> bool {
    let parts = text::pieces(zone, '-');
    &&& parts.len() == 3
    &&& encode_utf8(parts[0]).len() == 2
    &&& encode_utf8(parts[1]).len() == 3
    &&& text::unsigned_reading(parts[2], u32::MAX as nat) is Some
}

/// Whether the bits of a single stand for a number from 0 to 2: a zero with or without a sign, or
/// a positive number up to 2. What is no number is not in that range.
pub open spec fn temperature_in_range(bits: u32) -> bool {
    bits <= 0x4000_0000 || bits == 0x8000_0000
}

impl TimeoutsConfig {
    /// What is wrong with the times.
    pub open spec fn fault(self) -> Option<Seq<char>> {
        if self.instance_creation_seconds == 0 {
            Some("instance_creation_seconds must be positive"@)
        } else if self.instance_poll_interval_seconds == 0 {
            Some("instance_poll_interval_seconds must be positive"@)
        } else if self.nemotron_startup_seconds == 0 {
            Some("nemotron_startup_seconds must be positive"@)
        } else if self.nemotron_poll_interval_seconds == 0 {
            Some("nemotron_poll_interval_seconds must be positive"@)
        } else if self.cleanup_timeout_seconds == 0 {
            Some("cleanup_timeout_seconds must be positive"@)
        } else if self.cleanup_poll_interval_seconds == 0 {
            Some("cleanup_poll_interval_seconds must be positive"@)
        } else if self.inference_timeout_seconds == 0 {
            Some("inference_timeout_seconds must be positive"@)
        } else {
            None
        }
    }
}

impl Config {
    /// What is wrong with the names and keys.
    pub open spec fn name_fault(self) -> Option<Seq<char>> {
        let list = self.instance.gpu_list();
        if text::blank(self.scaleway.access_key@) {
            Some("access_key cannot be empty"@)
        } else if text::blank(self.scaleway.secret_key.hidden_text()) {
            Some("secret_key cannot be empty"@)
        } else if text::blank(self.scaleway.zone@) {
            Some("zone cannot be empty"@)
        } else if text::blank(self.instance.name@) {
            Some("instance name cannot be empty"@)
        } else if list.len() == 0 {
            Some("No GPU types configured. Specify either instance_type or gpu_types."@)
        } else if gpu_fault_from(list, 0) is Some {
            gpu_fault_from(list, 0)
        } else if text::blank(self.nemotron.api_key.hidden_text()) {
            Some("nemotron api_key cannot be empty"@)
        } else if text::blank(self.nemotron.model@) {
            Some("nemotron model cannot be empty"@)
        } else {
            None
        }
    }

    /// What is wrong with the identifiers and the zone.
    pub open spec fn reference_fault(self) -> Option<Seq<char>> {
        if outside::uuid_reading(self.scaleway.project_id@) is Err {
            Some("project_id must be a valid UUID"@)
        } else if outside::uuid_reading(self.scaleway.organization_id@) is Err {
            Some("organization_id must be a valid UUID"@)
        } else if outside::uuid_reading(self.instance.snapshot_id@) is Err {
            Some("snapshot_id must be a valid UUID"@)
        } else if !zone_form(self.scaleway.zone@) {
            Some(
                "zone '"@ + self.scaleway.zone@
                    + "' does not follow expected format (e.g., fr-par-2)"@,
            )
        } else {
            None
        }
    }

    /// What is wrong with the numbers and the choice of address.
    pub open spec fn value_fault(self) -> Option<Seq<char>> {
        if self.nemotron.port == 0 {
            Some("nemotron port must be between 1 and 65535"@)
        } else if self.nemotron.max_tokens == 0 {
            Some("max_tokens must be positive"@)
        } else if !temperature_in_range(self.nemotron.temperature_bits) {
            Some("temperature must be between 0.0 and 2.0"@)
        } else if self.timeouts.fault() is Some {
            self.timeouts.fault()
        } else if self.instance.public_ip@ != "new"@ {
            Some(
                "unsupported public_ip value '"@ + self.instance.public_ip@
                    + "' (only 'new' is supported in this version)"@,
            )
        } else {
            None
        }
    }

    /// The first rule that the configuration breaks, in the order in which they are checked.
    pub open spec fn fault(self) -> Option<Seq<char>> {
        if self.name_fault() is Some {
            self.name_fault()
        } else if self.reference_fault() is Some {
            self.reference_fault()
        } else {
            self.value_fault()
        }
    }

    /// Whether the configuration keeps every rule.
    pub open spec fn keeps_rules(self) -> bool {
        let list = self.instance.gpu_list();
        &&& !text::blank(self.scaleway.access_key@)
        &&& !text::blank(self.scaleway.secret_key.hidden_text())
        &&& !text::blank(self.instance.name@)
        &&& !text::blank(self.nemotron.api_key.hidden_text())
        &&& !text::blank(self.nemotron.model@)
        &&& !text::blank(self.scaleway.zone@)
        &&& list.len() > 0
        &&& forall|i: int| 0 <= i < list.len() ==> !text::blank(#[trigger] list[i])
        &&& list.no_duplicates()
        &&& outside::uuid_reading(self.scaleway.project_id@) is Ok
        &&& outside::uuid_reading(self.scaleway.organization_id@) is Ok
        &&& outside::uuid_reading(self.instance.snapshot_id@) is Ok
        &&& zone_form(self.scaleway.zone@)
        &&& self.nemotron.port > 0
        &&& self.nemotron.max_tokens > 0
        &&& temperature_in_range(self.nemotron.temperature_bits)
        &&& self.timeouts.instance_creation_seconds > 0
        &&& self.timeouts.instance_poll_interval_seconds > 0
        &&& self.timeouts.nemotron_startup_seconds > 0
        &&& self.timeouts.nemotron_poll_interval_seconds > 0
        &&& self.timeouts.cleanup_timeout_seconds > 0
        &&& self.timeouts.cleanup_poll_interval_seconds > 0
        &&& self.timeouts.inference_timeout_seconds > 0
        &&& self.instance.public_ip@ == "new"@
    }

    /// Checks the configuration: the first rule that it breaks is the error.
    pub fn validate(&self) -> (checked: Result<(), AppError>)
        ensures
            checked is Ok == self.fault() is None,
            checked matches Err(e) ==> e@ == AppErrorView::InvalidConfig(self.fault()->0),
            checked is Ok == self.keeps_rules(),
    {
        proof {
            lemma_rules(*self);
        }
        match self.check_names() {
            Some(message) => {
                return Err(AppError::InvalidConfig(message));
            },
            None => {},
        }
        match self.check_references() {
            Some(message) => {
                return Err(AppError::InvalidConfig(message));
            },
            None => {},
        }
        match self.check_values() {
            Some(message) => Err(AppError::InvalidConfig(message)),
            None => Ok(()),
        }
    }

    fn check_names(&self) -> (fault: Option<String>)
        ensures
            text::some_text(fault) == self.name_fault(),
    {
        if is_blank(self.scaleway.access_key.as_str()) {
            return Some("access_key cannot be empty".to_owned());
        }
        if is_blank(self.scaleway.secret_key.expose_secret()) {
            return Some("secret_key cannot be empty".to_owned());
        }
        if is_blank(self.scaleway.zone.as_str()) {
            return Some("zone cannot be empty".to_owned());
        }
        if is_blank(self.instance.name.as_str()) {
            return Some("instance name cannot be empty".to_owned());
        }
        let list: Vec<String> = self.instance.effective_gpu_types();
        if list.len() == 0 {
            return Some(
                "No GPU types configured. Specify either instance_type or gpu_types.".to_owned(),
            );
        }
        match check_gpus(&list) {
            Some(message) => {
                return Some(message);
            },
            None => {},
        }
        if is_blank(self.nemotron.api_key.expose_secret()) {
            return Some("nemotron api_key cannot be empty".to_owned());
        }
        if is_blank(self.nemotron.model.as_str()) {
            return Some("nemotron model cannot be empty".to_owned());
        }
        None
    }

    fn check_references(&self) -> (fault: Option<String>)
        ensures
            text::some_text(fault) == self.reference_fault(),
    {
        if uuid_parse(self.scaleway.project_id.as_str()).is_err() {
            return Some("project_id must be a valid UUID".to_owned());
        }
        if uuid_parse(self.scaleway.organization_id.as_str()).is_err() {
            return Some("organization_id must be a valid UUID".to_owned());
        }
        if uuid_parse(self.instance.snapshot_id.as_str()).is_err() {
            return Some("snapshot_id must be a valid UUID".to_owned());
        }
        if !check_zone(self.scaleway.zone.as_str()) {
            return Some(
                "zone '".to_owned()
                    .concat(self.scaleway.zone.as_str())
                    .concat("' does not follow expected format (e.g., fr-par-2)"),
            );
        }
        None
    }

    fn check_values(&self) -> (fault: Option<String>)
        ensures
            text::some_text(fault) == self.value_fault(),
    {
        if self.nemotron.port == 0 {
            return Some("nemotron port must be between 1 and 65535".to_owned());
        }
        if self.nemotron.max_tokens == 0 {
            return Some("max_tokens must be positive".to_owned());
        }
        let bits: u32 = self.nemotron.temperature_bits;
        if bits > 0x4000_0000 && bits != 0x8000_0000 {
            return Some("temperature must be between 0.0 and 2.0".to_owned());
        }
        if self.timeouts.instance_creation_seconds == 0 {
            return Some("instance_creation_seconds must be positive".to_owned());
        }
        if self.timeouts.instance_poll_interval_seconds == 0 {
            return Some("instance_poll_interval_seconds must be positive".to_owned());
        }
        if self.timeouts.nemotron_startup_seconds == 0 {
            return Some("nemotron_startup_seconds must be positive".to_owned());
        }
        if self.timeouts.nemotron_poll_interval_seconds == 0 {
            return Some("nemotron_poll_interval_seconds must be positive".to_owned());
        }
        if self.timeouts.cleanup_timeout_seconds == 0 {
            return Some("cleanup_timeout_seconds must be positive".to_owned());
        }
        if self.timeouts.cleanup_poll_interval_seconds == 0 {
            return Some("cleanup_poll_interval_seconds must be positive".to_owned());
        }
        if self.timeouts.inference_timeout_seconds == 0 {
            return Some("inference_timeout_seconds must be positive".to_owned());
        }
        if !same_text(self.instance.public_ip.as_str(), "new") {
            return Some(
                "unsupported public_ip value '".to_owned()
                    .concat(self.instance.public_ip.as_str())
                    .concat("' (only 'new' is supported in this version)"),
            );
        }
        None
    }
}

fn check_gpus(list: &Vec<String>) -> (fault: Option<String>)
    ensures
        text::some_text(fault) == gpu_fault_from(text::texts(list@), 0),
{
    let ghost all = text::texts(list@);
    let mut i: usize = 0;
    while i < list.len()
        invariant
            i <= list@.len(),
            all == text::texts(list@),
            gpu_fault_from(all, 0) == gpu_fault_from(all, i as int),
        decreases list@.len() - i,
    {
        proof {
            assert(all[i as int] == list@[i as int]@);
        }
        if is_blank(list[i].as_str()) {
            return Some("GPU type name cannot be empty".to_owned());
        }
        if came_before(list, i) {
            return Some("Duplicate GPU type entry in config: ".to_owned().concat(list[i].as_str()));
        }
        i = i + 1;
    }
    None
}

/// Whether the text at a position of a list stands at an earlier one too.
fn came_before(list: &Vec<String>, at: usize) -> (before: bool)
    requires
        at < list@.len(),
    ensures
        before == text::texts(list@).take(at as int).contains(text::texts(list@)[at as int]),
{
    let ghost front = text::texts(list@).take(at as int);
    let mut i: usize = 0;
    while i < at
        invariant
            i <= at < list@.len(),
            front == text::texts(list@).take(at as int),
            forall|k: int| 0 <= k < i ==> #[trigger] front[k] != list@[at as int]@,
        decreases at - i,
    {
        proof {
            assert(front[i as int] == list@[i as int]@);
        }
        if same_text(list[i].as_str(), list[at].as_str()) {
            return true;
        }
        i = i + 1;
    }
    false
}

fn check_zone(zone: &str) -> (good: bool)
    ensures
        good == zone_form(zone@),
{
    let parts: Vec<String> = split_char(zone, '-');
    let ghost all = text::texts(parts@);
    if parts.len() != 3 {
        return false;
    }
    proof {
        assert(all[0] == parts@[0]@);
        assert(all[1] == parts@[1]@);
        assert(all[2] == parts@[2]@);
    }
    parts[0].as_str().as_bytes().len() == 2 && parts[1].as_str().as_bytes().len() == 3
        && parse_unsigned(parts[2].as_str(), 0xffff_ffff).is_some()
}

// ---------------------------------------------------------------- what the rules come to

proof fn lemma_gpu_fault(list: Seq<Seq<char>>, at: int)
    requires
        0 <= at <= list.len(),
    ensures
        gpu_fault_from(list, at) is None <==> (forall|i: int|
            at <= i < list.len() ==> !text::blank(#[trigger] list[i]) && !list.take(i).contains(
                list[i],
            )),
    decreases list.len() - at,
{
    if at < list.len() {
        lemma_gpu_fault(list, at + 1);
        if gpu_fault_from(list, at) is None {
            assert forall|i: int| at <= i < list.len() implies !text::blank(#[trigger] list[i])
                && !list.take(i).contains(list[i]) by {}
        } else {
            if !text::blank(list[at]) && !list.take(at).contains(list[at]) {
                assert(gpu_fault_from(list, at) == gpu_fault_from(list, at + 1));
            }
        }
    }
}

proof fn lemma_no_repeats(list: Seq<Seq<char>>)
    ensures
        list.no_duplicates() <==> (forall|i: int|
            0 <= i < list.len() ==> !list.take(i).contains(#[trigger] list[i])),
{
    if list.no_duplicates() {
        assert forall|i: int| 0 <= i < list.len() implies !list.take(i).contains(
            #[trigger] list[i],
        ) by {
            if list.take(i).contains(list[i]) {
                let k = choose|k: int| 0 <= k < i && list.take(i)[k] == list[i];
                assert(list[k] == list[i]);
            }
        }
    }
    if forall|i: int| 0 <= i < list.len() ==> !list.take(i).contains(#[trigger] list[i]) {
        assert forall|i: int, j: int| 0 <= i < j < list.len() implies list[i] != list[j] by {
            assert(!list.take(j).contains(list[j]));
            assert(list.take(j)[i] == list[i]);
        }
    }
}

/// No rule is broken exactly when every rule is kept.
pub proof fn lemma_rules(config: Config)
    ensures
        config.fault() is None <==> config.keeps_rules(),
{
    let list = config.instance.gpu_list();
    lemma_gpu_fault(list, 0);
    lemma_no_repeats(list);
}

/// A list of GPU types takes precedence over the one type that is named.
pub proof fn lemma_list_takes_precedence(instance: InstanceConfig, named: String)
    requires
        instance.gpu_types is Some,
    ensures
        (InstanceConfig { instance_type: named, ..instance }).gpu_list() == instance.gpu_list(),
{
}

} // verus!
