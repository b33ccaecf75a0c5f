//! The record of what has been made and has to be removed again.

use vstd::prelude::*;
#[allow(unused_imports)]
use vstd::utf8::*;

use crate::outside::{now_text, uuid_fresh};
#[allow(unused_imports)]
use crate::text;

verus! {

/// How far a session has come.
#[derive(Debug, Clone, Copy, PartialEq, Eq, Structural)]
pub enum ProvisioningPhase {
    /// Nothing has been asked for yet.
    Preflight,
    /// The instance is being made.
    CreatingInstance,
    /// The boot volume of the instance is being looked up.
    DiscoveringBootVolume,
    /// The instance is being switched on.
    PoweringOn,
    /// The instance is coming up.
    WaitingForRunning,
    /// A public address is being had and attached.
    AllocatingIp,
    /// The inference server is coming up.
    WaitingForNemotron,
    /// Everything is up.
    Ready,
    /// What was made is being removed.
    CleaningUp,
    /// Something that was made could not be removed.
    CleanupIncomplete,
}

/// The version of the record that this library writes.
pub const STATE_VERSION: u32 = 4;

/// The record of what has been made and has to be removed again.
#[derive(Debug, Clone, PartialEq)]
pub struct State {
    /// The version of the record.
    pub version: u32,
    /// How far the session has come.
    pub phase: ProvisioningPhase,
    /// How the instance is made.
    pub creation_mode: Option<String>,
    /// The identifier of the attempt.
    pub attempt_id: String,
    /// The GPU type of the attempt.
    pub selected_gpu_type: String,
    /// The instance, if there is one.
    pub instance_id: Option<String>,
    /// The boot volume, if there is one.
    pub volume_id: Option<String>,
    /// The public address, if there is one.
    pub public_ip_id: Option<String>,
    /// The public address itself, if there is one.
    pub public_ip_address: Option<String>,
    /// The snapshot that the instance is made from.
    pub snapshot_id: String,
    /// The zone of the resources.
    pub zone: String,
    /// The GPU types that were tried.
    pub attempted_gpu_types: Vec<String>,
    /// When the record was opened, in the RFC 3339 form.
    pub created_at: String,
}

/// A record as a value.
#[verifier::ext_equal]
pub struct StateView {
    /// The version of the record.
    pub version: u32,
    /// How far the session has come.
    pub phase: ProvisioningPhase,
    /// How the instance is made.
    pub creation_mode: Option<Seq<char>>,
    /// The identifier of the attempt.
    pub attempt_id: Seq<char>,
    /// The GPU type of the attempt.
    pub selected_gpu_type: Seq<char>,
    /// The instance, if there is one.
    pub instance_id: Option<Seq<char>>,
    /// The boot volume, if there is one.
    pub volume_id: Option<Seq<char>>,
    /// The public address, if there is one.
    pub public_ip_id: Option<Seq<char>>,
    /// The public address itself, if there is one.
    pub public_ip_address: Option<Seq<char>>,
    /// The snapshot that the instance is made from.
    pub snapshot_id: Seq<char>,
    /// The zone of the resources.
    pub zone: Seq<char>,
    /// The GPU types that were tried.
    pub attempted_gpu_types: Seq<Seq<char>>,
    /// When the record was opened.
    pub created_at: Seq<char>,
}

impl View for State {
    type V = StateView;

    open spec fn view(&self) -> StateView {
        StateView {
            version: self.version,
            phase: self.phase,
            creation_mode: text::some_text(self.creation_mode),
            attempt_id: self.attempt_id@,
            selected_gpu_type: self.selected_gpu_type@,
            instance_id: text::some_text(self.instance_id),
            volume_id: text::some_text(self.volume_id),
            public_ip_id: text::some_text(self.public_ip_id),
            public_ip_address: text::some_text(self.public_ip_address),
            snapshot_id: self.snapshot_id@,
            zone: self.zone@,
            attempted_gpu_types: text::texts(self.attempted_gpu_types@),
            created_at: self.created_at@,
        }
    }
}

/// What distinguishes one attempt from every other: an identifier and a moment.
#[derive(Debug, Clone)]
pub struct Identity {
    /// The identifier.
    pub attempt_id: String,
    /// The moment, in the RFC 3339 form.
    pub created_at: String,
}

/// Whether an identifier can name an attempt: a character of it ends behind eight bytes.
pub open spec fn names_attempt(id: Seq<char>) -> bool {
    text::ends_behind(id, 8)
}

impl Identity {
    /// Whether the identifier can name an attempt.
    pub open spec fn wf(self) -> bool {
        names_attempt(self.attempt_id@)
    }

    /// An identity of this moment, with an identifier of its own.
    pub fn draw() -> (identity: Identity)
        ensures
            identity.wf(),
            identity.attempt_id@.len() == 36,
    {
        let attempt_id: String = uuid_fresh();
        let identity: Identity = Identity { attempt_id, created_at: now_text() };
        proof {
            let id = identity.attempt_id@;
            encode_utf8_valid_utf8(id);
            is_ascii_chars_encode_utf8(id);
            assert('\0' <= id[8] <= '\u{7f}');
            assert(encode_utf8(id)[8] == id[8] as u8);
            is_char_boundary_iff_not_is_continuation_byte(encode_utf8(id), 8);
        }
        identity
    }
}

/// The record of a session in which nothing has been made.
pub open spec fn empty_record(
    snapshot_id: Seq<char>,
    zone: Seq<char>,
    attempt_id: Seq<char>,
    created_at: Seq<char>,
) -> StateView {
    StateView {
        version: STATE_VERSION,
        phase: ProvisioningPhase::Preflight,
        creation_mode: Some("snapshot_direct"@),
        attempt_id,
        selected_gpu_type: Seq::empty(),
        instance_id: None,
        volume_id: None,
        public_ip_id: None,
        public_ip_address: None,
        snapshot_id,
        zone,
        attempted_gpu_types: Seq::empty(),
        created_at,
    }
}

impl StateView {
    /// Whether the record holds no resource.
    pub open spec fn tracks_nothing(self) -> bool {
        self.instance_id is None && self.volume_id is None && self.public_ip_id is None
    }

    /// Whether one of the resources in the record has this identifier.
    pub open spec fn tracks(self, id: Seq<char>) -> bool {
        ||| self.instance_id == Some(id)
        ||| self.volume_id == Some(id)
        ||| self.public_ip_id == Some(id)
    }

    /// The record at the start of an attempt with a GPU type.
    pub open spec fn starting(self, gpu_type: Seq<char>, attempt_id: Seq<char>) -> StateView {
        StateView {
            selected_gpu_type: gpu_type,
            attempted_gpu_types: self.attempted_gpu_types.push(gpu_type),
            attempt_id,
            ..self
        }
    }
}

impl State {
    /// The record of a session in which nothing has been made yet.
    pub fn new(snapshot_id: String, zone: String) -> (state: State)
        ensures
            state@ == empty_record(
                snapshot_id@,
                zone@,
                state.attempt_id@,
                state.created_at@,
            ),
            names_attempt(state.attempt_id@),
            state.attempt_id@.len() == 36,
    {
        let identity: Identity = Identity::draw();
        State::opened(snapshot_id, zone, identity)
    }

    /// The record of a session in which nothing has been made yet, under an identity.
    pub fn opened(snapshot_id: String, zone: String, identity: Identity) -> (state: State)
        ensures
            state@ == empty_record(
                snapshot_id@,
                zone@,
                identity.attempt_id@,
                identity.created_at@,
            ),
            state.attempt_id == identity.attempt_id,
            state.created_at == identity.created_at,
    {
        let state: State = State {
            version: STATE_VERSION,
            phase: ProvisioningPhase::Preflight,
            creation_mode: Some("snapshot_direct".to_owned()),
            attempt_id: identity.attempt_id,
            selected_gpu_type: String::new(),
            instance_id: None,
            volume_id: None,
            public_ip_id: None,
            public_ip_address: None,
            snapshot_id,
            zone,
            attempted_gpu_types: Vec::new(),
            created_at: identity.created_at,
        };
        proof {
            assert(text::texts(state.attempted_gpu_types@) =~= Seq::<Seq<char>>::empty());
            assert(state.selected_gpu_type@ =~= Seq::<char>::empty());
        }
        state
    }

    /// Notes that an attempt with a GPU type begins, under an identifier of its own.
    pub fn start_attempt(&mut self, gpu_type: &str)
        ensures
            final(self)@ == old(self)@.starting(gpu_type@, final(self).attempt_id@),
            names_attempt(final(self).attempt_id@),
            final(self).attempt_id@.len() == 36,
    {
        let identity: Identity = Identity::draw();
        self.begin_attempt(gpu_type, identity.attempt_id);
    }

    /// Notes that an attempt with a GPU type begins, under an identifier.
    pub fn begin_attempt(&mut self, gpu_type: &str, attempt_id: String)
        ensures
            final(self)@ == old(self)@.starting(gpu_type@, attempt_id@),
            final(self).attempt_id == attempt_id,
    {
        let ghost before = self.attempted_gpu_types@;
        self.selected_gpu_type = gpu_type.to_owned();
        self.attempted_gpu_types.push(gpu_type.to_owned());
        self.attempt_id = attempt_id;
        proof {
            assert(text::texts(self.attempted_gpu_types@) =~= text::texts(before).push(gpu_type@));
        }
    }
}

} // verus!
