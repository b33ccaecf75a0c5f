//! What a record holds when it is opened and when an attempt begins.

use vstd::prelude::*;
#[allow(unused_imports)]
use vstd::string::*;
#[allow(unused_imports)]
use vstd::utf8::*;

#[allow(unused_imports)]
use crate::state;
#[allow(unused_imports)]
use crate::state::{Identity, ProvisioningPhase, State, StateView};
#[allow(unused_imports)]
use crate::text;

verus! {

/// A new record holds no resource and no attempt, and names the snapshot, the zone and what
/// distinguishes it.
pub proof fn lemma_new_records(
    snapshot_id: Seq<char>,
    zone: Seq<char>,
    attempt_id: Seq<char>,
    created_at: Seq<char>,
)
    ensures
        ({
            let record = state::empty_record(snapshot_id, zone, attempt_id, created_at);
            &&& record.version == 4
            &&& record.phase is Preflight
            &&& record.creation_mode == Some("snapshot_direct"@)
            &&& record.attempt_id == attempt_id
            &&& record.selected_gpu_type == Seq::<char>::empty()
            &&& record.instance_id is None
            &&& record.volume_id is None
            &&& record.public_ip_id is None
            &&& record.public_ip_address is None
            &&& record.snapshot_id == snapshot_id
            &&& record.zone == zone
            &&& record.attempted_gpu_types.len() == 0
            &&& record.created_at == created_at
            &&& record.tracks_nothing()
        }),
{
}

/// An attempt that begins is noted under its identifier, with its GPU type behind those that were
/// tried before; nothing else of the record changes.
pub proof fn lemma_attempts_are_noted(before: StateView, gpu_type: Seq<char>, attempt_id: Seq<char>)
    ensures
        ({
            let now = before.starting(gpu_type, attempt_id);
            &&& now.selected_gpu_type == gpu_type
            &&& now.attempt_id == attempt_id
            &&& now.attempted_gpu_types.len() == before.attempted_gpu_types.len() + 1
            &&& now.attempted_gpu_types.last() == gpu_type
            &&& now.attempted_gpu_types.drop_last() == before.attempted_gpu_types
            &&& now.version == before.version
            &&& now.phase == before.phase
            &&& now.creation_mode == before.creation_mode
            &&& now.instance_id == before.instance_id
            &&& now.volume_id == before.volume_id
            &&& now.public_ip_id == before.public_ip_id
            &&& now.public_ip_address == before.public_ip_address
            &&& now.snapshot_id == before.snapshot_id
            &&& now.zone == before.zone
            &&& now.created_at == before.created_at
        }),
{
    assert(before.starting(gpu_type, attempt_id).attempted_gpu_types.drop_last()
        =~= before.attempted_gpu_types);
}

/// A record holds something exactly when there is an identifier that it holds.
pub proof fn lemma_what_a_record_tracks(record: StateView, id: Seq<char>)
    ensures
        record.tracks_nothing() <==> !exists|any: Seq<char>| #[trigger] record.tracks(any),
        record.instance_id == Some(id) ==> record.tracks(id),
        record.volume_id == Some(id) ==> record.tracks(id),
        record.public_ip_id == Some(id) ==> record.tracks(id),
        record.tracks(id) ==> record.instance_id == Some(id) || record.volume_id == Some(id)
            || record.public_ip_id == Some(id),
{
    if record.instance_id is Some {
        assert(record.tracks(record.instance_id->0));
    }
    if record.volume_id is Some {
        assert(record.tracks(record.volume_id->0));
    }
    if record.public_ip_id is Some {
        assert(record.tracks(record.public_ip_id->0));
    }
}

/// What a record holds as a value is what it holds.
pub proof fn lemma_records_as_values(record: State)
    ensures
        record@.version == record.version,
        record@.phase == record.phase,
        record@.attempt_id == record.attempt_id@,
        record@.selected_gpu_type == record.selected_gpu_type@,
        record.creation_mode matches Some(mode) ==> record@.creation_mode == Some(mode@),
        record.instance_id matches Some(id) ==> record@.instance_id == Some(id@),
        record.volume_id matches Some(id) ==> record@.volume_id == Some(id@),
        record.public_ip_id matches Some(id) ==> record@.public_ip_id == Some(id@),
        record.public_ip_address matches Some(ip) ==> record@.public_ip_address == Some(ip@),
        record.instance_id is None ==> record@.instance_id is None,
        record.volume_id is None ==> record@.volume_id is None,
        record.public_ip_id is None ==> record@.public_ip_id is None,
        record.public_ip_address is None ==> record@.public_ip_address is None,
        record@.snapshot_id == record.snapshot_id@,
        record@.zone == record.zone@,
        record@.created_at == record.created_at@,
        record@.attempted_gpu_types.len() == record.attempted_gpu_types@.len(),
        forall|i: int|
            0 <= i < record.attempted_gpu_types@.len() ==> #[trigger] record@.attempted_gpu_types[i]
                == record.attempted_gpu_types@[i]@,
{
}

/// The text that the first eight bytes of an identifier of ASCII signs make is its first eight
/// characters.
pub proof fn lemma_names_of_attempts(id: Seq<char>)
    requires
        is_ascii_chars(id),
        id.len() >= 8,
    ensures
        text::front_bytes(id, 8) == id.take(8),
{
    let front = id.take(8);
    encode_utf8_valid_utf8(front);
    is_ascii_chars_encode_utf8(id);
    assert(is_ascii_chars(front)) by {
        assert forall|i: int| 0 <= i < front.len() implies '\0' <= #[trigger] front[i]
            <= '\u{7f}' by {
            assert(front[i] == id[i]);
        }
    }
    is_ascii_chars_encode_utf8(front);
    assert(encode_utf8(id).take(8) =~= encode_utf8(front));
    encode_utf8_decode_utf8(front);
}

} // verus!
