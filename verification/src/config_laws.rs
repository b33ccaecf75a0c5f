//! What the rules of a configuration let through.

use vstd::prelude::*;
#[allow(unused_imports)]
use vstd::string::*;
#[allow(unused_imports)]
use vstd::utf8::*;

#[allow(unused_imports)]
use crate::config;
#[allow(unused_imports)]
use crate::config::{Config, InstanceConfig, TimeoutsConfig};
#[allow(unused_imports)]
use crate::outside;
#[allow(unused_imports)]
use crate::text;
#[allow(unused_imports)]
use crate::text_laws;

verus! {

/// The GPU types to try are those of the list, in its order, where there is a list; else the one
/// type that is named, as it stands; else, where that is white space alone, none.
pub proof fn lemma_gpu_types_to_try(instance: InstanceConfig)
    ensures
        instance.gpu_types matches Some(list) ==> {
            &&& instance.gpu_list().len() == list@.len()
            &&& forall|i: int| 0 <= i < list@.len() ==> #[trigger] instance.gpu_list()[i] == list@[i]@
        },
        instance.gpu_types is None && !text_laws::all_space(instance.instance_type@)
            ==> instance.gpu_list() == seq![instance.instance_type@],
        instance.gpu_types is None && text_laws::all_space(instance.instance_type@)
            ==> instance.gpu_list().len() == 0,
{
    lemma_blank(instance.instance_type@);
}

/// A text is blank exactly when it holds nothing but white space.
pub proof fn lemma_blank(text: Seq<char>)
    ensures
        text::blank(text) <==> text_laws::all_space(text),
{
    let parts = text_laws::lemma_trimmed_parts(text);
    let none = Seq::<char>::empty();
    if text_laws::all_space(text) {
        assert(text =~= text + none + none);
        text_laws::lemma_trimmed_is_what_stands_between(text, none, none);
    }
    if text::blank(text) {
        assert forall|i: int| 0 <= i < text.len() implies text::is_space(#[trigger] text[i]) by {
            if i < parts.0.len() {
                assert(text[i] == parts.0[i]);
            } else {
                assert(text[i] == parts.1[i - parts.0.len()]);
            }
        }
    }
}

/// A temperature is good exactly when its bits are those of zero, with either sign, or of a
/// positive number up to two: anything greater, anything negative and what is no number is refused.
pub proof fn lemma_temperatures(bits: u32)
    ensures
        config::temperature_in_range(0),
        config::temperature_in_range(0x8000_0000),
        config::temperature_in_range(0x3f80_0000),
        config::temperature_in_range(0x4000_0000),
        !config::temperature_in_range(0x4000_0001),
        0x4000_0000 < bits < 0x8000_0000 ==> !config::temperature_in_range(bits),
        bits > 0x8000_0000 ==> !config::temperature_in_range(bits),
        bits <= 0x4000_0000 ==> config::temperature_in_range(bits),
{
}

/// Every one of the seven times has to be positive, and the first that is not is named.
pub proof fn lemma_times_are_positive(times: TimeoutsConfig)
    ensures
        times.fault() is None <==> {
            &&& times.instance_creation_seconds > 0
            &&& times.instance_poll_interval_seconds > 0
            &&& times.nemotron_startup_seconds > 0
            &&& times.nemotron_poll_interval_seconds > 0
            &&& times.cleanup_timeout_seconds > 0
            &&& times.cleanup_poll_interval_seconds > 0
            &&& times.inference_timeout_seconds > 0
        },
        ({
            let a = times.instance_creation_seconds > 0;
            let b = a && times.instance_poll_interval_seconds > 0;
            let c = b && times.nemotron_startup_seconds > 0;
            let d = c && times.nemotron_poll_interval_seconds > 0;
            let e = d && times.cleanup_timeout_seconds > 0;
            let f = e && times.cleanup_poll_interval_seconds > 0;
            let g = f && times.inference_timeout_seconds > 0;
            &&& !a ==> times.fault() == Some("instance_creation_seconds must be positive"@)
            &&& a && !b ==> times.fault() == Some(
                "instance_poll_interval_seconds must be positive"@,
            )
            &&& b && !c ==> times.fault() == Some("nemotron_startup_seconds must be positive"@)
            &&& c && !d ==> times.fault() == Some(
                "nemotron_poll_interval_seconds must be positive"@,
            )
            &&& d && !e ==> times.fault() == Some("cleanup_timeout_seconds must be positive"@)
            &&& e && !f ==> times.fault() == Some(
                "cleanup_poll_interval_seconds must be positive"@,
            )
            &&& f && !g ==> times.fault() == Some("inference_timeout_seconds must be positive"@)
        }),
{
}

/// A zone is two bytes, three bytes and a number, with dashes between them.
pub proof fn lemma_zones(a: Seq<char>, b: Seq<char>, c: Seq<char>)
    requires
        text_laws::free_of(a, '-'),
        text_laws::free_of(b, '-'),
        text_laws::free_of(c, '-'),
    ensures
        config::zone_form(a + seq!['-'] + b + seq!['-'] + c) <==> {
            &&& encode_utf8(a).len() == 2
            &&& encode_utf8(b).len() == 3
            &&& text::unsigned_reading(c, u32::MAX as nat) is Some
        },
{
    lemma_split_free(a + seq!['-'] + b, c);
    lemma_split_free(a, b);
    lemma_whole(a);
    let parts = text::pieces(a + seq!['-'] + b + seq!['-'] + c, '-');
    assert(parts =~= seq![a, b, c]);
}

proof fn lemma_whole(text: Seq<char>)
    requires
        text_laws::free_of(text, '-'),
    ensures
        text::pieces(text, '-') == seq![text],
    decreases text.len(),
{
    if text.len() == 0 {
        assert(text =~= Seq::<char>::empty());
    } else {
        let less = text.drop_last();
        assert forall|i: int| 0 <= i < less.len() implies #[trigger] less[i] != '-' by {
            assert(less[i] == text[i]);
        }
        lemma_whole(less);
        assert(text[text.len() - 1] != '-');
        assert(seq![less].last() == less);
        assert(less.push(text.last()) =~= text);
        assert(seq![less].drop_last() =~= Seq::<Seq<char>>::empty());
        assert(text::pieces(text, '-') =~= seq![text]);
    }
}

proof fn lemma_split_free(front: Seq<char>, back: Seq<char>)
    requires
        text_laws::free_of(back, '-'),
    ensures
        text::pieces(front + seq!['-'] + back, '-') == text::pieces(front, '-').push(back),
    decreases back.len(),
{
    let whole = front + seq!['-'] + back;
    if back.len() == 0 {
        assert(whole.drop_last() =~= front);
        assert(whole.last() == '-');
        assert(back =~= Seq::<char>::empty());
    } else {
        let less = back.drop_last();
        assert forall|i: int| 0 <= i < less.len() implies #[trigger] less[i] != '-' by {
            assert(less[i] == back[i]);
        }
        lemma_split_free(front, less);
        assert(back[back.len() - 1] != '-');
        assert(whole.drop_last() =~= front + seq!['-'] + less);
        assert(whole.last() == back.last());
        let before = text::pieces(front, '-').push(less);
        assert(before.last() == less);
        assert(before.drop_last() =~= text::pieces(front, '-'));
        assert(less.push(back.last()) =~= back);
    }
}

/// A configuration is accepted exactly when it names the keys, the zone, the instance and the model,
/// lists at least one GPU type, none of them twice and none of them blank, refers to things by
/// identifiers, and holds numbers that make sense.
pub proof fn lemma_what_is_accepted(config: Config)
    ensures
        config.fault() is None <==> {
            let list = config.instance.gpu_list();
            &&& !text_laws::all_space(config.scaleway.access_key@)
            &&& !text_laws::all_space(config.scaleway.secret_key.hidden_text())
            &&& !text_laws::all_space(config.scaleway.zone@)
            &&& !text_laws::all_space(config.instance.name@)
            &&& !text_laws::all_space(config.nemotron.api_key.hidden_text())
            &&& !text_laws::all_space(config.nemotron.model@)
            &&& list.len() > 0
            &&& forall|i: int| 0 <= i < list.len() ==> !text_laws::all_space(#[trigger] list[i])
            &&& forall|i: int, j: int|
                0 <= i < j < list.len() ==> #[trigger] list[i] != #[trigger] list[j]
            &&& outside::uuid_reading(config.scaleway.project_id@) is Ok
            &&& outside::uuid_reading(config.scaleway.organization_id@) is Ok
            &&& outside::uuid_reading(config.instance.snapshot_id@) is Ok
            &&& config::zone_form(config.scaleway.zone@)
            &&& config.nemotron.port != 0
            &&& config.nemotron.max_tokens != 0
            &&& config::temperature_in_range(config.nemotron.temperature_bits)
            &&& config.timeouts.fault() is None
            &&& config.instance.public_ip@ == "new"@
        },
{
    config::lemma_rules(config);
    lemma_times_are_positive(config.timeouts);
    lemma_blank(config.scaleway.access_key@);
    lemma_blank(config.scaleway.secret_key.hidden_text());
    lemma_blank(config.scaleway.zone@);
    lemma_blank(config.instance.name@);
    lemma_blank(config.nemotron.api_key.hidden_text());
    lemma_blank(config.nemotron.model@);
    let list = config.instance.gpu_list();
    assert forall|i: int| 0 <= i < list.len() implies text::blank(#[trigger] list[i])
        == text_laws::all_space(list[i]) by {
        lemma_blank(list[i]);
    }
    if forall|i: int, j: int|
        0 <= i < j < list.len() ==> #[trigger] list[i] != #[trigger] list[j] {
        assert(list.no_duplicates());
    }
}

/// Of the rules that a configuration breaks the first is told, in this order: the keys, the zone,
/// the instance, its GPU types, the inference server, the identifiers, the form of the zone, the
/// numbers, the times, and the choice of address.
pub proof fn lemma_first_broken_rule(config: Config)
    ensures
        text_laws::all_space(config.scaleway.access_key@) ==> config.fault() == Some(
            "access_key cannot be empty"@,
        ),
        ({
            let keys = !text_laws::all_space(config.scaleway.access_key@);
            let secret = keys && !text_laws::all_space(config.scaleway.secret_key.hidden_text());
            let zone = secret && !text_laws::all_space(config.scaleway.zone@);
            let name = zone && !text_laws::all_space(config.instance.name@);
            let types = name && config.instance.gpu_list().len() > 0;
            let named = types && config::gpu_fault_from(config.instance.gpu_list(), 0) is None;
            let key = named && !text_laws::all_space(config.nemotron.api_key.hidden_text());
            let model = key && !text_laws::all_space(config.nemotron.model@);
            let project = model && outside::uuid_reading(config.scaleway.project_id@) is Ok;
            let organization = project && outside::uuid_reading(
                config.scaleway.organization_id@,
            ) is Ok;
            let snapshot = organization && outside::uuid_reading(
                config.instance.snapshot_id@,
            ) is Ok;
            let form = snapshot && config::zone_form(config.scaleway.zone@);
            let port = form && config.nemotron.port != 0;
            let tokens = port && config.nemotron.max_tokens != 0;
            let temperature = tokens && config::temperature_in_range(
                config.nemotron.temperature_bits,
            );
            let times = temperature && config.timeouts.fault() is None;
            &&& keys && !secret ==> config.fault() == Some("secret_key cannot be empty"@)
            &&& secret && !zone ==> config.fault() == Some("zone cannot be empty"@)
            &&& zone && !name ==> config.fault() == Some("instance name cannot be empty"@)
            &&& name && !types ==> config.fault() == Some(
                "No GPU types configured. Specify either instance_type or gpu_types."@,
            )
            &&& named && !key ==> config.fault() == Some("nemotron api_key cannot be empty"@)
            &&& key && !model ==> config.fault() == Some("nemotron model cannot be empty"@)
            &&& model && !project ==> config.fault() == Some("project_id must be a valid UUID"@)
            &&& project && !organization ==> config.fault() == Some(
                "organization_id must be a valid UUID"@,
            )
            &&& organization && !snapshot ==> config.fault() == Some(
                "snapshot_id must be a valid UUID"@,
            )
            &&& snapshot && !form ==> config.fault() == Some(
                "zone '"@ + config.scaleway.zone@
                    + "' does not follow expected format (e.g., fr-par-2)"@,
            )
            &&& form && !port ==> config.fault() == Some(
                "nemotron port must be between 1 and 65535"@,
            )
            &&& port && !tokens ==> config.fault() == Some("max_tokens must be positive"@)
            &&& tokens && !temperature ==> config.fault() == Some(
                "temperature must be between 0.0 and 2.0"@,
            )
            &&& temperature && !times ==> config.fault() == config.timeouts.fault()
            &&& times && config.instance.public_ip@ != "new"@ ==> config.fault() == Some(
                "unsupported public_ip value '"@ + config.instance.public_ip@
                    + "' (only 'new' is supported in this version)"@,
            )
        }),
{
    lemma_blank(config.scaleway.access_key@);
    lemma_blank(config.scaleway.secret_key.hidden_text());
    lemma_blank(config.scaleway.zone@);
    lemma_blank(config.instance.name@);
    lemma_blank(config.nemotron.api_key.hidden_text());
    lemma_blank(config.nemotron.model@);
}

/// The first name in the list that is blank, or that came before, is what is told of the list.
pub proof fn lemma_faults_of_a_list(list: Seq<Seq<char>>, at: int)
    requires
        0 <= at < list.len(),
        forall|i: int|
            0 <= i < at ==> !text_laws::all_space(#[trigger] list[i]) && !list.take(i).contains(
                list[i],
            ),
    ensures
        text_laws::all_space(list[at]) ==> config::gpu_fault_from(list, 0) == Some(
            "GPU type name cannot be empty"@,
        ),
        !text_laws::all_space(list[at]) && list.take(at).contains(list[at])
            ==> config::gpu_fault_from(list, 0) == Some(
            "Duplicate GPU type entry in config: "@ + list[at],
        ),
{
    lemma_blank(list[at]);
    lemma_faults_from(list, 0, at);
}

proof fn lemma_faults_from(list: Seq<Seq<char>>, from: int, at: int)
    requires
        0 <= from <= at < list.len(),
        forall|i: int|
            0 <= i < at ==> !text_laws::all_space(#[trigger] list[i]) && !list.take(i).contains(
                list[i],
            ),
    ensures
        config::gpu_fault_from(list, from) == config::gpu_fault_from(list, at),
    decreases at - from,
{
    if from < at {
        lemma_blank(list[from]);
        lemma_faults_from(list, from + 1, at);
    }
}

} // verus!
