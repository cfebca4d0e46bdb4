//! Properties of the hub registry.

use vstd::prelude::*;
use crate::message::domain::HubMessage;
use crate::network::domain::{HubView, Network, has_hub, outbound_route, outbound_topic, with_hub, without_hub};

verus! {

/// Adding the same hub twice leaves the registry as adding it once.
pub proof fn law_add_hub_idempotent(sets: Map<Seq<char>, Set<HubView>>, id: Seq<char>, h: HubView)
    ensures
        with_hub(with_hub(sets, id, h), id, h) == with_hub(sets, id, h),
{
    assert(with_hub(with_hub(sets, id, h), id, h) =~= with_hub(sets, id, h)) by {
        if sets.contains_key(id) {
            assert(sets[id].insert(h).insert(h) =~= sets[id].insert(h));
        } else {
            assert(Set::<HubView>::empty().insert(h).insert(h) =~= Set::<HubView>::empty().insert(h));
        }
    }
}

/// A hub that was just added is found by its id in its network.
pub proof fn law_added_hub_is_found(sets: Map<Seq<char>, Set<HubView>>, id: Seq<char>, h: HubView)
    ensures
        has_hub(with_hub(sets, id, h), id, h.0),
{
    assert(with_hub(sets, id, h)[id].contains(h));
}

/// After removing the hubs with an id from a network that has a hub record,
/// no hub with that id is found there.
pub proof fn law_removed_hub_not_found(sets: Map<Seq<char>, Set<HubView>>, id: Seq<char>, hub_id: Seq<char>)
    requires
        sets.contains_key(id),
    ensures
        !has_hub(without_hub(sets, id, hub_id), id, hub_id),
{
}

/// Removing the hubs with one id keeps the hubs with any other id.
pub proof fn law_remove_keeps_other_hubs(
    sets: Map<Seq<char>, Set<HubView>>,
    id: Seq<char>,
    hub_id: Seq<char>,
    other: Seq<char>,
)
    requires
        has_hub(sets, id, other),
        other != hub_id,
    ensures
        has_hub(without_hub(sets, id, hub_id), id, other),
{
    if sets.contains_key(id) {
        let h = choose|h: HubView| #[trigger] sets[id].contains(h) && h.0 == other;
        assert(without_hub(sets, id, hub_id)[id].contains(h));
    }
}

/// Hub operations on one network leave the hubs of every other network as they were.
pub proof fn law_hub_operations_are_local(
    sets: Map<Seq<char>, Set<HubView>>,
    id: Seq<char>,
    h: HubView,
    hub_id: Seq<char>,
    other_net: Seq<char>,
)
    requires
        other_net != id,
    ensures
        with_hub(sets, id, h).contains_key(other_net) == sets.contains_key(other_net),
        without_hub(sets, id, hub_id).contains_key(other_net) == sets.contains_key(other_net),
        sets.contains_key(other_net) ==> with_hub(sets, id, h)[other_net] == sets[other_net]
            && without_hub(sets, id, hub_id)[other_net] == sets[other_net],
{
}

/// A message for the hubs of a network names that network, and travels on
/// the network's topic for its kind: firmware orders on the new-firmware
/// topic, settings on the new-settings topic, their acknowledgement on the
/// settings-ok topic, hub removal and activation on their topics, and ping
/// answers on the ping-ack topic. No other message names a network.
pub proof fn law_outbound_topic_by_kind(n: Network, msg: HubMessage)
    ensures
        msg matches HubMessage::UpdateFirmware(u) ==> outbound_route(msg) == Some(u.network@) && outbound_topic(
            n,
            msg,
        ) == n.topic_new_firmware@,
        msg matches HubMessage::FromServerSettings(u) ==> outbound_route(msg) == Some(u.network@)
            && outbound_topic(n, msg) == n.topic_new_setting@,
        msg matches HubMessage::FromServerSettingsAck(u) ==> outbound_route(msg) == Some(u.network@)
            && outbound_topic(n, msg) == n.topic_setting_ok@,
        msg matches HubMessage::DeleteHub(u) ==> outbound_route(msg) == Some(u.network@) && outbound_topic(n, msg)
            == n.topic_delete_hub@,
        msg matches HubMessage::ActiveHub(u) ==> outbound_route(msg) == Some(u.network@) && outbound_topic(n, msg)
            == n.topic_active_hub@,
        msg matches HubMessage::PingToHub(u) ==> outbound_route(msg) == Some(u.network@) && outbound_topic(n, msg)
            == n.topic_ping_ack@,
        !(msg is UpdateFirmware || msg is FromServerSettings || msg is FromServerSettingsAck || msg is DeleteHub
            || msg is ActiveHub || msg is PingToHub) ==> outbound_route(msg) is None,
{
}

} // verus!
