//! What comes of a whole inventory sync.

use vstd::prelude::*;

use crate::actions::{ActionView, PublicationView, ReplyView};
use crate::bridge;
use crate::bridge::{BridgeView, DeviceView};
use crate::devices::DeviceKind;
use crate::inventory;
use crate::inventory::{SyncStageView, SyncView};
use crate::laws::bridging;
use crate::laws::naming;
use crate::yolink::types::DeviceInfo;

verus! {

/// The IDs of the bridged devices of a list.
pub open spec fn listed(devices: Seq<DeviceInfo>) -> Set<Seq<char>>
    decreases devices.len(),
{
    if devices.len() == 0 {
        Set::empty()
    } else if DeviceKind::bridged_type(devices.last().device_type@) is Some {
        listed(devices.drop_last()).insert(devices.last().device_id@)
    } else {
        listed(devices.drop_last())
    }
}

/// A sync of a bridge with a list, after a number of replies.
pub open spec fn after(bridge: BridgeView, fresh: Seq<DeviceInfo>, replies: Seq<ReplyView>) -> SyncView
    decreases replies.len(),
{
    if replies.len() == 0 {
        SyncView::start(bridge, fresh).visit().0
    } else {
        after(bridge, fresh, replies.drop_last()).step(replies.last()).0
    }
}

/// The IDs of the devices whose removal failed during a sync.
pub open spec fn kept(bridge: BridgeView, fresh: Seq<DeviceInfo>, replies: Seq<ReplyView>) -> Set<
    Seq<char>,
>
    decreases replies.len(),
{
    if replies.len() == 0 {
        Set::empty()
    } else {
        let earlier = kept(bridge, fresh, replies.drop_last());
        let s = after(bridge, fresh, replies.drop_last());
        match s.stage {
            SyncStageView::Unregistering(i) => if replies.last() is Failed {
                earlier.insert(s.bridge.devices[i].info.device_id@)
            } else {
                earlier
            },
            _ => earlier,
        }
    }
}

/// Whether every registration of a new device, and every removal, worked.
pub open spec fn smooth(bridge: BridgeView, fresh: Seq<DeviceInfo>, replies: Seq<ReplyView>) -> bool
    decreases replies.len(),
{
    replies.len() > 0 ==> {
        let s = after(bridge, fresh, replies.drop_last());
        &&& smooth(bridge, fresh, replies.drop_last())
        &&& replies.last() is Failed ==> !(s.stage is Registering) && !(s.stage is Unregistering)
    }
}

/// Whether a sync is past the end of the list.
spec fn is_sweeping(stage: SyncStageView) -> bool {
    stage is Unregistering || stage is Finished
}

/// What holds at every point of a sync, given the IDs whose removal failed so
/// far and whether everything else that matters worked.
spec fn tracks(s: SyncView, kept: Set<Seq<char>>, smooth: bool) -> bool {
    let visited = if is_sweeping(s.stage) {
        s.next
    } else {
        s.next + 1
    };
    let first = if s.stage is Unregistering {
        s.gone + 1
    } else {
        s.gone
    };
    &&& s.wf()
    &&& s.seen == listed(s.fresh.take(visited))
    &&& smooth ==> listed(s.fresh.take(s.next)).subset_of(s.bridge.index.dom())
    &&& is_sweeping(s.stage) ==> {
        &&& s.next == s.fresh.len()
        &&& forall|k: int|
            0 <= k < s.unlisted.len() ==> !s.seen.contains(
                s.bridge.devices[#[trigger] s.unlisted[k]].info.device_id@,
            )
        &&& forall|id: Seq<char>| #[trigger]
            s.bridge.index.contains_key(id) ==> s.seen.contains(id) || kept.contains(id)
                || is_pending(s, id, first)
    }
    &&& s.stage is Finished ==> s.gone == s.unlisted.len()
}

/// Whether a device of that ID is still to be removed.
spec fn is_pending(s: SyncView, id: Seq<char>, first: int) -> bool {
    exists|k: int|
        first <= k < s.unlisted.len() && s.bridge.devices[#[trigger] s.unlisted[k]].info.device_id@
            == id
}

/// Whatever is found and not listed is among the unlisted, and nothing else is.
proof fn unlisted_positions_are_exact(bridge: BridgeView, seen: Set<Seq<char>>, count: int)
    requires
        0 <= count <= bridge.devices.len(),
    ensures
        ({
            let unlisted = inventory::unlisted_positions(bridge, seen, count);
            &&& unlisted.len() <= count
            &&& forall|k: int|
                0 <= k < unlisted.len() ==> 0 <= #[trigger] unlisted[k] < count && !seen.contains(
                    bridge.devices[unlisted[k]].info.device_id@,
                )
            &&& forall|i: int|
                #![trigger bridge.devices[i]]
                0 <= i < count && bridge.index.contains_key(bridge.devices[i].info.device_id@)
                    && bridge.index[bridge.devices[i].info.device_id@] == i && !seen.contains(
                    bridge.devices[i].info.device_id@,
                ) ==> unlisted.contains(i)
        }),
    decreases count,
{
    if count > 0 {
        unlisted_positions_are_exact(bridge, seen, count - 1);
        let before = inventory::unlisted_positions(bridge, seen, count - 1);
        let all = inventory::unlisted_positions(bridge, seen, count);
        assert forall|k: int| 0 <= k < all.len() implies 0 <= #[trigger] all[k] < count
            && !seen.contains(bridge.devices[all[k]].info.device_id@) by {
            if k < before.len() {
                assert(all[k] == before[k]);
            }
        }
        assert forall|i: int|
            #![trigger bridge.devices[i]]
            0 <= i < count && bridge.index.contains_key(bridge.devices[i].info.device_id@)
                && bridge.index[bridge.devices[i].info.device_id@] == i && !seen.contains(
                bridge.devices[i].info.device_id@,
            ) implies all.contains(i) by {
            if i < count - 1 {
                let k = before.index_of(i);
                assert(before.contains(i));
                assert(all[k] == i);
            } else {
                assert(all[all.len() - 1] == i);
            }
        }
    }
}

/// A sweep keeps track.
proof fn sweep_tracks(s: SyncView, kept: Set<Seq<char>>, smooth: bool)
    requires
        s.bridge.wf(),
        s.next == s.fresh.len(),
        0 <= s.gone <= s.unlisted.len(),
        forall|k: int|
            0 <= k < s.unlisted.len() ==> 0 <= #[trigger] s.unlisted[k] < s.bridge.devices.len()
                && !s.seen.contains(s.bridge.devices[s.unlisted[k]].info.device_id@),
        s.seen == listed(s.fresh.take(s.next)),
        smooth ==> s.seen.subset_of(s.bridge.index.dom()),
        forall|id: Seq<char>| #[trigger]
            s.bridge.index.contains_key(id) ==> s.seen.contains(id) || kept.contains(id)
                || is_pending(s, id, s.gone),
    ensures
        tracks(s.sweep().0, kept, smooth),
        is_sweeping(s.sweep().0.stage),
        s.sweep().0.fresh == s.fresh,
    decreases s.unlisted.len() - s.gone,
{
    inventory::sweep_keeps_wf(s);
    if s.gone < s.unlisted.len() {
        let i = s.unlisted[s.gone];
        let gone_id = s.bridge.devices[i].info.device_id@;
        let delisted = SyncView { bridge: s.bridge.delisted(i), ..s };
        assert forall|id: Seq<char>| #[trigger]
            delisted.bridge.index.contains_key(id) implies s.seen.contains(id) || kept.contains(id)
            || is_pending(delisted, id, s.gone + 1) by {
            assert(s.bridge.index.contains_key(id));
            if !s.seen.contains(id) && !kept.contains(id) {
                let k = choose|k: int|
                    s.gone <= k < s.unlisted.len()
                        && s.bridge.devices[#[trigger] s.unlisted[k]].info.device_id@ == id;
                assert(id != gone_id);
                assert(delisted.bridge.devices[delisted.unlisted[k]].info.device_id@ == id);
            }
        }
        if s.bridge.devices[i].retired {
            let next = SyncView { gone: s.gone + 1, ..delisted };
            assert forall|id: Seq<char>| #[trigger]
                next.bridge.index.contains_key(id) implies s.seen.contains(id) || kept.contains(id)
                || is_pending(next, id, next.gone) by {
                assert(delisted.bridge.index.contains_key(id));
                if is_pending(delisted, id, s.gone + 1) {
                    let k = choose|k: int|
                        s.gone + 1 <= k < delisted.unlisted.len()
                            && delisted.bridge.devices[#[trigger] delisted.unlisted[k]].info.device_id@
                            == id;
                    assert(next.bridge.devices[next.unlisted[k]].info.device_id@ == id);
                }
            }
            sweep_tracks(next, kept, smooth);
        } else {
            let end = s.sweep().0;
            assert forall|id: Seq<char>| #[trigger]
                end.bridge.index.contains_key(id) implies end.seen.contains(id) || kept.contains(id)
                || is_pending(end, id, end.gone + 1) by {
                assert(delisted.bridge.index.contains_key(id));
                if is_pending(delisted, id, s.gone + 1) {
                    let k = choose|k: int|
                        s.gone + 1 <= k < delisted.unlisted.len()
                            && delisted.bridge.devices[#[trigger] delisted.unlisted[k]].info.device_id@
                            == id;
                    assert(end.bridge.devices[end.unlisted[k]].info.device_id@ == id);
                }
            }
        }
    } else {
        let end = s.sweep().0;
        assert forall|id: Seq<char>| #[trigger]
            end.bridge.index.contains_key(id) implies end.seen.contains(id) || kept.contains(id)
            || is_pending(end, id, end.gone) by {
            assert(s.bridge.index.contains_key(id));
            if is_pending(s, id, s.gone) {
                let k = choose|k: int|
                    s.gone <= k < s.unlisted.len()
                        && s.bridge.devices[#[trigger] s.unlisted[k]].info.device_id@ == id;
                assert(end.bridge.devices[end.unlisted[k]].info.device_id@ == id);
            }
        }
    }
}

/// Going through the list keeps track.
proof fn visit_tracks(s: SyncView, kept: Set<Seq<char>>, smooth: bool)
    requires
        s.bridge.wf(),
        0 <= s.next <= s.fresh.len(),
        0 <= s.gone <= s.unlisted.len(),
        forall|k: int|
            0 <= k < s.unlisted.len() ==> 0 <= #[trigger] s.unlisted[k] < s.bridge.devices.len(),
        s.seen == listed(s.fresh.take(s.next)),
        smooth ==> listed(s.fresh.take(s.next)).subset_of(s.bridge.index.dom()),
    ensures
        tracks(s.visit().0, kept, smooth),
        s.visit().0.fresh == s.fresh,
    decreases s.fresh.len() - s.next,
{
    inventory::visit_keeps_wf(s);
    if s.next >= s.fresh.len() {
        let count = s.bridge.devices.len() as int;
        let unlisted = inventory::unlisted_positions(s.bridge, s.seen, count);
        let sweeping = SyncView { unlisted, gone: 0, ..s };
        unlisted_positions_are_exact(s.bridge, s.seen, count);
        assert forall|id: Seq<char>| #[trigger]
            sweeping.bridge.index.contains_key(id) implies s.seen.contains(id) || kept.contains(id)
            || is_pending(sweeping, id, 0) by {
            if !s.seen.contains(id) {
                let i = s.bridge.index[id];
                assert(s.bridge.devices[i].info.device_id@ == id);
                assert(unlisted.contains(i));
                let k = unlisted.index_of(i);
                assert(sweeping.bridge.devices[sweeping.unlisted[k]].info.device_id@ == id);
            }
        }
        sweep_tracks(sweeping, kept, smooth);
    } else {
        assert(s.fresh.take(s.next + 1).drop_last() =~= s.fresh.take(s.next));
        assert(s.fresh.take(s.next + 1).last() == s.current());
        match s.current_kind() {
            None => {
                visit_tracks(s.past_current(), kept, smooth);
            },
            Some(kind) => {
                let info = s.current();
                let id = info.device_id@;
                let noted = SyncView { seen: s.seen.insert(id), ..s };
                if s.bridge.index.contains_key(id) {
                    let i = s.bridge.index[id];
                    if !inventory::needs_reregister(s.bridge.devices[i], info, kind) {
                        visit_tracks(noted.with_current_refreshed(i), kept, smooth);
                    }
                }
            },
        }
    }
}

/// Every reply keeps track.
proof fn step_tracks(s: SyncView, reply: ReplyView, kept: Set<Seq<char>>, smooth: bool)
    requires
        tracks(s, kept, smooth),
    ensures
        ({
            let still_smooth = smooth && !(reply is Failed && (s.stage is Registering
                || s.stage is Unregistering));
            let now_kept = match s.stage {
                SyncStageView::Unregistering(i) => if reply is Failed {
                    kept.insert(s.bridge.devices[i].info.device_id@)
                } else {
                    kept
                },
                _ => kept,
            };
            tracks(s.step(reply).0, now_kept, still_smooth)
        }),
        s.step(reply).0.fresh == s.fresh,
{
    inventory::step_keeps_wf(s, reply);
    if !is_sweeping(s.stage) {
        assert(s.fresh.take(s.next + 1).drop_last() =~= s.fresh.take(s.next));
        assert(s.fresh.take(s.next + 1).last() == s.current());
    }
    match s.stage {
        SyncStageView::Reregistering(i) => {
            visit_tracks(s.past_current(), kept, smooth);
            visit_tracks(s.with_current_refreshed(i), kept, smooth);
        },
        SyncStageView::Registering => {
            visit_tracks(s.past_current(), kept, false);
        },
        SyncStageView::Announcing(_) => {
            visit_tracks(s.with_current_added(), kept, smooth);
        },
        SyncStageView::Showing => {
            visit_tracks(s.with_current_added(), kept, smooth);
        },
        SyncStageView::Unregistering(i) => {
            let id = s.bridge.devices[i].info.device_id@;
            if reply is Failed {
                let back = SyncView { bridge: s.bridge.relisted(i), gone: s.gone + 1, ..s };
                let now_kept = kept.insert(id);
                assert forall|other: Seq<char>| #[trigger]
                    back.bridge.index.contains_key(other) implies back.seen.contains(other)
                    || now_kept.contains(other) || is_pending(back, other, back.gone) by {
                    if other != id {
                        assert(s.bridge.index.contains_key(other));
                        if is_pending(s, other, s.gone + 1) {
                            let k = choose|k: int|
                                s.gone + 1 <= k < s.unlisted.len()
                                    && s.bridge.devices[#[trigger] s.unlisted[k]].info.device_id@
                                    == other;
                            assert(back.bridge.devices[back.unlisted[k]].info.device_id@ == other);
                        }
                    }
                }
                sweep_tracks(back, now_kept, false);
            } else {
                let off = SyncView { bridge: s.bridge.with_retired(i), gone: s.gone + 1, ..s };
                assert forall|k: int| 0 <= k < off.unlisted.len() implies 0
                    <= #[trigger] off.unlisted[k] < off.bridge.devices.len() && !off.seen.contains(
                    off.bridge.devices[off.unlisted[k]].info.device_id@,
                ) by {
                    assert(!s.seen.contains(s.bridge.devices[s.unlisted[k]].info.device_id@));
                }
                assert forall|other: Seq<char>| #[trigger]
                    off.bridge.index.contains_key(other) implies off.seen.contains(other)
                    || kept.contains(other) || is_pending(off, other, off.gone) by {
                    assert(s.bridge.index.contains_key(other));
                    if is_pending(s, other, s.gone + 1) {
                        let k = choose|k: int|
                            s.gone + 1 <= k < s.unlisted.len()
                                && s.bridge.devices[#[trigger] s.unlisted[k]].info.device_id@
                                == other;
                        assert(off.bridge.devices[off.unlisted[k]].info.device_id@ == other);
                    }
                }
                sweep_tracks(off, kept, smooth);
            }
        },
        _ => {},
    }
}

/// Every point that a sync reaches is tracked.
proof fn reached_tracks(bridge: BridgeView, fresh: Seq<DeviceInfo>, replies: Seq<ReplyView>)
    requires
        bridge.wf(),
    ensures
        tracks(
            after(bridge, fresh, replies),
            kept(bridge, fresh, replies),
            smooth(bridge, fresh, replies),
        ),
        after(bridge, fresh, replies).fresh == fresh,
    decreases replies.len(),
{
    if replies.len() == 0 {
        let s = SyncView::start(bridge, fresh);
        assert(fresh.take(0) =~= Seq::empty());
        visit_tracks(s, Set::empty(), true);
    } else {
        reached_tracks(bridge, fresh, replies.drop_last());
        step_tracks(
            after(bridge, fresh, replies.drop_last()),
            replies.last(),
            kept(bridge, fresh, replies.drop_last()),
            smooth(bridge, fresh, replies.drop_last()),
        );
    }
}

/// A sync keeps the bridge sound at every point, whatever is replied.
pub proof fn syncs_keep_the_bridge_sound(
    bridge: BridgeView,
    fresh: Seq<DeviceInfo>,
    replies: Seq<ReplyView>,
)
    requires
        bridge.wf(),
    ensures
        after(bridge, fresh, replies).wf(),
        after(bridge, fresh, replies).bridge.wf(),
{
    reached_tracks(bridge, fresh, replies);
}

/// When a sync is over, whatever can be found is on the list, unless its
/// removal failed.
pub proof fn finished_syncs_know_what_is_listed(
    bridge: BridgeView,
    fresh: Seq<DeviceInfo>,
    replies: Seq<ReplyView>,
    id: Seq<char>,
)
    requires
        bridge.wf(),
        after(bridge, fresh, replies).stage is Finished,
        after(bridge, fresh, replies).bridge.index.contains_key(id),
    ensures
        listed(fresh).contains(id) || kept(bridge, fresh, replies).contains(id),
{
    reached_tracks(bridge, fresh, replies);
    assert(fresh.take(fresh.len() as int) =~= fresh);
}

/// When a sync is over in which every new device could be registered and every
/// missing one removed, exactly the listed devices can be found.
pub proof fn smooth_syncs_know_exactly_what_is_listed(
    bridge: BridgeView,
    fresh: Seq<DeviceInfo>,
    replies: Seq<ReplyView>,
)
    requires
        bridge.wf(),
        after(bridge, fresh, replies).stage is Finished,
        smooth(bridge, fresh, replies),
    ensures
        after(bridge, fresh, replies).bridge.index.dom() == listed(fresh),
{
    reached_tracks(bridge, fresh, replies);
    nothing_is_kept_smoothly(bridge, fresh, replies);
    assert(fresh.take(fresh.len() as int) =~= fresh);
    let index = after(bridge, fresh, replies).bridge.index;
    assert forall|id: Seq<char>| index.dom().contains(id) implies listed(fresh).contains(id) by {
        finished_syncs_know_what_is_listed(bridge, fresh, replies, id);
    }
    assert(index.dom() =~= listed(fresh));
}

/// No removal fails in a sync in which every removal works.
proof fn nothing_is_kept_smoothly(
    bridge: BridgeView,
    fresh: Seq<DeviceInfo>,
    replies: Seq<ReplyView>,
)
    requires
        smooth(bridge, fresh, replies),
    ensures
        kept(bridge, fresh, replies) == Set::<Seq<char>>::empty(),
    decreases replies.len(),
{
    if replies.len() > 0 {
        nothing_is_kept_smoothly(bridge, fresh, replies.drop_last());
    }
}

/// A device that is on the list is never unregistered: whatever is to be
/// unregistered goes by the HomeCore ID of a device that the list does not name.
pub proof fn listed_devices_are_not_unregistered(
    bridge: BridgeView,
    fresh: Seq<DeviceInfo>,
    replies: Seq<ReplyView>,
    reply: ReplyView,
    id: Seq<char>,
)
    requires
        bridge.wf(),
        listed(fresh).contains(id),
    ensures
        after(bridge, fresh, replies).step(reply).1 != (ActionView::Unregister {
            hc_id: bridge::homecore_id(id),
        }),
        SyncView::start(bridge, fresh).visit().1 != (ActionView::Unregister {
            hc_id: bridge::homecore_id(id),
        }),
{
    let s = after(bridge, fresh, replies);
    reached_tracks(bridge, fresh, replies);
    step_unregisters(s, reply);
    let more = replies.push(reply);
    assert(more.drop_last() =~= replies);
    reached_tracks(bridge, fresh, more);
    reached_tracks(bridge, fresh, Seq::empty());
    visit_unregisters(SyncView::start(bridge, fresh));
    assert(fresh.take(fresh.len() as int) =~= fresh);
    let next = s.step(reply).0;
    if let SyncStageView::Unregistering(i) = next.stage {
        let other = next.bridge.devices[next.unlisted[next.gone]].info.device_id@;
        if other != id {
            crate::laws::routing::homecore_ids_differ(other, id);
        }
    }
    let first = SyncView::start(bridge, fresh).visit().0;
    if let SyncStageView::Unregistering(i) = first.stage {
        let other = first.bridge.devices[first.unlisted[first.gone]].info.device_id@;
        if other != id {
            crate::laws::routing::homecore_ids_differ(other, id);
        }
    }
}

/// A sweep that unregisters waits for the removal of the device it names.
proof fn sweep_unregisters(s: SyncView)
    ensures
        s.sweep().1 is Unregister ==> s.sweep().0.stage is Unregistering && s.sweep().1
            == (ActionView::Unregister {
            hc_id: s.sweep().0.bridge.devices[s.sweep().0.stage->Unregistering_0].hc_id,
        }),
    decreases s.unlisted.len() - s.gone,
{
    if s.gone < s.unlisted.len() {
        let i = s.unlisted[s.gone];
        if s.bridge.devices[i].retired {
            sweep_unregisters(SyncView { bridge: s.bridge.delisted(i), gone: s.gone + 1, ..s });
        }
    }
}

/// Likewise for the way through the list.
proof fn visit_unregisters(s: SyncView)
    ensures
        s.visit().1 is Unregister ==> s.visit().0.stage is Unregistering && s.visit().1
            == (ActionView::Unregister {
            hc_id: s.visit().0.bridge.devices[s.visit().0.stage->Unregistering_0].hc_id,
        }),
    decreases s.fresh.len() - s.next,
{
    if s.next >= s.fresh.len() {
        let count = s.bridge.devices.len() as int;
        let unlisted = inventory::unlisted_positions(s.bridge, s.seen, count);
        sweep_unregisters(SyncView { unlisted, gone: 0, ..s });
    } else {
        match s.current_kind() {
            None => {
                visit_unregisters(s.past_current());
            },
            Some(kind) => {
                let id = s.current().device_id@;
                let noted = SyncView { seen: s.seen.insert(id), ..s };
                if s.bridge.index.contains_key(id) {
                    visit_unregisters(noted.with_current_refreshed(s.bridge.index[id]));
                }
            },
        }
    }
}

/// Likewise for every reply.
proof fn step_unregisters(s: SyncView, reply: ReplyView)
    ensures
        s.step(reply).1 is Unregister ==> s.step(reply).0.stage is Unregistering && s.step(reply).1
            == (ActionView::Unregister {
            hc_id: s.step(reply).0.bridge.devices[s.step(reply).0.stage->Unregistering_0].hc_id,
        }),
{
    visit_unregisters(s.past_current());
    visit_unregisters(s.with_current_added());
    match s.stage {
        SyncStageView::Reregistering(i) => {
            visit_unregisters(s.with_current_refreshed(i));
        },
        SyncStageView::Unregistering(i) => {
            sweep_unregisters(SyncView { bridge: s.bridge.relisted(i), gone: s.gone + 1, ..s });
            sweep_unregisters(SyncView { bridge: s.bridge.with_retired(i), gone: s.gone + 1, ..s });
        },
        _ => {},
    }
}

/// Whether every device of one bridge is where it was in another, under the
/// same IDs.
pub open spec fn keeps_devices(before: BridgeView, now: BridgeView) -> bool {
    &&& before.devices.len() <= now.devices.len()
    &&& forall|i: int|
        0 <= i < before.devices.len() ==> (#[trigger] now.devices[i]).info.device_id@
            == before.devices[i].info.device_id@ && now.devices[i].hc_id
            == before.devices[i].hc_id
    &&& now.temp_unit == before.temp_unit
    &&& now.poll_interval_secs == before.poll_interval_secs
    &&& now.poll_device_delay_ms == before.poll_device_delay_ms
}

/// A sweep loses no device.
proof fn sweep_keeps_devices(s: SyncView)
    ensures
        keeps_devices(s.bridge, s.sweep().0.bridge),
    decreases s.unlisted.len() - s.gone,
{
    if s.gone < s.unlisted.len() {
        let i = s.unlisted[s.gone];
        if s.bridge.devices[i].retired {
            sweep_keeps_devices(SyncView { bridge: s.bridge.delisted(i), gone: s.gone + 1, ..s });
        }
    }
}

/// The way through the list loses no device.
proof fn visit_keeps_devices(s: SyncView)
    requires
        s.bridge.wf(),
        0 <= s.next <= s.fresh.len(),
    ensures
        keeps_devices(s.bridge, s.visit().0.bridge),
    decreases s.fresh.len() - s.next,
{
    if s.next >= s.fresh.len() {
        let count = s.bridge.devices.len() as int;
        let unlisted = inventory::unlisted_positions(s.bridge, s.seen, count);
        sweep_keeps_devices(SyncView { unlisted, gone: 0, ..s });
    } else {
        match s.current_kind() {
            None => {
                visit_keeps_devices(s.past_current());
            },
            Some(kind) => {
                let id = s.current().device_id@;
                let noted = SyncView { seen: s.seen.insert(id), ..s };
                if s.bridge.index.contains_key(id) {
                    let i = s.bridge.index[id];
                    if !inventory::needs_reregister(s.bridge.devices[i], s.current(), kind) {
                        visit_keeps_devices(noted.with_current_refreshed(i));
                    }
                }
            },
        }
    }
}

/// A sync never loses or renumbers a device: each stays where it was, under the
/// same YoLink and HomeCore IDs, and the bridge's settings stay as they were.
pub proof fn syncs_keep_every_device(
    bridge: BridgeView,
    fresh: Seq<DeviceInfo>,
    replies: Seq<ReplyView>,
)
    requires
        bridge.wf(),
    ensures
        keeps_devices(bridge, after(bridge, fresh, replies).bridge),
    decreases replies.len(),
{
    if replies.len() == 0 {
        visit_keeps_devices(SyncView::start(bridge, fresh));
    } else {
        syncs_keep_every_device(bridge, fresh, replies.drop_last());
        reached_tracks(bridge, fresh, replies.drop_last());
        let s = after(bridge, fresh, replies.drop_last());
        match s.stage {
            SyncStageView::Reregistering(i) => {
                visit_keeps_devices(s.past_current());
                visit_keeps_devices(s.with_current_refreshed(i));
            },
            SyncStageView::Registering => {
                visit_keeps_devices(s.past_current());
            },
            SyncStageView::Announcing(_) => {
                visit_keeps_devices(s.with_current_added());
            },
            SyncStageView::Showing => {
                visit_keeps_devices(s.with_current_added());
            },
            SyncStageView::Unregistering(i) => {
                sweep_keeps_devices(
                    SyncView { bridge: s.bridge.relisted(i), gone: s.gone + 1, ..s },
                );
                sweep_keeps_devices(
                    SyncView { bridge: s.bridge.with_retired(i), gone: s.gone + 1, ..s },
                );
            },
            _ => {},
        }
    }
}

/// How many more replies a sync takes at the most.
pub open spec fn steps_left(s: SyncView) -> int {
    let ahead = 6 * (s.fresh.len() - s.next) + s.bridge.devices.len() + 1;
    match s.stage {
        SyncStageView::Reregistering(_) => ahead,
        SyncStageView::Registering => ahead,
        SyncStageView::Subscribing => ahead - 1,
        SyncStageView::Fetching => ahead - 2,
        SyncStageView::Announcing(_) => ahead - 3,
        SyncStageView::Showing => ahead - 4,
        SyncStageView::Unregistering(_) => s.unlisted.len() - s.gone,
        SyncStageView::Finished => 0,
    }
}

/// A sweep takes no more replies than there are devices to be removed.
proof fn sweep_steps(s: SyncView)
    requires
        0 <= s.gone <= s.unlisted.len(),
    ensures
        0 <= steps_left(s.sweep().0) <= s.unlisted.len() - s.gone,
    decreases s.unlisted.len() - s.gone,
{
    if s.gone < s.unlisted.len() {
        let i = s.unlisted[s.gone];
        if s.bridge.devices[i].retired {
            sweep_steps(SyncView { bridge: s.bridge.delisted(i), gone: s.gone + 1, ..s });
        }
    }
}

/// The way through the rest of the list takes a bounded number of replies.
proof fn visit_steps(s: SyncView)
    requires
        s.bridge.wf(),
        0 <= s.next <= s.fresh.len(),
    ensures
        0 <= steps_left(s.visit().0) <= 6 * (s.fresh.len() - s.next) + s.bridge.devices.len() + 1,
    decreases s.fresh.len() - s.next,
{
    if s.next >= s.fresh.len() {
        let count = s.bridge.devices.len() as int;
        let unlisted = inventory::unlisted_positions(s.bridge, s.seen, count);
        unlisted_positions_are_exact(s.bridge, s.seen, count);
        sweep_steps(SyncView { unlisted, gone: 0, ..s });
    } else {
        match s.current_kind() {
            None => {
                visit_steps(s.past_current());
            },
            Some(kind) => {
                let id = s.current().device_id@;
                let noted = SyncView { seen: s.seen.insert(id), ..s };
                if s.bridge.index.contains_key(id) {
                    let i = s.bridge.index[id];
                    if !inventory::needs_reregister(s.bridge.devices[i], s.current(), kind) {
                        visit_steps(noted.with_current_refreshed(i));
                    }
                }
            },
        }
    }
}

/// Every sync comes to an end: each reply, whatever it is, leaves fewer replies
/// to go.
pub proof fn syncs_come_to_an_end(s: SyncView, reply: ReplyView)
    requires
        s.wf(),
        !(s.stage is Finished),
    ensures
        0 <= steps_left(s.step(reply).0) < steps_left(s),
{
    match s.stage {
        SyncStageView::Reregistering(i) => {
            visit_steps(s.past_current());
            visit_steps(s.with_current_refreshed(i));
        },
        SyncStageView::Registering => {
            visit_steps(s.past_current());
        },
        SyncStageView::Announcing(_) => {
            visit_steps(s.with_current_added());
        },
        SyncStageView::Showing => {
            visit_steps(s.with_current_added());
        },
        SyncStageView::Unregistering(i) => {
            sweep_steps(SyncView { bridge: s.bridge.relisted(i), gone: s.gone + 1, ..s });
            sweep_steps(SyncView { bridge: s.bridge.with_retired(i), gone: s.gone + 1, ..s });
        },
        _ => {},
    }
}

/// Whether a list tells a bridge nothing that has to be passed on: every bridged
/// device on it is known by its name and type, and no known one is missing.
pub open spec fn tells_nothing_new(bridge: BridgeView, fresh: Seq<DeviceInfo>) -> bool {
    &&& forall|i: int|
        0 <= i < fresh.len() ==> match DeviceKind::bridged_type(
            (#[trigger] fresh[i]).device_type@,
        ) {
            None => true,
            Some(kind) => bridge.index.contains_key(fresh[i].device_id@)
                && !inventory::needs_reregister(
                bridge.devices[bridge.index[fresh[i].device_id@]],
                fresh[i],
                kind,
            ),
        }
    &&& bridge.index.dom().subset_of(listed(fresh))
}

/// A list that tells nothing new is synced without asking anything of HomeCore
/// or YoLink.
pub proof fn quiet_syncs_ask_for_nothing(bridge: BridgeView, fresh: Seq<DeviceInfo>)
    requires
        bridge.wf(),
        tells_nothing_new(bridge, fresh),
    ensures
        SyncView::start(bridge, fresh).visit().1 == ActionView::Finish,
        SyncView::start(bridge, fresh).visit().0.stage is Finished,
        SyncView::start(bridge, fresh).visit().0.bridge.index == bridge.index,
{
    assert(fresh.take(0) =~= Seq::empty());
    quiet_visit(bridge, SyncView::start(bridge, fresh));
}

/// The rest of a quiet sync asks for nothing either.
proof fn quiet_visit(bridge: BridgeView, s: SyncView)
    requires
        bridge.wf(),
        tells_nothing_new(bridge, s.fresh),
        s.bridge.wf(),
        s.bridge.index == bridge.index,
        s.bridge.devices.len() == bridge.devices.len(),
        forall|i: int|
            0 <= i < bridge.devices.len() ==> (#[trigger] s.bridge.devices[i]).info.name@
                == bridge.devices[i].info.name@ && s.bridge.devices[i].kind.device_type()
                == bridge.devices[i].kind.device_type(),
        0 <= s.next <= s.fresh.len(),
        s.seen == listed(s.fresh.take(s.next)),
    ensures
        s.visit().1 == ActionView::Finish,
        s.visit().0.stage is Finished,
        s.visit().0.bridge.index == bridge.index,
    decreases s.fresh.len() - s.next,
{
    if s.next >= s.fresh.len() {
        let count = s.bridge.devices.len() as int;
        let unlisted = inventory::unlisted_positions(s.bridge, s.seen, count);
        assert(s.fresh.take(s.next) =~= s.fresh);
        nothing_is_unlisted(s.bridge, s.seen, count);
        assert(unlisted.len() == 0);
    } else {
        assert(s.fresh.take(s.next + 1).drop_last() =~= s.fresh.take(s.next));
        assert(s.fresh.take(s.next + 1).last() == s.fresh[s.next]);
        match s.current_kind() {
            None => {
                quiet_visit(bridge, s.past_current());
            },
            Some(kind) => {
                let id = s.current().device_id@;
                let i = s.bridge.index[id];
                let noted = SyncView { seen: s.seen.insert(id), ..s };
                assert(bridge.index.contains_key(s.fresh[s.next].device_id@));
                let next = noted.with_current_refreshed(i);
                assert(next.bridge.wf());
                quiet_visit(bridge, next);
            },
        }
    }
}

/// Where everything found is listed, nothing is unlisted.
proof fn nothing_is_unlisted(bridge: BridgeView, seen: Set<Seq<char>>, count: int)
    requires
        0 <= count <= bridge.devices.len(),
        bridge.index.dom().subset_of(seen),
    ensures
        inventory::unlisted_positions(bridge, seen, count).len() == 0,
    decreases count,
{
    if count > 0 {
        nothing_is_unlisted(bridge, seen, count - 1);
    }
}

/// The bridged devices of a list by their IDs, each with its kind; where an ID
/// is listed twice, the later entry counts.
pub open spec fn records(devices: Seq<DeviceInfo>) -> Map<Seq<char>, (DeviceInfo, DeviceKind)>
    decreases devices.len(),
{
    if devices.len() == 0 {
        Map::empty()
    } else {
        let before = records(devices.drop_last());
        match DeviceKind::bridged_type(devices.last().device_type@) {
            Some(kind) => before.insert(devices.last().device_id@, (devices.last(), kind)),
            None => before,
        }
    }
}

/// Whether every registration, of new and of known devices, and every removal
/// worked.
pub open spec fn flawless(
    bridge: BridgeView,
    fresh: Seq<DeviceInfo>,
    replies: Seq<ReplyView>,
) -> bool
    decreases replies.len(),
{
    replies.len() > 0 ==> {
        let s = after(bridge, fresh, replies.drop_last());
        &&& flawless(bridge, fresh, replies.drop_last())
        &&& replies.last() is Failed ==> !(s.stage is Registering) && !(s.stage is Reregistering)
            && !(s.stage is Unregistering)
    }
}

/// Where every registration and removal works, every new registration and
/// removal does.
proof fn flawless_is_smooth(bridge: BridgeView, fresh: Seq<DeviceInfo>, replies: Seq<ReplyView>)
    requires
        flawless(bridge, fresh, replies),
    ensures
        smooth(bridge, fresh, replies),
    decreases replies.len(),
{
    if replies.len() > 0 {
        flawless_is_smooth(bridge, fresh, replies.drop_last());
    }
}

/// The records of a list are those of the listed devices.
proof fn records_are_of_the_listed(devices: Seq<DeviceInfo>)
    ensures
        records(devices).dom() == listed(devices),
    decreases devices.len(),
{
    if devices.len() > 0 {
        records_are_of_the_listed(devices.drop_last());
    }
    assert(records(devices).dom() =~= listed(devices));
}

/// Whether everything that the sync is past is found with its record.
spec fn holds_records(s: SyncView) -> bool {
    let known = records(s.fresh.take(s.next));
    forall|id: Seq<char>| #[trigger]
        known.contains_key(id) ==> {
            &&& s.bridge.index.contains_key(id)
            &&& s.bridge.devices[s.bridge.index[id]].info == known[id].0
            &&& s.bridge.devices[s.bridge.index[id]].kind == known[id].1
        }
}

/// A sweep leaves the records of the listed devices alone.
proof fn sweep_holds_records(s: SyncView)
    requires
        s.bridge.wf(),
        0 <= s.gone <= s.unlisted.len(),
        forall|k: int|
            0 <= k < s.unlisted.len() ==> 0 <= #[trigger] s.unlisted[k] < s.bridge.devices.len()
                && !s.seen.contains(s.bridge.devices[s.unlisted[k]].info.device_id@),
        s.seen == listed(s.fresh.take(s.next)),
        holds_records(s),
    ensures
        holds_records(s.sweep().0),
    decreases s.unlisted.len() - s.gone,
{
    records_are_of_the_listed(s.fresh.take(s.next));
    if s.gone < s.unlisted.len() {
        let i = s.unlisted[s.gone];
        let known = records(s.fresh.take(s.next));
        assert forall|id: Seq<char>| known.contains_key(id) implies id
            != s.bridge.devices[i].info.device_id@ by {
            assert(s.seen.contains(id));
        }
        if s.bridge.devices[i].retired {
            sweep_holds_records(SyncView { bridge: s.bridge.delisted(i), gone: s.gone + 1, ..s });
        }
    }
}

/// Going through the list brings every record in.
proof fn visit_holds_records(s: SyncView)
    requires
        s.bridge.wf(),
        0 <= s.next <= s.fresh.len(),
        s.seen == listed(s.fresh.take(s.next)),
        holds_records(s),
    ensures
        holds_records(s.visit().0),
    decreases s.fresh.len() - s.next,
{
    if s.next >= s.fresh.len() {
        let count = s.bridge.devices.len() as int;
        let unlisted = inventory::unlisted_positions(s.bridge, s.seen, count);
        unlisted_positions_are_exact(s.bridge, s.seen, count);
        sweep_holds_records(SyncView { unlisted, gone: 0, ..s });
    } else {
        assert(s.fresh.take(s.next + 1).drop_last() =~= s.fresh.take(s.next));
        assert(s.fresh.take(s.next + 1).last() == s.current());
        match s.current_kind() {
            None => {
                visit_holds_records(s.past_current());
            },
            Some(kind) => {
                let id = s.current().device_id@;
                let noted = SyncView { seen: s.seen.insert(id), ..s };
                if s.bridge.index.contains_key(id) {
                    let i = s.bridge.index[id];
                    if !inventory::needs_reregister(s.bridge.devices[i], s.current(), kind) {
                        refreshing_holds_records(noted, i);
                        visit_holds_records(noted.with_current_refreshed(i));
                    }
                }
            },
        }
    }
}

/// Bringing a known device's new record in keeps the others.
proof fn refreshing_holds_records(s: SyncView, i: int)
    requires
        s.bridge.wf(),
        0 <= s.next < s.fresh.len(),
        s.current_kind() is Some,
        s.bridge.index.contains_key(s.current().device_id@),
        s.bridge.index[s.current().device_id@] == i,
        holds_records(s),
    ensures
        holds_records(s.with_current_refreshed(i)),
        s.with_current_refreshed(i).bridge.wf(),
{
    assert(s.fresh.take(s.next + 1).drop_last() =~= s.fresh.take(s.next));
    let now = s.with_current_refreshed(i);
    let known = records(s.fresh.take(s.next));
    assert forall|id: Seq<char>| #[trigger]
        records(now.fresh.take(now.next)).contains_key(id) implies now.bridge.index.contains_key(id)
        && now.bridge.devices[now.bridge.index[id]].info == records(now.fresh.take(now.next))[id].0
        && now.bridge.devices[now.bridge.index[id]].kind == records(
        now.fresh.take(now.next),
    )[id].1 by {
        if id != s.current().device_id@ {
            assert(known.contains_key(id));
            assert(s.bridge.index.contains_key(id));
            assert(s.bridge.index[id] != i);
        }
    }
}

/// Adding a new device keeps the records of the others.
proof fn adding_holds_records(s: SyncView)
    requires
        s.bridge.wf(),
        0 <= s.next < s.fresh.len(),
        s.current_kind() is Some,
        holds_records(s),
    ensures
        holds_records(s.with_current_added()),
        s.with_current_added().bridge.wf(),
{
    assert(s.fresh.take(s.next + 1).drop_last() =~= s.fresh.take(s.next));
    let now = s.with_current_added();
    let known = records(s.fresh.take(s.next));
    assert forall|id: Seq<char>| #[trigger]
        records(now.fresh.take(now.next)).contains_key(id) implies now.bridge.index.contains_key(id)
        && now.bridge.devices[now.bridge.index[id]].info == records(now.fresh.take(now.next))[id].0
        && now.bridge.devices[now.bridge.index[id]].kind == records(
        now.fresh.take(now.next),
    )[id].1 by {
        if id != s.current().device_id@ {
            assert(known.contains_key(id));
            assert(s.bridge.index.contains_key(id));
        }
    }
}

/// Every point that a flawless sync reaches has the records of what it is past.
proof fn reached_holds_records(
    bridge: BridgeView,
    fresh: Seq<DeviceInfo>,
    replies: Seq<ReplyView>,
)
    requires
        bridge.wf(),
        flawless(bridge, fresh, replies),
    ensures
        holds_records(after(bridge, fresh, replies)),
    decreases replies.len(),
{
    if replies.len() == 0 {
        assert(fresh.take(0) =~= Seq::empty());
        visit_holds_records(SyncView::start(bridge, fresh));
    } else {
        reached_holds_records(bridge, fresh, replies.drop_last());
        reached_tracks(bridge, fresh, replies.drop_last());
        let s = after(bridge, fresh, replies.drop_last());
        if !is_sweeping(s.stage) {
            assert(s.fresh.take(s.next + 1).drop_last() =~= s.fresh.take(s.next));
            assert(s.fresh.take(s.next + 1).last() == s.current());
        }
        match s.stage {
            SyncStageView::Reregistering(i) => {
                refreshing_holds_records(s, i);
                visit_holds_records(s.with_current_refreshed(i));
            },
            SyncStageView::Announcing(_) => {
                adding_holds_records(s);
                visit_holds_records(s.with_current_added());
            },
            SyncStageView::Showing => {
                adding_holds_records(s);
                visit_holds_records(s.with_current_added());
            },
            SyncStageView::Unregistering(i) => {
                let off = SyncView { bridge: s.bridge.with_retired(i), gone: s.gone + 1, ..s };
                records_are_of_the_listed(s.fresh.take(s.next));
                assert(!s.seen.contains(s.bridge.devices[s.unlisted[s.gone]].info.device_id@));
                assert forall|k: int| 0 <= k < off.unlisted.len() implies 0
                    <= #[trigger] off.unlisted[k] < off.bridge.devices.len() && !off.seen.contains(
                    off.bridge.devices[off.unlisted[k]].info.device_id@,
                ) by {
                    assert(!s.seen.contains(s.bridge.devices[s.unlisted[k]].info.device_id@));
                }
                let known = records(s.fresh.take(s.next));
                assert forall|id: Seq<char>| #[trigger] known.contains_key(id) implies {
                    &&& off.bridge.index.contains_key(id)
                    &&& off.bridge.devices[off.bridge.index[id]].info == known[id].0
                    &&& off.bridge.devices[off.bridge.index[id]].kind == known[id].1
                } by {
                    assert(s.seen.contains(id));
                    assert(s.bridge.index[id] != i);
                }
                sweep_holds_records(off);
            },
            _ => {},
        }
    }
}

/// When a sync is over in which every registration and removal worked, each
/// listed device is found with the record and the kind of its last entry on the
/// list, not retired, and nothing else is found.
pub proof fn flawless_syncs_hold_the_last_records(
    bridge: BridgeView,
    fresh: Seq<DeviceInfo>,
    replies: Seq<ReplyView>,
    id: Seq<char>,
)
    requires
        bridge.wf(),
        after(bridge, fresh, replies).stage is Finished,
        flawless(bridge, fresh, replies),
    ensures
        after(bridge, fresh, replies).bridge.found(id) == if records(fresh).contains_key(id) {
            Some(DeviceView::bridged(records(fresh)[id].0, records(fresh)[id].1))
        } else {
            None
        },
{
    let s = after(bridge, fresh, replies);
    flawless_is_smooth(bridge, fresh, replies);
    smooth_syncs_know_exactly_what_is_listed(bridge, fresh, replies);
    reached_tracks(bridge, fresh, replies);
    reached_holds_records(bridge, fresh, replies);
    records_are_of_the_listed(fresh);
    assert(fresh.take(fresh.len() as int) =~= fresh);
    assert(s.bridge.index.dom().contains(id) <==> records(fresh).dom().contains(id));
}

/// Whether no ID is that of two bridged devices of a list.
pub open spec fn lists_each_once(fresh: Seq<DeviceInfo>) -> bool {
    forall|i: int, j: int|
        #![trigger fresh[i], fresh[j]]
        0 <= i < j < fresh.len() && DeviceKind::bridged_type(fresh[i].device_type@) is Some
            && DeviceKind::bridged_type(fresh[j].device_type@) is Some ==> fresh[i].device_id@
            != fresh[j].device_id@
}

/// Where each device is listed once, its record is its entry.
proof fn entries_are_records(fresh: Seq<DeviceInfo>, i: int)
    requires
        lists_each_once(fresh),
        0 <= i < fresh.len(),
        DeviceKind::bridged_type(fresh[i].device_type@) is Some,
    ensures
        records(fresh).contains_key(fresh[i].device_id@),
        records(fresh)[fresh[i].device_id@] == (
            fresh[i],
            DeviceKind::bridged_type(fresh[i].device_type@)->0,
        ),
    decreases fresh.len(),
{
    if i < fresh.len() - 1 {
        let init = fresh.drop_last();
        assert forall|a: int, b: int|
            #![trigger init[a], init[b]]
            0 <= a < b < init.len() && DeviceKind::bridged_type(init[a].device_type@) is Some
                && DeviceKind::bridged_type(init[b].device_type@) is Some implies init[a].device_id@
            != init[b].device_id@ by {
            assert(init[a] == fresh[a] && init[b] == fresh[b]);
        }
        entries_are_records(init, i);
        assert(fresh[fresh.len() - 1] == fresh.last());
    }
}

/// A second sync with the same list, after one in which every registration and
/// removal worked, asks for nothing and leaves the bridge as it is. The list
/// names each device once.
pub proof fn repeated_syncs_change_nothing(
    bridge: BridgeView,
    fresh: Seq<DeviceInfo>,
    replies: Seq<ReplyView>,
)
    requires
        bridge.wf(),
        after(bridge, fresh, replies).stage is Finished,
        flawless(bridge, fresh, replies),
        lists_each_once(fresh),
    ensures
        ({
            let synced = after(bridge, fresh, replies).bridge;
            &&& SyncView::start(synced, fresh).visit().1 == ActionView::Finish
            &&& SyncView::start(synced, fresh).visit().0.stage is Finished
            &&& SyncView::start(synced, fresh).visit().0.bridge == synced
        }),
{
    let synced = after(bridge, fresh, replies).bridge;
    flawless_is_smooth(bridge, fresh, replies);
    smooth_syncs_know_exactly_what_is_listed(bridge, fresh, replies);
    syncs_keep_the_bridge_sound(bridge, fresh, replies);
    assert forall|i: int|
        0 <= i < fresh.len() && DeviceKind::bridged_type(
            (#[trigger] fresh[i]).device_type@,
        ) is Some implies synced.found(fresh[i].device_id@) == Some(
        DeviceView::bridged(fresh[i], DeviceKind::bridged_type(fresh[i].device_type@)->0),
    ) by {
        entries_are_records(fresh, i);
        flawless_syncs_hold_the_last_records(bridge, fresh, replies, fresh[i].device_id@);
    }
    assert(fresh.take(0) =~= Seq::empty());
    settled_visit(SyncView::start(synced, fresh));
}

/// Going through a list whose entries are all in the bridge changes nothing.
proof fn settled_visit(s: SyncView)
    requires
        s.bridge.wf(),
        0 <= s.next <= s.fresh.len(),
        s.seen == listed(s.fresh.take(s.next)),
        s.bridge.index.dom().subset_of(listed(s.fresh)),
        forall|i: int|
            0 <= i < s.fresh.len() && DeviceKind::bridged_type(
                (#[trigger] s.fresh[i]).device_type@,
            ) is Some ==> s.bridge.found(s.fresh[i].device_id@) == Some(
                DeviceView::bridged(
                    s.fresh[i],
                    DeviceKind::bridged_type(s.fresh[i].device_type@)->0,
                ),
            ),
    ensures
        s.visit().1 == ActionView::Finish,
        s.visit().0.stage is Finished,
        s.visit().0.bridge == s.bridge,
    decreases s.fresh.len() - s.next,
{
    if s.next >= s.fresh.len() {
        assert(s.fresh.take(s.next) =~= s.fresh);
        nothing_is_unlisted(s.bridge, s.seen, s.bridge.devices.len() as int);
    } else {
        assert(s.fresh.take(s.next + 1).drop_last() =~= s.fresh.take(s.next));
        assert(s.fresh.take(s.next + 1).last() == s.fresh[s.next]);
        match s.current_kind() {
            None => {
                settled_visit(s.past_current());
            },
            Some(kind) => {
                let info = s.current();
                let id = info.device_id@;
                let i = s.bridge.index[id];
                let noted = SyncView { seen: s.seen.insert(id), ..s };
                let next = noted.with_current_refreshed(i);
                assert(s.bridge.found(s.fresh[s.next].device_id@) == Some(
                    DeviceView::bridged(info, kind),
                ));
                assert(next.bridge.devices =~= s.bridge.devices);
                assert(next.bridge == s.bridge);
                settled_visit(next);
            },
        }
    }
}

/// Whether an entry of a list is a bridged device of that ID.
spec fn is_entry_of(fresh: Seq<DeviceInfo>, j: int, id: Seq<char>) -> bool {
    fresh[j].device_id@ == id && DeviceKind::bridged_type(fresh[j].device_type@) is Some
}

/// Every bridged entry of a list is among the listed.
proof fn entries_are_listed(fresh: Seq<DeviceInfo>, j: int)
    requires
        0 <= j < fresh.len(),
        DeviceKind::bridged_type(fresh[j].device_type@) is Some,
    ensures
        listed(fresh).contains(fresh[j].device_id@),
    decreases fresh.len(),
{
    if j < fresh.len() - 1 {
        entries_are_listed(fresh.drop_last(), j);
    }
}

/// A sweep leaves every listed device as it is.
proof fn sweep_leaves_listed(s: SyncView, id: Seq<char>)
    requires
        s.bridge.wf(),
        s.seen.contains(id),
        0 <= s.gone <= s.unlisted.len(),
        forall|k: int|
            0 <= k < s.unlisted.len() ==> 0 <= #[trigger] s.unlisted[k] < s.bridge.devices.len()
                && !s.seen.contains(s.bridge.devices[s.unlisted[k]].info.device_id@),
    ensures
        s.sweep().0.bridge.found(id) == s.bridge.found(id),
        s.sweep().0.next == s.next,
    decreases s.unlisted.len() - s.gone,
{
    if s.gone < s.unlisted.len() {
        let i = s.unlisted[s.gone];
        assert(s.bridge.devices[i].info.device_id@ != id);
        if s.bridge.devices[i].retired {
            sweep_leaves_listed(
                SyncView { bridge: s.bridge.delisted(i), gone: s.gone + 1, ..s },
                id,
            );
        }
    }
}

/// Going through the list leaves a listed device as it is, as long as none of
/// the entries that are done is its own.
proof fn visit_leaves_others(s: SyncView, id: Seq<char>)
    requires
        s.bridge.wf(),
        0 <= s.next <= s.fresh.len(),
        s.seen == listed(s.fresh.take(s.next)),
        listed(s.fresh).contains(id),
    ensures
        s.next <= s.visit().0.next,
        (forall|j: int|
            s.next <= j < s.visit().0.next ==> !(#[trigger] is_entry_of(s.fresh, j, id)))
            ==> s.visit().0.bridge.found(id) == s.bridge.found(id),
    decreases s.fresh.len() - s.next,
{
    if s.next >= s.fresh.len() {
        let count = s.bridge.devices.len() as int;
        let unlisted = inventory::unlisted_positions(s.bridge, s.seen, count);
        assert(s.fresh.take(s.next) =~= s.fresh);
        unlisted_positions_are_exact(s.bridge, s.seen, count);
        sweep_leaves_listed(SyncView { unlisted, gone: 0, ..s }, id);
    } else {
        assert(s.fresh.take(s.next + 1).drop_last() =~= s.fresh.take(s.next));
        assert(s.fresh.take(s.next + 1).last() == s.current());
        match s.current_kind() {
            None => {
                visit_leaves_others(s.past_current(), id);
            },
            Some(kind) => {
                let own = s.current().device_id@;
                let noted = SyncView { seen: s.seen.insert(own), ..s };
                if s.bridge.index.contains_key(own) {
                    let i = s.bridge.index[own];
                    if !inventory::needs_reregister(s.bridge.devices[i], s.current(), kind) {
                        let next = noted.with_current_refreshed(i);
                        assert(next.bridge.wf());
                        visit_leaves_others(next, id);
                        if own != id {
                            refreshing_leaves_others(noted, i, id);
                        } else {
                            assert(is_entry_of(s.fresh, s.next, id));
                        }
                    }
                }
            },
        }
    }
}

/// Bringing one device's new record in leaves the others as they are.
proof fn refreshing_leaves_others(s: SyncView, i: int, id: Seq<char>)
    requires
        s.bridge.wf(),
        s.bridge.index.contains_key(s.current().device_id@),
        s.bridge.index[s.current().device_id@] == i,
        s.current().device_id@ != id,
    ensures
        s.with_current_refreshed(i).bridge.found(id) == s.bridge.found(id),
{
    if s.bridge.index.contains_key(id) {
        assert(s.bridge.index[id] != i);
    }
}

/// Every reply leaves a listed device as it is, as long as none of the entries
/// that are done is its own.
proof fn step_leaves_others(
    s: SyncView,
    reply: ReplyView,
    id: Seq<char>,
    kept: Set<Seq<char>>,
    smooth: bool,
)
    requires
        tracks(s, kept, smooth),
        listed(s.fresh).contains(id),
    ensures
        s.next <= s.step(reply).0.next,
        (forall|j: int|
            s.next <= j < s.step(reply).0.next ==> !(#[trigger] is_entry_of(s.fresh, j, id)))
            ==> s.step(reply).0.bridge.found(id) == s.bridge.found(id),
{
    if !is_sweeping(s.stage) {
        assert(s.fresh.take(s.next + 1).drop_last() =~= s.fresh.take(s.next));
        assert(s.fresh.take(s.next + 1).last() == s.current());
        if s.current().device_id@ == id {
            assert(is_entry_of(s.fresh, s.next, id));
        }
    }
    match s.stage {
        SyncStageView::Reregistering(i) => {
            visit_leaves_others(s.past_current(), id);
            visit_leaves_others(s.with_current_refreshed(i), id);
            if s.current().device_id@ != id {
                refreshing_leaves_others(s, i, id);
            }
        },
        SyncStageView::Registering => {
            visit_leaves_others(s.past_current(), id);
        },
        SyncStageView::Announcing(_) => {
            visit_leaves_others(s.with_current_added(), id);
        },
        SyncStageView::Showing => {
            visit_leaves_others(s.with_current_added(), id);
        },
        SyncStageView::Unregistering(i) => {
            assert(s.fresh.take(s.next) =~= s.fresh);
            assert(!s.seen.contains(s.bridge.devices[s.unlisted[s.gone]].info.device_id@));
            let back = SyncView { bridge: s.bridge.relisted(i), gone: s.gone + 1, ..s };
            let off = SyncView { bridge: s.bridge.with_retired(i), gone: s.gone + 1, ..s };
            assert forall|k: int| 0 <= k < off.unlisted.len() implies 0
                <= #[trigger] off.unlisted[k] < off.bridge.devices.len() && !off.seen.contains(
                off.bridge.devices[off.unlisted[k]].info.device_id@,
            ) by {
                assert(!s.seen.contains(s.bridge.devices[s.unlisted[k]].info.device_id@));
            }
            assert(off.bridge.found(id) == s.bridge.found(id));
            assert(back.bridge.found(id) == s.bridge.found(id));
            sweep_leaves_listed(back, id);
            sweep_leaves_listed(off, id);
        },
        _ => {},
    }
}

/// Until a sync gets to a listed device, it leaves it as it is.
proof fn reached_leaves_later(
    bridge: BridgeView,
    fresh: Seq<DeviceInfo>,
    replies: Seq<ReplyView>,
    id: Seq<char>,
)
    requires
        bridge.wf(),
        listed(fresh).contains(id),
        forall|j: int|
            0 <= j < after(bridge, fresh, replies).next ==> !(#[trigger] is_entry_of(
                fresh,
                j,
                id,
            )),
    ensures
        after(bridge, fresh, replies).bridge.found(id) == bridge.found(id),
    decreases replies.len(),
{
    if replies.len() == 0 {
        assert(fresh.take(0) =~= Seq::empty());
        visit_leaves_others(SyncView::start(bridge, fresh), id);
    } else {
        let init = replies.drop_last();
        let s = after(bridge, fresh, init);
        reached_tracks(bridge, fresh, init);
        step_leaves_others(
            s,
            replies.last(),
            id,
            kept(bridge, fresh, init),
            smooth(bridge, fresh, init),
        );
        reached_leaves_later(bridge, fresh, init, id);
    }
}

/// Once a sync is past all entries of a listed device, it leaves it as it is.
proof fn reached_leaves_earlier(
    bridge: BridgeView,
    fresh: Seq<DeviceInfo>,
    replies: Seq<ReplyView>,
    k: int,
    id: Seq<char>,
)
    requires
        bridge.wf(),
        listed(fresh).contains(id),
        0 <= k <= replies.len(),
        forall|j: int|
            after(bridge, fresh, replies.take(k)).next <= j < fresh.len() ==> !(
            #[trigger] is_entry_of(fresh, j, id)),
    ensures
        after(bridge, fresh, replies.take(k)).next <= after(bridge, fresh, replies).next,
        after(bridge, fresh, replies).bridge.found(id) == after(
            bridge,
            fresh,
            replies.take(k),
        ).bridge.found(id),
    decreases replies.len(),
{
    if k == replies.len() {
        assert(replies.take(k) =~= replies);
    } else {
        let init = replies.drop_last();
        assert(init.take(k) =~= replies.take(k));
        reached_leaves_earlier(bridge, fresh, init, k, id);
        reached_tracks(bridge, fresh, init);
        reached_tracks(bridge, fresh, replies);
        step_leaves_others(
            after(bridge, fresh, init),
            replies.last(),
            id,
            kept(bridge, fresh, init),
            smooth(bridge, fresh, init),
        );
    }
}

/// Whether the reply at a position says that the registration of a device, new
/// or known, failed.
pub open spec fn registration_failed(
    bridge: BridgeView,
    fresh: Seq<DeviceInfo>,
    replies: Seq<ReplyView>,
    k: int,
    id: Seq<char>,
) -> bool {
    let s = after(bridge, fresh, replies.take(k));
    &&& 0 <= k < replies.len()
    &&& replies[k] is Failed
    &&& s.stage is Registering || s.stage is Reregistering
    &&& s.current().device_id@ == id
}

/// A device whose registration failed during a sync is found, from then on to
/// the end of the sync, as it was before the sync: a known one with its old
/// record and kind. The list names each device once.
pub proof fn failed_registrations_leave_the_device_as_it_was(
    bridge: BridgeView,
    fresh: Seq<DeviceInfo>,
    replies: Seq<ReplyView>,
    k: int,
    id: Seq<char>,
)
    requires
        bridge.wf(),
        lists_each_once(fresh),
        registration_failed(bridge, fresh, replies, k, id),
    ensures
        after(bridge, fresh, replies).bridge.found(id) == bridge.found(id),
{
    let s = after(bridge, fresh, replies.take(k));
    let upto = replies.take(k + 1);
    reached_tracks(bridge, fresh, replies.take(k));
    entries_are_listed(fresh, s.next);
    assert forall|j: int| 0 <= j < fresh.len() && j != s.next implies !(#[trigger] is_entry_of(
        fresh,
        j,
        id,
    )) by {
        assert(fresh[s.next].device_id@ == id);
    }
    reached_leaves_later(bridge, fresh, replies.take(k), id);
    assert(upto.drop_last() =~= replies.take(k));
    assert(upto.last() == replies[k]);
    assert(fresh.take(s.next + 1).drop_last() =~= fresh.take(s.next));
    reached_tracks(bridge, fresh, upto);
    visit_leaves_others(s.past_current(), id);
    assert(after(bridge, fresh, upto).bridge.found(id) == bridge.found(id));
    assert(after(bridge, fresh, upto).next > s.next);
    reached_leaves_earlier(bridge, fresh, replies, k + 1, id);
}

/// A device whose first registration failed during a sync is not found at the
/// end of the sync. The list names each device once.
pub proof fn failed_first_registrations_leave_nothing(
    bridge: BridgeView,
    fresh: Seq<DeviceInfo>,
    replies: Seq<ReplyView>,
    k: int,
    id: Seq<char>,
)
    requires
        bridge.wf(),
        lists_each_once(fresh),
        registration_failed(bridge, fresh, replies, k, id),
        after(bridge, fresh, replies.take(k)).stage is Registering,
    ensures
        bridge.found(id) is None,
        after(bridge, fresh, replies).bridge.found(id) is None,
{
    failed_registrations_leave_the_device_as_it_was(bridge, fresh, replies, k, id);
    let before = replies.take(k);
    let s = after(bridge, fresh, before);
    reached_tracks(bridge, fresh, before);
    entries_are_listed(fresh, s.next);
    assert forall|j: int| 0 <= j < s.next implies !(#[trigger] is_entry_of(fresh, j, id)) by {
        assert(fresh[s.next].device_id@ == id);
    }
    reached_leaves_later(bridge, fresh, before, id);
}

/// Going through the list, or what is left of it, asks for nothing but
/// registrations and removals. A registration is that of the entry at which the
/// sync then waits: under the HomeCore ID made of its YoLink ID, by its name and
/// as its type.
proof fn visit_registers_the_current_entry(s: SyncView)
    requires
        s.bridge.wf(),
        0 <= s.next <= s.fresh.len(),
    ensures
        s.visit().1 is Register || s.visit().1 is Unregister || s.visit().1 is Finish,
        s.visit().1 is Register ==> registers_current(s.visit()),
    decreases s.fresh.len() - s.next,
{
    if s.next >= s.fresh.len() {
        let count = s.bridge.devices.len() as int;
        let unlisted = inventory::unlisted_positions(s.bridge, s.seen, count);
        sweep_registers_nothing(SyncView { unlisted, gone: 0, ..s });
    } else {
        match s.current_kind() {
            None => {
                visit_registers_the_current_entry(s.past_current());
            },
            Some(kind) => {
                let id = s.current().device_id@;
                let noted = SyncView { seen: s.seen.insert(id), ..s };
                if s.bridge.index.contains_key(id) {
                    let i = s.bridge.index[id];
                    if !inventory::needs_reregister(s.bridge.devices[i], s.current(), kind) {
                        visit_registers_the_current_entry(noted.with_current_refreshed(i));
                    }
                }
            },
        }
    }
}

/// A sweep registers nothing.
proof fn sweep_registers_nothing(s: SyncView)
    ensures
        s.sweep().1 is Unregister || s.sweep().1 is Finish,
    decreases s.unlisted.len() - s.gone,
{
    if s.gone < s.unlisted.len() {
        let i = s.unlisted[s.gone];
        if s.bridge.devices[i].retired {
            sweep_registers_nothing(
                SyncView { bridge: s.bridge.delisted(i), gone: s.gone + 1, ..s },
            );
        }
    }
}

/// Whether what is asked for is the registration of the entry at which a sync
/// waits.
pub open spec fn registers_current(at: (SyncView, ActionView)) -> bool {
    let entry = at.0.fresh[at.0.next];
    &&& 0 <= at.0.next < at.0.fresh.len()
    &&& at.0.stage is Registering || at.0.stage is Reregistering
    &&& at.1 matches ActionView::Register { hc_id, name, device_type, kind }
    &&& hc_id == "yolink_"@ + entry.device_id@
    &&& name == entry.name@
    &&& kind.is_of_type(entry.device_type@)
    &&& device_type == kind.device_type()
}

/// Whatever a sync registers is the entry of the list at which it then waits:
/// under the HomeCore ID made of its YoLink ID, by its name and as its type.
pub proof fn registrations_are_of_the_current_entry(s: SyncView, reply: ReplyView)
    requires
        s.wf(),
    ensures
        s.step(reply).1 is Register ==> registers_current(s.step(reply)),
        s.visit().1 is Register ==> registers_current(s.visit()),
{
    visit_registers_the_current_entry(s);
    match s.stage {
        SyncStageView::Reregistering(i) => {
            visit_registers_the_current_entry(s.past_current());
            visit_registers_the_current_entry(s.with_current_refreshed(i));
        },
        SyncStageView::Registering => {
            visit_registers_the_current_entry(s.past_current());
        },
        SyncStageView::Announcing(_) => {
            visit_registers_the_current_entry(s.with_current_added());
        },
        SyncStageView::Showing => {
            visit_registers_the_current_entry(s.with_current_added());
        },
        SyncStageView::Unregistering(i) => {
            sweep_registers_nothing(
                SyncView { bridge: s.bridge.relisted(i), gone: s.gone + 1, ..s },
            );
            sweep_registers_nothing(
                SyncView { bridge: s.bridge.with_retired(i), gone: s.gone + 1, ..s },
            );
        },
        _ => {},
    }
}

/// A sync that comes to a listed device which is new, has another name than it
/// is known by, or is now of a type that HomeCore tells apart, registers it
/// before anything else. A type that is not bridged is passed over.
pub proof fn listed_changes_are_registered(s: SyncView, kind: DeviceKind)
    requires
        s.bridge.wf(),
        0 <= s.next < s.fresh.len(),
        kind.is_of_type(s.fresh[s.next].device_type@),
    ensures
        ({
            let entry = s.fresh[s.next];
            let changed = match s.bridge.found(entry.device_id@) {
                None => true,
                Some(known) => known.info.name@ != entry.name@ || known.kind.device_type()
                    != kind.device_type(),
            };
            if kind is Hub || kind is Unknown {
                s.visit() == SyncView { next: s.next + 1, ..s }.visit()
            } else if changed {
                &&& s.visit().1 == (ActionView::Register {
                    hc_id: "yolink_"@ + entry.device_id@,
                    name: entry.name@,
                    device_type: kind.device_type(),
                    kind,
                })
                &&& s.visit().0.next == s.next
                &&& s.visit().0.bridge == s.bridge
            } else {
                s.visit().0.next > s.next
            }
        }),
{
    naming::bridged_types_have_bridged_kinds(kind, s.fresh[s.next].device_type@);
    if !(kind is Hub || kind is Unknown) && s.bridge.index.contains_key(
        s.fresh[s.next].device_id@,
    ) {
        let i = s.bridge.index[s.fresh[s.next].device_id@];
        let noted = SyncView { seen: s.seen.insert(s.fresh[s.next].device_id@), ..s };
        visit_goes_forward(noted.with_current_refreshed(i));
    }
}

/// Going through the list never goes back.
proof fn visit_goes_forward(s: SyncView)
    ensures
        s.visit().0.next >= s.next,
    decreases s.fresh.len() - s.next,
{
    if s.next >= s.fresh.len() {
        let count = s.bridge.devices.len() as int;
        let unlisted = inventory::unlisted_positions(s.bridge, s.seen, count);
        sweep_stays_put(SyncView { unlisted, gone: 0, ..s });
    } else {
        match s.current_kind() {
            None => {
                visit_goes_forward(s.past_current());
            },
            Some(kind) => {
                let id = s.current().device_id@;
                let noted = SyncView { seen: s.seen.insert(id), ..s };
                if s.bridge.index.contains_key(id) {
                    let i = s.bridge.index[id];
                    if !inventory::needs_reregister(s.bridge.devices[i], s.current(), kind) {
                        visit_goes_forward(noted.with_current_refreshed(i));
                    }
                }
            },
        }
    }
}

/// A sweep stays where the list ends.
proof fn sweep_stays_put(s: SyncView)
    ensures
        s.sweep().0.next == s.next,
    decreases s.unlisted.len() - s.gone,
{
    if s.gone < s.unlisted.len() {
        let i = s.unlisted[s.gone];
        if s.bridge.devices[i].retired {
            sweep_stays_put(SyncView { bridge: s.bridge.delisted(i), gone: s.gone + 1, ..s });
        }
    }
}

/// A new device that could be registered is subscribed to and then asked for its
/// state, whatever comes of the subscription. One that could not is not.
pub proof fn registered_devices_are_asked_for_their_state(
    s: SyncView,
    reply: ReplyView,
    next: ReplyView,
)
    requires
        s.wf(),
        s.stage is Registering,
    ensures
        ({
            let entry = s.fresh[s.next];
            let first = s.step(reply);
            let second = first.0.step(next);
            if reply is Failed {
                &&& !(first.1 is SubscribeCommands)
                &&& !(first.1 is FetchState)
                &&& !(first.1 is Publish)
            } else {
                &&& first.1 == (ActionView::SubscribeCommands {
                    hc_id: "yolink_"@ + entry.device_id@,
                })
                &&& second.1 == (ActionView::FetchState { device: entry })
                &&& second.0.stage is Fetching
                &&& second.0.next == s.next
                &&& second.0.fresh == s.fresh
                &&& second.0.bridge == s.bridge
            }
        }),
{
    visit_registers_the_current_entry(s.past_current());
}

/// A new device is announced as it answers: its availability is what `online`
/// says, or else that it is reachable, and without an answer that it is not.
/// Then comes the full state that the answer shows for its kind in the bridge's
/// unit, if it shows one, and nothing otherwise.
pub proof fn new_devices_are_announced_as_they_answer(
    s: SyncView,
    kind: DeviceKind,
    reply: ReplyView,
    next: ReplyView,
)
    requires
        s.wf(),
        s.stage is Fetching,
        kind.is_of_type(s.fresh[s.next].device_type@),
    ensures
        ({
            let hc_id = "yolink_"@ + s.fresh[s.next].device_id@;
            let first = s.step(reply);
            let second = first.0.step(next);
            match reply {
                ReplyView::State(data) => {
                    &&& first.1 == ActionView::Publish(
                        PublicationView::Availability {
                            hc_id,
                            online: bridging::answers_online(data),
                        },
                    )
                    &&& match kind.shown_state(data, s.bridge.temp_unit) {
                        Some(state) => second.1 == ActionView::Publish(
                            PublicationView::State { hc_id, state },
                        ),
                        None => !(second.1 is Publish),
                    }
                },
                _ => {
                    &&& first.1 == ActionView::Publish(
                        PublicationView::Availability { hc_id, online: false },
                    )
                    &&& !(second.1 is Publish)
                },
            }
        }),
{
    naming::bridged_types_have_bridged_kinds(kind, s.fresh[s.next].device_type@);
    visit_registers_the_current_entry(s.step(reply).0.with_current_added());
}

/// Whether a reply completes the registration of a device: a known one was
/// registered again, or a new one was announced.
pub open spec fn registration_completed(
    bridge: BridgeView,
    fresh: Seq<DeviceInfo>,
    replies: Seq<ReplyView>,
    k: int,
    id: Seq<char>,
) -> bool {
    let s = after(bridge, fresh, replies.take(k));
    &&& 0 <= k < replies.len()
    &&& s.current().device_id@ == id
    &&& match s.stage {
        SyncStageView::Reregistering(_) => !(replies[k] is Failed),
        SyncStageView::Announcing(state) => state is None,
        SyncStageView::Showing => true,
        _ => false,
    }
}

/// A device whose registration was completed during a sync is found, from then
/// on to the end of the sync, with its entry on the list and the kind of its
/// type. The list names each device once.
pub proof fn completed_registrations_bring_the_entry_in(
    bridge: BridgeView,
    fresh: Seq<DeviceInfo>,
    replies: Seq<ReplyView>,
    k: int,
    id: Seq<char>,
    kind: DeviceKind,
)
    requires
        bridge.wf(),
        lists_each_once(fresh),
        registration_completed(bridge, fresh, replies, k, id),
        kind.is_of_type(
            fresh[after(bridge, fresh, replies.take(k)).next].device_type@,
        ),
    ensures
        ({
            let entry = fresh[after(bridge, fresh, replies.take(k)).next];
            let found = after(bridge, fresh, replies).bridge.found(id);
            &&& found is Some
            &&& found->0.info == entry
            &&& found->0.kind == kind
            &&& found->0.hc_id == "yolink_"@ + id
            &&& !found->0.retired
        }),
{
    let s = after(bridge, fresh, replies.take(k));
    let upto = replies.take(k + 1);
    reached_tracks(bridge, fresh, replies.take(k));
    naming::bridged_types_have_bridged_kinds(kind, fresh[s.next].device_type@);
    entries_are_listed(fresh, s.next);
    assert forall|j: int| 0 <= j < fresh.len() && j != s.next implies !(#[trigger] is_entry_of(
        fresh,
        j,
        id,
    )) by {
        assert(fresh[s.next].device_id@ == id);
    }
    assert(upto.drop_last() =~= replies.take(k));
    assert(upto.last() == replies[k]);
    assert(fresh.take(s.next + 1).drop_last() =~= fresh.take(s.next));
    assert(fresh.take(s.next + 1).last() == s.current());
    reached_tracks(bridge, fresh, upto);
    match s.stage {
        SyncStageView::Reregistering(i) => {
            visit_leaves_others(s.with_current_refreshed(i), id);
        },
        _ => {
            visit_leaves_others(s.with_current_added(), id);
        },
    }
    reached_leaves_earlier(bridge, fresh, replies, k + 1, id);
    reached_tracks(bridge, fresh, replies);
}

/// Whether the devices that are still to be removed are found where they are,
/// each of them once.
spec fn pending_are_found(s: SyncView, first: int) -> bool {
    &&& forall|k: int|
        first <= k < s.unlisted.len() ==> {
            let i = #[trigger] s.unlisted[k];
            &&& 0 <= i < s.bridge.devices.len()
            &&& s.bridge.index.contains_key(s.bridge.devices[i].info.device_id@)
            &&& s.bridge.index[s.bridge.devices[i].info.device_id@] == i
        }
    &&& forall|j: int, k: int|
        0 <= j < k < s.unlisted.len() ==> #[trigger] s.unlisted[j] < #[trigger] s.unlisted[k]
}

/// The unlisted positions come in order, and each is where its ID is found.
proof fn unlisted_positions_are_found(bridge: BridgeView, seen: Set<Seq<char>>, count: int)
    requires
        0 <= count <= bridge.devices.len(),
    ensures
        ({
            let unlisted = inventory::unlisted_positions(bridge, seen, count);
            &&& forall|k: int|
                0 <= k < unlisted.len() ==> {
                    let i = #[trigger] unlisted[k];
                    &&& 0 <= i < count
                    &&& bridge.index.contains_key(bridge.devices[i].info.device_id@)
                    &&& bridge.index[bridge.devices[i].info.device_id@] == i
                }
            &&& forall|j: int, k: int|
                0 <= j < k < unlisted.len() ==> #[trigger] unlisted[j] < #[trigger] unlisted[k]
        }),
    decreases count,
{
    if count > 0 {
        unlisted_positions_are_found(bridge, seen, count - 1);
        let before = inventory::unlisted_positions(bridge, seen, count - 1);
        let all = inventory::unlisted_positions(bridge, seen, count);
        assert forall|k: int| 0 <= k < before.len() implies all[k] == before[k] by {}
    }
}

/// What a sweep asks for: the removal of the next device that is still to be
/// removed, under its HomeCore ID, or nothing if there is none.
proof fn sweep_removes_the_next(s: SyncView)
    requires
        s.bridge.wf(),
        0 <= s.gone <= s.unlisted.len(),
        pending_are_found(s, s.gone),
    ensures
        s.gone == s.unlisted.len() ==> s.sweep().1 is Finish && s.sweep().0.bridge == s.bridge
            && s.sweep().0.stage is Finished,
        s.gone < s.unlisted.len() ==> {
            let i = s.unlisted[s.gone];
            let id = s.bridge.devices[i].info.device_id@;
            let now = s.sweep().0;
            &&& s.sweep().1 == (ActionView::Unregister { hc_id: "yolink_"@ + id })
            &&& now.stage == SyncStageView::Unregistering(i)
            &&& now.bridge.devices == s.bridge.devices
            &&& now.bridge.index == s.bridge.index.remove(id)
            &&& now.gone == s.gone
            &&& now.unlisted == s.unlisted
            &&& pending_are_found(now, now.gone + 1)
        },
{
    if s.gone < s.unlisted.len() {
        let i = s.unlisted[s.gone];
        let id = s.bridge.devices[i].info.device_id@;
        let now = s.sweep().0;
        assert forall|k: int| now.gone + 1 <= k < now.unlisted.len() implies {
            let j = #[trigger] now.unlisted[k];
            &&& 0 <= j < now.bridge.devices.len()
            &&& now.bridge.index.contains_key(now.bridge.devices[j].info.device_id@)
            &&& now.bridge.index[now.bridge.devices[j].info.device_id@] == j
        } by {
            assert(s.unlisted[s.gone] < s.unlisted[k]);
        }
    }
}

/// Where a sync is in its sweep tells what is still to be removed.
spec fn sweeps_in_order(s: SyncView) -> bool {
    s.stage is Unregistering ==> pending_are_found(s, s.gone + 1)
}

/// Going through the list gets to the sweep in order.
proof fn visit_sweeps_in_order(s: SyncView)
    requires
        s.bridge.wf(),
        0 <= s.next <= s.fresh.len(),
    ensures
        sweeps_in_order(s.visit().0),
    decreases s.fresh.len() - s.next,
{
    if s.next >= s.fresh.len() {
        let count = s.bridge.devices.len() as int;
        let unlisted = inventory::unlisted_positions(s.bridge, s.seen, count);
        unlisted_positions_are_found(s.bridge, s.seen, count);
        sweep_removes_the_next(SyncView { unlisted, gone: 0, ..s });
    } else {
        match s.current_kind() {
            None => {
                visit_sweeps_in_order(s.past_current());
            },
            Some(kind) => {
                let id = s.current().device_id@;
                let noted = SyncView { seen: s.seen.insert(id), ..s };
                if s.bridge.index.contains_key(id) {
                    let i = s.bridge.index[id];
                    if !inventory::needs_reregister(s.bridge.devices[i], s.current(), kind) {
                        visit_sweeps_in_order(noted.with_current_refreshed(i));
                    }
                }
            },
        }
    }
}

/// After the removal of a device, or its failure, the others are still to be
/// removed as before.
proof fn removals_leave_the_pending(s: SyncView, i: int)
    requires
        s.wf(),
        sweeps_in_order(s),
        s.stage == SyncStageView::Unregistering(i),
    ensures
        ({
            let back = SyncView { bridge: s.bridge.relisted(i), gone: s.gone + 1, ..s };
            let off = SyncView { bridge: s.bridge.with_retired(i), gone: s.gone + 1, ..s };
            &&& back.bridge.wf()
            &&& off.bridge.wf()
            &&& pending_are_found(back, back.gone)
            &&& pending_are_found(off, off.gone)
        }),
{
    let back = SyncView { bridge: s.bridge.relisted(i), gone: s.gone + 1, ..s };
    let off = SyncView { bridge: s.bridge.with_retired(i), gone: s.gone + 1, ..s };
    let id = s.bridge.devices[i].info.device_id@;
    assert forall|k: int| s.gone + 1 <= k < s.unlisted.len() implies {
        let j = #[trigger] s.unlisted[k];
        &&& s.bridge.devices[j].info.device_id@ != id
        &&& j != i
    } by {
        assert(s.unlisted[s.gone] < s.unlisted[k]);
        assert(s.bridge.index.contains_key(s.bridge.devices[s.unlisted[k]].info.device_id@));
    }
}

/// Every point that a sync reaches sweeps in order.
proof fn reached_sweeps_in_order(
    bridge: BridgeView,
    fresh: Seq<DeviceInfo>,
    replies: Seq<ReplyView>,
)
    requires
        bridge.wf(),
    ensures
        sweeps_in_order(after(bridge, fresh, replies)),
    decreases replies.len(),
{
    if replies.len() == 0 {
        visit_sweeps_in_order(SyncView::start(bridge, fresh));
    } else {
        let init = replies.drop_last();
        reached_sweeps_in_order(bridge, fresh, init);
        reached_tracks(bridge, fresh, init);
        let s = after(bridge, fresh, init);
        match s.stage {
            SyncStageView::Reregistering(i) => {
                visit_sweeps_in_order(s.past_current());
                visit_sweeps_in_order(s.with_current_refreshed(i));
            },
            SyncStageView::Registering => {
                visit_sweeps_in_order(s.past_current());
            },
            SyncStageView::Announcing(_) => {
                visit_sweeps_in_order(s.with_current_added());
            },
            SyncStageView::Showing => {
                visit_sweeps_in_order(s.with_current_added());
            },
            SyncStageView::Unregistering(i) => {
                removals_leave_the_pending(s, i);
                sweep_removes_the_next(
                    SyncView { bridge: s.bridge.relisted(i), gone: s.gone + 1, ..s },
                );
                sweep_removes_the_next(
                    SyncView { bridge: s.bridge.with_retired(i), gone: s.gone + 1, ..s },
                );
            },
            _ => {},
        }
    }
}

/// A device whose removal is replied to is gone if it worked: found no more, and
/// retired. If it failed, the device is found again, exactly as it was.
pub proof fn removals_retire_the_device(
    bridge: BridgeView,
    fresh: Seq<DeviceInfo>,
    replies: Seq<ReplyView>,
    reply: ReplyView,
    i: int,
)
    requires
        bridge.wf(),
        after(bridge, fresh, replies).stage == SyncStageView::Unregistering(i),
    ensures
        ({
            let s = after(bridge, fresh, replies);
            let device = s.bridge.devices[i];
            let id = device.info.device_id@;
            let now = s.step(reply).0.bridge;
            &&& s.bridge.found(id) is None
            &&& if reply is Failed {
                now.found(id) == Some(device)
            } else {
                now.found(id) is None && now.devices[i].retired
            }
        }),
{
    let s = after(bridge, fresh, replies);
    let id = s.bridge.devices[i].info.device_id@;
    reached_tracks(bridge, fresh, replies);
    reached_sweeps_in_order(bridge, fresh, replies);
    removals_leave_the_pending(s, i);
    let back = SyncView { bridge: s.bridge.relisted(i), gone: s.gone + 1, ..s };
    let off = SyncView { bridge: s.bridge.with_retired(i), gone: s.gone + 1, ..s };
    sweep_removes_the_next(back);
    sweep_removes_the_next(off);
    if s.gone + 1 < s.unlisted.len() {
        let j = s.unlisted[s.gone + 1];
        assert(s.unlisted[s.gone] < s.unlisted[s.gone + 1]);
        assert(s.bridge.index.contains_key(s.bridge.devices[j].info.device_id@));
    }
}

/// A device that could be found is lost to a sync only when the sync asks for
/// its removal from HomeCore, under its HomeCore ID.
pub proof fn devices_are_lost_only_by_removal(
    bridge: BridgeView,
    fresh: Seq<DeviceInfo>,
    replies: Seq<ReplyView>,
    reply: ReplyView,
    id: Seq<char>,
)
    requires
        bridge.wf(),
        after(bridge, fresh, replies).bridge.index.contains_key(id),
        !after(bridge, fresh, replies).step(reply).0.bridge.index.contains_key(id),
    ensures
        after(bridge, fresh, replies).step(reply).1 == (ActionView::Unregister {
            hc_id: "yolink_"@ + id,
        }),
{
    let s = after(bridge, fresh, replies);
    reached_tracks(bridge, fresh, replies);
    reached_sweeps_in_order(bridge, fresh, replies);
    match s.stage {
        SyncStageView::Reregistering(i) => {
            visit_loses_only_by_removal(s.past_current(), id);
            visit_loses_only_by_removal(s.with_current_refreshed(i), id);
        },
        SyncStageView::Registering => {
            visit_loses_only_by_removal(s.past_current(), id);
        },
        SyncStageView::Announcing(_) => {
            visit_loses_only_by_removal(s.with_current_added(), id);
        },
        SyncStageView::Showing => {
            visit_loses_only_by_removal(s.with_current_added(), id);
        },
        SyncStageView::Unregistering(i) => {
            removals_leave_the_pending(s, i);
            sweep_removes_the_next(
                SyncView { bridge: s.bridge.relisted(i), gone: s.gone + 1, ..s },
            );
            sweep_removes_the_next(
                SyncView { bridge: s.bridge.with_retired(i), gone: s.gone + 1, ..s },
            );
        },
        _ => {},
    }
}

/// Likewise, the way through the list, or what is left of it, loses a device only
/// by asking for its removal.
pub proof fn visit_loses_only_by_removal(s: SyncView, id: Seq<char>)
    requires
        s.bridge.wf(),
        0 <= s.next <= s.fresh.len(),
        s.bridge.index.contains_key(id),
    ensures
        !s.visit().0.bridge.index.contains_key(id) ==> s.visit().1 == (ActionView::Unregister {
            hc_id: "yolink_"@ + id,
        }),
    decreases s.fresh.len() - s.next,
{
    if s.next >= s.fresh.len() {
        let count = s.bridge.devices.len() as int;
        let unlisted = inventory::unlisted_positions(s.bridge, s.seen, count);
        unlisted_positions_are_found(s.bridge, s.seen, count);
        sweep_removes_the_next(SyncView { unlisted, gone: 0, ..s });
    } else {
        match s.current_kind() {
            None => {
                visit_loses_only_by_removal(s.past_current(), id);
            },
            Some(kind) => {
                let own = s.current().device_id@;
                let noted = SyncView { seen: s.seen.insert(own), ..s };
                if s.bridge.index.contains_key(own) {
                    let i = s.bridge.index[own];
                    if !inventory::needs_reregister(s.bridge.devices[i], s.current(), kind) {
                        visit_loses_only_by_removal(noted.with_current_refreshed(i), id);
                    }
                }
            },
        }
    }
}

/// An entry that is passed over without asking for anything is in the bridge
/// afterwards.
proof fn visit_brings_entries_in(s: SyncView, p: int)
    requires
        s.bridge.wf(),
        lists_each_once(s.fresh),
        0 <= s.next <= p < s.fresh.len(),
        s.seen == listed(s.fresh.take(s.next)),
        DeviceKind::bridged_type(s.fresh[p].device_type@) is Some,
    ensures
        p < s.visit().0.next ==> s.visit().0.bridge.found(s.fresh[p].device_id@) == Some(
            DeviceView::bridged(
                s.fresh[p],
                DeviceKind::bridged_type(s.fresh[p].device_type@)->0,
            ),
        ),
    decreases s.fresh.len() - s.next,
{
    assert(s.fresh.take(s.next + 1).drop_last() =~= s.fresh.take(s.next));
    assert(s.fresh.take(s.next + 1).last() == s.current());
    match s.current_kind() {
        None => {
            visit_brings_entries_in(s.past_current(), p);
        },
        Some(kind) => {
            let own = s.current().device_id@;
            let noted = SyncView { seen: s.seen.insert(own), ..s };
            if s.bridge.index.contains_key(own) {
                let i = s.bridge.index[own];
                if !inventory::needs_reregister(s.bridge.devices[i], s.current(), kind) {
                    let next = noted.with_current_refreshed(i);
                    assert(next.bridge.wf());
                    if s.next < p {
                        visit_brings_entries_in(next, p);
                    } else {
                        entries_are_listed(s.fresh, p);
                        visit_leaves_others(next, own);
                        visit_stays_in_list(next);
                        assert forall|j: int|
                            next.next <= j < next.visit().0.next implies !(#[trigger] is_entry_of(
                            s.fresh,
                            j,
                            own,
                        )) by {
                            assert(s.fresh[p].device_id@ == own);
                        }
                    }
                }
            }
        },
    }
}

/// Going through the list does not leave it.
proof fn visit_stays_in_list(s: SyncView)
    requires
        s.bridge.wf(),
        0 <= s.next <= s.fresh.len(),
    ensures
        s.visit().0.next <= s.fresh.len(),
{
    let plain = SyncView { unlisted: Seq::empty(), gone: 0, ..s };
    inventory::visit_keeps_wf(plain);
    visits_agree(s, plain);
}

/// How far the list is gone through does not depend on an earlier sweep.
proof fn visits_agree(a: SyncView, b: SyncView)
    requires
        b == (SyncView { unlisted: b.unlisted, gone: b.gone, ..a }),
    ensures
        a.visit().0.next == b.visit().0.next,
        a.visit().0.fresh == b.visit().0.fresh,
        b.visit().0.fresh == b.fresh,
    decreases a.fresh.len() - a.next,
{
    if a.next >= a.fresh.len() {
        let count = a.bridge.devices.len() as int;
        let unlisted = inventory::unlisted_positions(a.bridge, a.seen, count);
        let swept = SyncView { unlisted, gone: 0, ..a };
        assert(swept == (SyncView { unlisted, gone: 0, ..b }));
        sweep_keeps_the_list(swept);
    } else {
        match a.current_kind() {
            None => {
                visits_agree(a.past_current(), b.past_current());
            },
            Some(kind) => {
                let id = a.current().device_id@;
                if a.bridge.index.contains_key(id) {
                    let i = a.bridge.index[id];
                    if !inventory::needs_reregister(a.bridge.devices[i], a.current(), kind) {
                        visits_agree(
                            SyncView { seen: a.seen.insert(id), ..a }.with_current_refreshed(i),
                            SyncView { seen: b.seen.insert(id), ..b }.with_current_refreshed(i),
                        );
                    }
                }
            },
        }
    }
}

/// A sweep keeps to its list.
proof fn sweep_keeps_the_list(s: SyncView)
    ensures
        s.sweep().0.fresh == s.fresh,
    decreases s.unlisted.len() - s.gone,
{
    if s.gone < s.unlisted.len() {
        let i = s.unlisted[s.gone];
        if s.bridge.devices[i].retired {
            sweep_keeps_the_list(SyncView { bridge: s.bridge.delisted(i), gone: s.gone + 1, ..s });
        }
    }
}

/// Whether some reply said that the registration of a device failed.
pub open spec fn some_registration_failed(
    bridge: BridgeView,
    fresh: Seq<DeviceInfo>,
    replies: Seq<ReplyView>,
    id: Seq<char>,
) -> bool {
    exists|k: int| #[trigger] registration_failed(bridge, fresh, replies, k, id)
}

/// Every listed device that a sync is past is found with its entry and the kind
/// of its type, unless its own registration failed; what else failed does not
/// matter. When the sync is over, it is past all of them. The list names each
/// device once.
pub proof fn listed_devices_are_found_with_their_entry(
    bridge: BridgeView,
    fresh: Seq<DeviceInfo>,
    replies: Seq<ReplyView>,
    p: int,
    kind: DeviceKind,
)
    requires
        bridge.wf(),
        lists_each_once(fresh),
        0 <= p < fresh.len(),
        kind.is_of_type(fresh[p].device_type@),
        !(kind is Hub || kind is Unknown),
    ensures
        ({
            let s = after(bridge, fresh, replies);
            let found = s.bridge.found(fresh[p].device_id@);
            &&& s.stage is Finished ==> p < s.next
            &&& p < s.next && !some_registration_failed(
                bridge,
                fresh,
                replies,
                fresh[p].device_id@,
            ) ==> {
                &&& found is Some
                &&& found->0.info == fresh[p]
                &&& found->0.kind == kind
                &&& found->0.hc_id == "yolink_"@ + fresh[p].device_id@
                &&& !found->0.retired
            }
        }),
    decreases replies.len(),
{
    let id = fresh[p].device_id@;
    let now = after(bridge, fresh, replies);
    naming::bridged_types_have_bridged_kinds(kind, fresh[p].device_type@);
    reached_tracks(bridge, fresh, replies);
    entries_are_listed(fresh, p);
    assert forall|j: int| 0 <= j < fresh.len() && j != p implies !(#[trigger] is_entry_of(
        fresh,
        j,
        id,
    )) by {
        assert(fresh[p].device_id@ == id);
    }
    if replies.len() == 0 {
        assert(fresh.take(0) =~= Seq::empty());
        visit_brings_entries_in(SyncView::start(bridge, fresh), p);
    } else {
        let init = replies.drop_last();
        let last = replies.len() - 1;
        let s = after(bridge, fresh, init);
        reached_tracks(bridge, fresh, init);
        listed_devices_are_found_with_their_entry(bridge, fresh, init, p, kind);
        assert(replies.take(last) =~= init);
        if some_registration_failed(bridge, fresh, init, id) {
            let k = choose|k: int| #[trigger] registration_failed(bridge, fresh, init, k, id);
            assert(init.take(k) =~= replies.take(k));
            assert(registration_failed(bridge, fresh, replies, k, id));
        }
        step_leaves_others(
            s,
            replies.last(),
            id,
            kept(bridge, fresh, init),
            smooth(bridge, fresh, init),
        );
        if !is_sweeping(s.stage) {
            assert(fresh.take(s.next + 1).drop_last() =~= fresh.take(s.next));
            assert(fresh.take(s.next + 1).last() == s.current());
            if s.next < p {
                match s.stage {
                    SyncStageView::Reregistering(i) => {
                        visit_brings_entries_in(s.past_current(), p);
                        visit_brings_entries_in(s.with_current_refreshed(i), p);
                    },
                    SyncStageView::Registering => {
                        visit_brings_entries_in(s.past_current(), p);
                    },
                    SyncStageView::Announcing(_) => {
                        visit_brings_entries_in(s.with_current_added(), p);
                    },
                    SyncStageView::Showing => {
                        visit_brings_entries_in(s.with_current_added(), p);
                    },
                    _ => {},
                }
            } else if s.next == p {
                if replies.last() is Failed && (s.stage is Registering
                    || s.stage is Reregistering) {
                    assert(registration_failed(bridge, fresh, replies, last, id));
                }
                match s.stage {
                    SyncStageView::Reregistering(i) => {
                        visit_leaves_others(s.with_current_refreshed(i), id);
                    },
                    SyncStageView::Announcing(_) => {
                        visit_leaves_others(s.with_current_added(), id);
                    },
                    SyncStageView::Showing => {
                        visit_leaves_others(s.with_current_added(), id);
                    },
                    _ => {},
                }
            }
        }
    }
}

} // verus!
