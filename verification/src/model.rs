//! The mathematical model of a display-server session: the topology the
//! server holds (screens, roots, window trees), per-window state (geometry
//! attributes, transient-parent hint, name), installed event masks, the queue
//! of pending notifications, and the log of requests this layer has sent.
//!
//! Every executable method of [`crate::xwrap::XWrap`] is specified as a pure
//! transition or observation on this model.

use vstd::prelude::*;

use crate::types::Action;
use crate::types::Attributes;
use crate::types::ConfigureNotice;
use crate::types::Event;
use crate::types::Screen;
use crate::types::Window;
use crate::types::WindowHandle;
use crate::types::WindowChanges;
use crate::types::CONFIGURE_NOTIFY;
use crate::types::GEOMETRY_UNLOCK;
use crate::types::ROOT_EVENT_MASK;
use crate::types::STRUCTURE_NOTIFY_MASK;

verus! {

/// The server-side record of one window: under which root it sits, its
/// current attributes, its transient-parent hint, and its name property.
#[verifier::ext_equal]
pub struct EntryView {
    pub handle: u64,
    pub root: u64,
    pub attrs: Attributes,
    pub transient_for: Option<u64>,
    pub name: Option<Seq<char>>,
}

/// The whole session: topology, window records, installed event masks,
/// pending notifications, and the log of requests sent so far.
#[verifier::ext_equal]
pub struct SessionView {
    pub screens: Seq<Screen>,
    pub entries: Seq<EntryView>,
    pub subs: Seq<(u64, i64)>,
    pub pending: Seq<Event>,
    pub actions: Seq<Action>,
}

/// The session as it stands right after the connection is opened: nothing
/// enumerated, nothing subscribed, nothing sent.
pub open spec fn empty_session() -> SessionView {
    SessionView {
        screens: Seq::empty(),
        entries: Seq::empty(),
        subs: Seq::empty(),
        pending: Seq::empty(),
        actions: Seq::empty(),
    }
}

/// The name property a window record holds for an optional owned name.
pub open spec fn opt_name_view(n: Option<String>) -> Option<Seq<char>> {
    match n {
        Some(s) => Some(s@),
        None => None,
    }
}

/// The root windows of the session, one per screen, in screen order.
pub open spec fn roots_of(v: SessionView) -> Seq<u64> {
    v.screens.map_values(|s: Screen| s.root)
}

/// Well-formedness: roots, window handles and subscription keys are each
/// unique, and every window record sits under a known root.
pub open spec fn wf(v: SessionView) -> bool {
    &&& forall|i: int, j: int|
        0 <= i < j < v.screens.len() ==> v.screens[i].root != v.screens[j].root
    &&& forall|i: int, j: int|
        0 <= i < j < v.entries.len() ==> v.entries[i].handle != v.entries[j].handle
    &&& forall|i: int| 0 <= i < v.entries.len() ==> roots_of(v).contains(#[trigger] v.entries[i].root)
    &&& forall|i: int, j: int| 0 <= i < j < v.subs.len() ==> v.subs[i].0 != v.subs[j].0
}

/// Whether the server knows a window under handle `h`.
pub open spec fn live(v: SessionView, h: u64) -> bool {
    exists|i: int| 0 <= i < v.entries.len() && #[trigger] v.entries[i].handle == h
}

/// The index of the record of window `h`; meaningful only when `live`.
pub open spec fn entry_index(v: SessionView, h: u64) -> int {
    choose|i: int| 0 <= i < v.entries.len() && #[trigger] v.entries[i].handle == h
}

/// The record of window `h`; meaningful only when `live`.
pub open spec fn entry_of(v: SessionView, h: u64) -> EntryView {
    v.entries[entry_index(v, h)]
}

/// The attributes of window `h`; meaningful only when `live`.
pub open spec fn attrs_of(v: SessionView, h: u64) -> Attributes {
    entry_of(v, h).attrs
}

/// The transient-parent hint of window `h`; meaningful only when `live`.
pub open spec fn transient_of(v: SessionView, h: u64) -> Option<u64> {
    entry_of(v, h).transient_for
}

/// The name property of window `h`; meaningful only when `live`.
pub open spec fn name_of(v: SessionView, h: u64) -> Option<Seq<char>> {
    entry_of(v, h).name
}

/// Whether an event mask has been installed on window `w`.
pub open spec fn subscribed(v: SessionView, w: u64) -> bool {
    exists|i: int| 0 <= i < v.subs.len() && #[trigger] v.subs[i].0 == w
}

/// The index of the subscription for `w`; meaningful only when `subscribed`.
pub open spec fn sub_index(v: SessionView, w: u64) -> int {
    choose|i: int| 0 <= i < v.subs.len() && #[trigger] v.subs[i].0 == w
}

/// The event mask installed on `w`, if any.
pub open spec fn mask_of(v: SessionView, w: u64) -> Option<i64> {
    if subscribed(v, w) {
        Some(v.subs[sub_index(v, w)].1)
    } else {
        None
    }
}

/// The handles, among the first `n` window records, of the windows sitting
/// under `root`, in record order.
pub open spec fn children_upto(entries: Seq<EntryView>, root: u64, n: int) -> Seq<u64>
    decreases n,
{
    if n <= 0 {
        Seq::empty()
    } else {
        children_upto(entries, root, n - 1) + if entries[n - 1].root == root {
            seq![entries[n - 1].handle]
        } else {
            Seq::empty()
        }
    }
}

/// The window tree under `root`: the handles of the records sitting under
/// it, in record order.
pub open spec fn children_of(v: SessionView, root: u64) -> Seq<u64> {
    children_upto(v.entries, root, v.entries.len() as int)
}

/// The concatenation of the trees under the first `n` roots.
pub open spec fn windows_upto(v: SessionView, n: int) -> Seq<u64>
    decreases n,
{
    if n <= 0 {
        Seq::empty()
    } else {
        windows_upto(v, n - 1) + children_of(v, roots_of(v)[n - 1])
    }
}

/// Every window of the session: the trees under all roots, concatenated in
/// root order.
pub open spec fn all_windows(v: SessionView) -> Seq<u64> {
    windows_upto(v, v.screens.len() as int)
}

/// The configure-request payload for a window model value: its geometry,
/// with the stacking fields left locked.
pub open spec fn changes_of(w: Window) -> WindowChanges {
    WindowChanges {
        x: w.x,
        y: w.y,
        width: w.width,
        height: w.height,
        border_width: w.border,
        sibling: 0u64,
        stack_mode: 0i32,
    }
}

/// The synthetic structure-change notification for handle `h` carrying the
/// geometry of `w`: non-propagating, addressed to the window itself.
pub open spec fn notice_of(h: u64, w: Window) -> ConfigureNotice {
    ConfigureNotice {
        kind: CONFIGURE_NOTIFY,
        event: h,
        window: h,
        x: w.x,
        y: w.y,
        width: w.width,
        height: w.height,
        border_width: w.border,
        above: 0u64,
        override_redirect: 0i32,
    }
}

/// The attributes of a window after a configure request built from `w`: the
/// geometry fields are replaced, the map state is untouched.
pub open spec fn configured_attrs(a: Attributes, w: Window) -> Attributes {
    Attributes {
        x: w.x,
        y: w.y,
        width: w.width,
        height: w.height,
        border_width: w.border,
        map_state: a.map_state,
    }
}

/// The session after a configure request for handle `h` with the geometry of
/// `w`, followed by a round-trip flush: the request and the flush are
/// logged, and, if the window is live, its attributes take the new geometry.
pub open spec fn apply_configure(v: SessionView, h: u64, w: Window) -> SessionView {
    let logged = SessionView {
        actions: v.actions.push(
            Action::Configure { window: h, changes: changes_of(w), unlock: GEOMETRY_UNLOCK },
        ).push(Action::Sync),
        ..v
    };
    if live(v, h) {
        SessionView {
            entries: logged.entries.update(
                entry_index(v, h),
                EntryView { attrs: configured_attrs(attrs_of(v, h), w), ..entry_of(v, h) },
            ),
            ..logged
        }
    } else {
        logged
    }
}

/// Whether the synthetic structure-change notification addressed to `h` is
/// delivered into the pending queue: the window must be live and its
/// installed mask must select structure changes.
pub open spec fn delivers_structure_notify(v: SessionView, h: u64) -> bool {
    live(v, h) && match mask_of(v, h) {
        Some(m) => m & STRUCTURE_NOTIFY_MASK != 0,
        None => false,
    }
}

/// The session after the synthetic structure-change notification for handle
/// `h` with the geometry of `w` is sent: the send is logged, and the
/// notification is queued when the window selected structure changes.
pub open spec fn apply_send_config(v: SessionView, h: u64, w: Window) -> SessionView {
    let logged = SessionView {
        actions: v.actions.push(
            Action::SendEvent {
                window: h,
                propagate: 0i32,
                event_mask: STRUCTURE_NOTIFY_MASK,
                notice: notice_of(h, w),
            },
        ),
        ..v
    };
    if delivers_structure_notify(v, h) {
        SessionView { pending: logged.pending.push(Event::ConfigureNotify(notice_of(h, w))), ..logged }
    } else {
        logged
    }
}

/// The session after the synthetic notification step for a window model
/// value: a no-op for a handle of another backend.
pub open spec fn apply_send_config_window(v: SessionView, w: Window) -> SessionView {
    match w.handle {
        WindowHandle::XlibHandle(h) => apply_send_config(v, h, w),
        WindowHandle::OtherHandle => v,
    }
}

/// The session after the full geometry-change protocol for a window model
/// value: the configure request and flush, then the synthetic notification;
/// a no-op for a handle of another backend.
pub open spec fn apply_update_window(v: SessionView, w: Window) -> SessionView {
    match w.handle {
        WindowHandle::XlibHandle(h) => apply_send_config(apply_configure(v, h, w), h, w),
        WindowHandle::OtherHandle => v,
    }
}

/// The session after an event mask is installed on `w`: the request is
/// logged and the mask replaces (never merges with) any mask installed
/// before.
pub open spec fn apply_subscribe(v: SessionView, w: u64, mask: i64) -> SessionView {
    let logged = SessionView {
        actions: v.actions.push(Action::SelectInput { window: w, mask }),
        ..v
    };
    if subscribed(v, w) {
        SessionView { subs: logged.subs.update(sub_index(v, w), (w, mask)), ..logged }
    } else {
        SessionView { subs: logged.subs.push((w, mask)), ..logged }
    }
}

/// The session after the root interest mask is installed on the first `n`
/// roots, in order.
pub open spec fn apply_init_upto(v: SessionView, n: int) -> SessionView
    decreases n,
{
    if n <= 0 {
        v
    } else {
        apply_subscribe(apply_init_upto(v, n - 1), roots_of(v)[n - 1], ROOT_EVENT_MASK)
    }
}

/// The session after startup initialization: the root interest mask is
/// installed on every root, then the connection is flushed.
pub open spec fn apply_init(v: SessionView) -> SessionView {
    let subscribed_all = apply_init_upto(v, v.screens.len() as int);
    SessionView { actions: subscribed_all.actions.push(Action::Sync), ..subscribed_all }
}

/// The session after the oldest pending notification is retrieved.
pub open spec fn apply_next_event(v: SessionView) -> SessionView {
    SessionView { pending: v.pending.subrange(1, v.pending.len() as int), ..v }
}

/// What a configure request leaves alone and what it changes: only the
/// request log and, when the target is live, the target's geometry
/// attributes; topology, liveness, subscriptions, hints, names and the
/// pending queue are untouched, and well-formedness is preserved.
pub proof fn lemma_configure_frame(v: SessionView, h: u64, w: Window)
    requires
        wf(v),
    ensures
        wf(apply_configure(v, h, w)),
        apply_configure(v, h, w).screens == v.screens,
        apply_configure(v, h, w).subs == v.subs,
        apply_configure(v, h, w).pending == v.pending,
        forall|q: u64| live(apply_configure(v, h, w), q) == live(v, q),
        forall|q: u64| mask_of(apply_configure(v, h, w), q) == mask_of(v, q),
        live(v, h) ==> entry_of(apply_configure(v, h, w), h) == (EntryView {
            attrs: configured_attrs(attrs_of(v, h), w),
            ..entry_of(v, h)
        }),
        forall|q: u64|
            q != h && live(v, q) ==> entry_of(apply_configure(v, h, w), q) == entry_of(v, q),
{
    let v1 = apply_configure(v, h, w);
    if live(v, h) {
        let k = entry_index(v, h);
        assert(0 <= k < v.entries.len() && v.entries[k].handle == h);
        assert(v1.entries =~= v.entries.update(
            k,
            EntryView { attrs: configured_attrs(attrs_of(v, h), w), ..entry_of(v, h) },
        ));
        assert(forall|i: int|
            0 <= i < v1.entries.len() ==> #[trigger] v1.entries[i].handle == v.entries[i].handle
                && v1.entries[i].root == v.entries[i].root);
        assert forall|q: u64| live(v1, q) == live(v, q) by {
            if live(v1, q) {
                let i = entry_index(v1, q);
                assert(v.entries[i].handle == q);
            }
            if live(v, q) {
                let i = entry_index(v, q);
                assert(v1.entries[i].handle == q);
            }
        }
        assert forall|i: int| 0 <= i < v1.entries.len() implies roots_of(v1).contains(
            #[trigger] v1.entries[i].root,
        ) by {
            assert(roots_of(v1) =~= roots_of(v));
            assert(roots_of(v).contains(v.entries[i].root));
        }
        assert(wf(v1));
        lemma_found_entry(v1, h, k);
        assert forall|q: u64| q != h && live(v, q) implies entry_of(v1, q) == entry_of(v, q) by {
            let i = entry_index(v, q);
            assert(v.entries[i].handle == q);
            assert(i != k);
            assert(v1.entries[i] == v.entries[i]);
            lemma_found_entry(v1, q, i);
        }
    } else {
        assert(v1.entries == v.entries);
        assert(roots_of(v1) =~= roots_of(v));
        assert forall|i: int| 0 <= i < v1.entries.len() implies roots_of(v1).contains(
            #[trigger] v1.entries[i].root,
        ) by {
            assert(roots_of(v).contains(v.entries[i].root));
        }
        assert(wf(v1));
    }
    assert forall|q: u64| mask_of(v1, q) == mask_of(v, q) by {
        assert(v1.subs == v.subs);
    }
}

/// What sending the synthetic notification leaves alone and what it
/// changes: only the request log and, when the notification is delivered,
/// the pending queue; topology, window records and subscriptions are
/// untouched, and well-formedness is preserved.
pub proof fn lemma_send_config_frame(v: SessionView, h: u64, w: Window)
    requires
        wf(v),
    ensures
        wf(apply_send_config(v, h, w)),
        apply_send_config(v, h, w).screens == v.screens,
        apply_send_config(v, h, w).entries == v.entries,
        apply_send_config(v, h, w).subs == v.subs,
        forall|q: u64| live(apply_send_config(v, h, w), q) == live(v, q),
        forall|q: u64| live(v, q) ==> entry_of(apply_send_config(v, h, w), q) == entry_of(v, q),
        apply_send_config(v, h, w).pending == if delivers_structure_notify(v, h) {
            v.pending.push(Event::ConfigureNotify(notice_of(h, w)))
        } else {
            v.pending
        },
{
    let v1 = apply_send_config(v, h, w);
    assert(v1.entries == v.entries);
    assert(roots_of(v1) =~= roots_of(v));
    assert forall|i: int| 0 <= i < v1.entries.len() implies roots_of(v1).contains(
        #[trigger] v1.entries[i].root,
    ) by {
        assert(roots_of(v).contains(v.entries[i].root));
    }
    assert(wf(v1));
    assert forall|q: u64| live(v, q) implies entry_of(v1, q) == entry_of(v, q) by {
        let i = entry_index(v, q);
        assert(v.entries[i].handle == q);
        assert(v1.entries[i].handle == q);
        lemma_found_entry(v1, q, i);
    }
}

/// In a well-formed session, a record found at index `i` with handle `h` is
/// the record of `h`: handles are unique, so `entry_index` picks `i`.
pub proof fn lemma_found_entry(v: SessionView, h: u64, i: int)
    requires
        wf(v),
        0 <= i < v.entries.len(),
        v.entries[i].handle == h,
    ensures
        live(v, h),
        entry_index(v, h) == i,
{
    assert(live(v, h));
    let j = entry_index(v, h);
    if j < i {
        assert(v.entries[j].handle != v.entries[i].handle);
    } else if i < j {
        assert(v.entries[i].handle != v.entries[j].handle);
    }
}

/// In a well-formed session, a subscription found at index `i` for window
/// `w` is the subscription of `w`: keys are unique, so `sub_index` picks
/// `i`.
pub proof fn lemma_found_sub(v: SessionView, w: u64, i: int)
    requires
        wf(v),
        0 <= i < v.subs.len(),
        v.subs[i].0 == w,
    ensures
        subscribed(v, w),
        sub_index(v, w) == i,
        mask_of(v, w) == Some(v.subs[i].1),
{
    assert(subscribed(v, w));
    let j = sub_index(v, w);
    if j < i {
        assert(v.subs[j].0 != v.subs[i].0);
    } else if i < j {
        assert(v.subs[i].0 != v.subs[j].0);
    }
}

/// Installing an event mask preserves well-formedness: it touches only the
/// subscription table, replacing under an existing key or adding a fresh
/// one.
pub proof fn lemma_subscribe_wf(v: SessionView, w: u64, mask: i64)
    requires
        wf(v),
    ensures
        wf(apply_subscribe(v, w, mask)),
        apply_subscribe(v, w, mask).screens == v.screens,
        apply_subscribe(v, w, mask).entries == v.entries,
        apply_subscribe(v, w, mask).pending == v.pending,
{
    let v1 = apply_subscribe(v, w, mask);
    assert(v1.screens == v.screens);
    assert(v1.entries == v.entries);
    assert(roots_of(v1) == roots_of(v));
    if subscribed(v, w) {
        let k = sub_index(v, w);
        assert(v.subs[k].0 == w);
        assert forall|i: int, j: int| 0 <= i < j < v1.subs.len() implies v1.subs[i].0
            != v1.subs[j].0 by {
            assert(v1.subs[i].0 == v.subs[i].0);
            assert(v1.subs[j].0 == v.subs[j].0);
        }
    } else {
        assert forall|i: int, j: int| 0 <= i < j < v1.subs.len() implies v1.subs[i].0
            != v1.subs[j].0 by {
            if j == v.subs.len() {
                assert(v1.subs[i].0 == v.subs[i].0);
                assert(v1.subs[j].0 == w);
            }
        }
    }
}

/// What installing a mask does to every window's installed mask: the target
/// takes the new mask, every other window keeps what it had.
pub proof fn lemma_subscribe_mask(v: SessionView, w: u64, mask: i64, q: u64)
    requires
        wf(v),
    ensures
        mask_of(apply_subscribe(v, w, mask), q) == if q == w {
            Some(mask)
        } else {
            mask_of(v, q)
        },
{
    let v1 = apply_subscribe(v, w, mask);
    lemma_subscribe_wf(v, w, mask);
    if subscribed(v, w) {
        let k = sub_index(v, w);
        assert(v.subs[k].0 == w);
        assert(v1.subs[k] == (w, mask));
        if q == w {
            lemma_found_sub(v1, q, k);
        } else {
            if subscribed(v, q) {
                let i = sub_index(v, q);
                assert(v.subs[i].0 == q);
                assert(i != k);
                assert(v1.subs[i] == v.subs[i]);
                lemma_found_sub(v1, q, i);
            } else {
                assert(!subscribed(v1, q)) by {
                    if subscribed(v1, q) {
                        let i = sub_index(v1, q);
                        assert(v1.subs[i].0 == q);
                        assert(i != k);
                        assert(v.subs[i].0 == q);
                    }
                }
            }
        }
    } else {
        let k = v.subs.len() as int;
        assert(v1.subs[k] == (w, mask));
        if q == w {
            lemma_found_sub(v1, q, k);
        } else {
            if subscribed(v, q) {
                let i = sub_index(v, q);
                assert(v.subs[i].0 == q);
                assert(v1.subs[i] == v.subs[i]);
                lemma_found_sub(v1, q, i);
            } else {
                assert(!subscribed(v1, q)) by {
                    if subscribed(v1, q) {
                        let i = sub_index(v1, q);
                        assert(v1.subs[i].0 == q);
                        if i < k {
                            assert(v.subs[i].0 == q);
                        }
                    }
                }
            }
        }
    }
}

} // verus!
