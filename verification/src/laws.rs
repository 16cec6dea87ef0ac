//! The layer's stated guarantees, proved once and for all over the session
//! model: root/screen correspondence, liveness of every enumerated window,
//! the geometry round trip, the exact shape of the geometry-change protocol,
//! event generation for monitored windows, and the masks startup
//! initialization installs.

use vstd::prelude::*;

use crate::model::all_windows;
use crate::model::apply_configure;
use crate::model::apply_init;
use crate::model::apply_init_upto;
use crate::model::apply_update_window;
use crate::model::attrs_of;
use crate::model::changes_of;
use crate::model::children_upto;
use crate::model::children_of;
use crate::model::configured_attrs;
use crate::model::delivers_structure_notify;
use crate::model::entry_of;
use crate::model::lemma_configure_frame;
use crate::model::lemma_found_sub;
use crate::model::lemma_send_config_frame;
use crate::model::lemma_subscribe_mask;
use crate::model::lemma_subscribe_wf;
use crate::model::live;
use crate::model::mask_of;
use crate::model::notice_of;
use crate::model::roots_of;
use crate::model::sub_index;
use crate::model::subscribed;
use crate::model::wf;
use crate::model::windows_upto;
use crate::model::EntryView;
use crate::model::SessionView;
use crate::types::Action;
use crate::types::Event;
use crate::types::Window;
use crate::types::WindowHandle;
use crate::types::GEOMETRY_UNLOCK;
use crate::types::ROOT_EVENT_MASK;
use crate::types::STRUCTURE_NOTIFY_MASK;

verus! {

/// There is exactly one root per screen: the root list has the length of
/// the screen list, and the root at each position is the root of the screen
/// at that position.
pub proof fn lemma_roots_match_screens(v: SessionView)
    ensures
        roots_of(v).len() == v.screens.len(),
        forall|i: int| 0 <= i < v.screens.len() ==> roots_of(v)[i] == v.screens[i].root,
{
}

proof fn lemma_children_upto_live(entries: Seq<EntryView>, root: u64, n: int, i: int)
    requires
        n <= entries.len(),
        0 <= i < children_upto(entries, root, n).len(),
    ensures
        exists|k: int|
            0 <= k < entries.len() && #[trigger] entries[k].handle == children_upto(
                entries,
                root,
                n,
            )[i],
    decreases n,
{
    let s = children_upto(entries, root, n);
    let s0 = children_upto(entries, root, n - 1);
    if n <= 0 {
    } else {
        if i < s0.len() {
            lemma_children_upto_live(entries, root, n - 1, i);
            assert(s[i] == s0[i]);
        } else {
            assert(entries[n - 1].handle == s[i]);
        }
    }
}

proof fn lemma_windows_upto_live(v: SessionView, n: int, i: int)
    requires
        n <= v.screens.len(),
        0 <= i < windows_upto(v, n).len(),
    ensures
        live(v, windows_upto(v, n)[i]),
    decreases n,
{
    if n <= 0 {
    } else {
        let s0 = windows_upto(v, n - 1);
        let c = children_of(v, roots_of(v)[n - 1]);
        if i < s0.len() {
            lemma_windows_upto_live(v, n - 1, i);
            assert(windows_upto(v, n)[i] == s0[i]);
        } else {
            lemma_children_upto_live(
                v.entries,
                roots_of(v)[n - 1],
                v.entries.len() as int,
                i - s0.len(),
            );
            assert(windows_upto(v, n)[i] == c[i - s0.len()]);
        }
    }
}

/// Every window the full enumeration returns is a window the server knows:
/// a subsequent attribute query on it answers from the server's record,
/// never from anything uninitialized; an explicit not-found can arise only
/// once the window has since vanished from the session.
pub proof fn lemma_enumerated_window_is_live(v: SessionView, i: int)
    requires
        0 <= i < all_windows(v).len(),
    ensures
        live(v, all_windows(v)[i]),
{
    lemma_windows_upto_live(v, v.screens.len() as int, i);
}

/// The geometry round trip: after the geometry-change protocol runs for a
/// live window, and absent any other actor, an attribute query on it yields
/// exactly the geometry that was applied, with the map state untouched.
pub proof fn lemma_geometry_round_trip(v: SessionView, w: Window, h: u64)
    requires
        wf(v),
        w.handle == (WindowHandle::XlibHandle(h)),
        live(v, h),
    ensures
        ({
            let post = apply_update_window(v, w);
            &&& live(post, h)
            &&& attrs_of(post, h) == configured_attrs(attrs_of(v, h), w)
            &&& attrs_of(post, h).x == w.x
            &&& attrs_of(post, h).y == w.y
            &&& attrs_of(post, h).width == w.width
            &&& attrs_of(post, h).height == w.height
            &&& attrs_of(post, h).border_width == w.border
        }),
{
    let mid = apply_configure(v, h, w);
    lemma_configure_frame(v, h, w);
    lemma_send_config_frame(mid, h, w);
    assert(live(mid, h));
    assert(entry_of(mid, h) == (EntryView {
        attrs: configured_attrs(attrs_of(v, h), w),
        ..entry_of(v, h)
    }));
}

/// The shape of the geometry-change protocol: for a handle of this backend
/// it sends exactly one configure request, a flush, and exactly one
/// synthetic structure-change notification, in that order, after everything
/// sent before; and the notification carries the same geometry as the
/// request.
pub proof fn lemma_configure_protocol(v: SessionView, w: Window, h: u64)
    requires
        w.handle == (WindowHandle::XlibHandle(h)),
    ensures
        ({
            let post = apply_update_window(v, w);
            let base = v.actions.len() as int;
            &&& post.actions.len() == base + 3
            &&& forall|j: int| 0 <= j < base ==> post.actions[j] == v.actions[j]
            &&& post.actions[base] == (Action::Configure {
                window: h,
                changes: changes_of(w),
                unlock: GEOMETRY_UNLOCK,
            })
            &&& post.actions[base + 1] == Action::Sync
            &&& post.actions[base + 2] == (Action::SendEvent {
                window: h,
                propagate: 0i32,
                event_mask: STRUCTURE_NOTIFY_MASK,
                notice: notice_of(h, w),
            })
            &&& notice_of(h, w).x == changes_of(w).x
            &&& notice_of(h, w).y == changes_of(w).y
            &&& notice_of(h, w).width == changes_of(w).width
            &&& notice_of(h, w).height == changes_of(w).height
            &&& notice_of(h, w).border_width == changes_of(w).border_width
        }),
{
    let mid = apply_configure(v, h, w);
    let post = apply_update_window(v, w);
    assert(mid.actions == v.actions.push(
        Action::Configure { window: h, changes: changes_of(w), unlock: GEOMETRY_UNLOCK },
    ).push(Action::Sync));
    assert(post.actions == mid.actions.push(
        Action::SendEvent {
            window: h,
            propagate: 0i32,
            event_mask: STRUCTURE_NOTIFY_MASK,
            notice: notice_of(h, w),
        },
    ));
}

/// A geometry change on a monitored live window generates an event: when
/// the window's installed mask selects structure changes, the protocol
/// queues exactly one structure-change notification carrying the applied
/// geometry, so a blocked event retrieval has something to return.
pub proof fn lemma_update_generates_event(v: SessionView, w: Window, h: u64, m: i64)
    requires
        wf(v),
        w.handle == (WindowHandle::XlibHandle(h)),
        live(v, h),
        mask_of(v, h) == Some(m),
        m & STRUCTURE_NOTIFY_MASK != 0,
    ensures
        ({
            let post = apply_update_window(v, w);
            &&& post.pending.len() == v.pending.len() + 1
            &&& post.pending.last() == Event::ConfigureNotify(notice_of(h, w))
            &&& forall|j: int| 0 <= j < v.pending.len() ==> post.pending[j] == v.pending[j]
        }),
{
    let mid = apply_configure(v, h, w);
    lemma_configure_frame(v, h, w);
    assert(delivers_structure_notify(mid, h));
    lemma_send_config_frame(mid, h, w);
}

proof fn lemma_init_upto_masks(v: SessionView, n: int, q: u64)
    requires
        wf(v),
        0 <= n <= v.screens.len(),
    ensures
        wf(apply_init_upto(v, n)),
        apply_init_upto(v, n).screens == v.screens,
        apply_init_upto(v, n).entries == v.entries,
        apply_init_upto(v, n).pending == v.pending,
        mask_of(apply_init_upto(v, n), q) == if exists|k: int|
            0 <= k < n && roots_of(v)[k] == q {
            Some(ROOT_EVENT_MASK)
        } else {
            mask_of(v, q)
        },
    decreases n,
{
    if n <= 0 {
    } else {
        lemma_init_upto_masks(v, n - 1, q);
        let prev = apply_init_upto(v, n - 1);
        let r = roots_of(v)[n - 1];
        lemma_subscribe_wf(prev, r, ROOT_EVENT_MASK);
        lemma_subscribe_mask(prev, r, ROOT_EVENT_MASK, q);
        if q == r {
            assert(exists|k: int| 0 <= k < n && roots_of(v)[k] == q) by {
                assert(roots_of(v)[n - 1] == q);
            }
        } else {
            assert((exists|k: int| 0 <= k < n && roots_of(v)[k] == q) == (exists|k: int|
                0 <= k < n - 1 && roots_of(v)[k] == q)) by {
                if exists|k: int| 0 <= k < n && roots_of(v)[k] == q {
                    let k = choose|k: int| 0 <= k < n && roots_of(v)[k] == q;
                    assert(k != n - 1);
                    assert(0 <= k < n - 1 && roots_of(v)[k] == q);
                }
            }
        }
    }
}

/// What startup initialization installs: afterwards every root window has
/// exactly the root interest mask, and every other window keeps the mask it
/// had.
pub proof fn lemma_init_installs_root_masks(v: SessionView, q: u64)
    requires
        wf(v),
    ensures
        roots_of(v).contains(q) ==> mask_of(apply_init(v), q) == Some(ROOT_EVENT_MASK),
        !roots_of(v).contains(q) ==> mask_of(apply_init(v), q) == mask_of(v, q),
{
    let n = v.screens.len() as int;
    lemma_init_upto_masks(v, n, q);
    let upto = apply_init_upto(v, n);
    let post = apply_init(v);
    assert(post.subs == upto.subs);
    assert(post.entries == upto.entries);
    assert(post.screens == upto.screens);
    assert(roots_of(post) == roots_of(upto));
    assert(wf(post));
    if subscribed(upto, q) {
        let k = sub_index(upto, q);
        assert(upto.subs[k].0 == q);
        lemma_found_sub(post, q, k);
    } else {
        assert(!subscribed(post, q)) by {
            if subscribed(post, q) {
                let k = sub_index(post, q);
                assert(post.subs[k].0 == q);
                assert(upto.subs[k].0 == q);
            }
        }
    }
}

} // verus!
