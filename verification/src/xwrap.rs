//! The executable session wrapper. Every method is specified as a pure
//! observation or transition on the session model of [`crate::model`], so
//! the enumeration, introspection, geometry-synchronization and subscription
//! logic is verified against that model.

use vstd::prelude::*;

use crate::model::all_windows;
use crate::model::apply_configure;
use crate::model::apply_init;
use crate::model::apply_init_upto;
use crate::model::apply_next_event;
use crate::model::apply_send_config;
use crate::model::apply_send_config_window;
use crate::model::apply_subscribe;
use crate::model::apply_update_window;
use crate::model::attrs_of;
use crate::model::configured_attrs;
use crate::model::delivers_structure_notify;
use crate::model::entry_of;
use crate::model::lemma_configure_frame;
use crate::model::lemma_send_config_frame;
use crate::model::lemma_subscribe_wf;
use crate::model::children_of;
use crate::model::children_upto;
use crate::model::empty_session;
use crate::model::lemma_found_entry;
use crate::model::lemma_found_sub;
use crate::model::live;
use crate::model::name_of;
use crate::model::roots_of;
use crate::model::subscribed;
use crate::model::transient_of;
use crate::model::wf;
use crate::model::windows_upto;
use crate::model::EntryView;
use crate::model::SessionView;
use crate::protocol::interpret_tree_status;
use crate::protocol::TREE_STATUS_FAILURE;
use crate::protocol::TREE_STATUS_SUCCESS;
use crate::protocol::build_configure_notice;
use crate::protocol::build_window_changes;
use crate::types::Action;
use crate::types::Attributes;
use crate::types::Event;
use crate::types::Screen;
use crate::types::Window;
use crate::types::WindowHandle;
use crate::types::GEOMETRY_UNLOCK;
use crate::types::ROOT_EVENT_MASK;
use crate::types::STRUCTURE_NOTIFY_MASK;

verus! {

/// The server-side record of one window, as the session holds it.
pub struct WindowEntry {
    pub handle: u64,
    pub root: u64,
    pub attrs: Attributes,
    pub transient_for: Option<u64>,
    pub name: Option<String>,
}

impl View for WindowEntry {
    type V = EntryView;

    open spec fn view(&self) -> EntryView {
        EntryView {
            handle: self.handle,
            root: self.root,
            attrs: self.attrs,
            transient_for: self.transient_for,
            name: match self.name {
                Some(s) => Some(s@),
                None => None,
            },
        }
    }
}

/// A display-server session: the connection-side image of the server's
/// topology and window state, the installed event masks, the pending
/// notification queue, and the log of requests sent.
pub struct XWrap {
    screens: Vec<Screen>,
    entries: Vec<WindowEntry>,
    subs: Vec<(u64, i64)>,
    pending: Vec<Event>,
    actions: Vec<Action>,
}

impl View for XWrap {
    type V = SessionView;

    closed spec fn view(&self) -> SessionView {
        SessionView {
            screens: self.screens@,
            entries: self.entries@.map_values(|e: WindowEntry| e@),
            subs: self.subs@,
            pending: self.pending@,
            actions: self.actions@,
        }
    }
}

impl XWrap {
    /// Opens a session: the model starts empty, with nothing enumerated,
    /// subscribed, queued or sent.
    pub fn new() -> (s: XWrap)
        ensures
            s@ == empty_session(),
            wf(s@),
    {
        let s = XWrap {
            screens: Vec::new(),
            entries: Vec::new(),
            subs: Vec::new(),
            pending: Vec::new(),
            actions: Vec::new(),
        };
        proof {
            assert(s@ =~= empty_session());
        }
        s
    }

    /// Finds the index of the record of window `h`, scanning in record
    /// order.
    fn find_entry(&self, h: u64) -> (r: Option<usize>)
        ensures
            match r {
                Some(i) => i < self@.entries.len() && self@.entries[i as int].handle == h,
                None => !live(self@, h),
            },
    {
        let n = self.entries.len();
        for i in 0..n
            invariant
                n == self.entries@.len(),
                forall|j: int| 0 <= j < i ==> #[trigger] self@.entries[j].handle != h,
        {
            if self.entries[i].handle == h {
                return Some(i);
            }
        }
        None
    }

    /// Finds the index of the subscription of window `w`, scanning in table
    /// order.
    fn find_sub(&self, w: u64) -> (r: Option<usize>)
        ensures
            match r {
                Some(i) => i < self@.subs.len() && self@.subs[i as int].0 == w,
                None => !subscribed(self@, w),
            },
    {
        let n = self.subs.len();
        for i in 0..n
            invariant
                n == self.subs@.len(),
                forall|j: int| 0 <= j < i ==> (#[trigger] self@.subs[j]).0 != w,
        {
            if self.subs[i].0 == w {
                return Some(i);
            }
        }
        None
    }

    /// Enumerates all screens of the connection.
    pub fn get_screens(&self) -> (r: Vec<Screen>)
        ensures
            r@ == self@.screens,
    {
        let mut out: Vec<Screen> = Vec::new();
        let n = self.screens.len();
        for i in 0..n
            invariant
                n == self.screens@.len(),
                out@ == self.screens@.subrange(0, i as int),
        {
            out.push(self.screens[i]);
            proof {
                assert(out@ =~= self.screens@.subrange(0, i + 1));
            }
        }
        proof {
            assert(out@ =~= self@.screens);
        }
        out
    }

    /// Enumerates the root windows, one per screen, in screen order.
    pub fn get_roots(&self) -> (r: Vec<u64>)
        ensures
            r@ == roots_of(self@),
    {
        let mut out: Vec<u64> = Vec::new();
        let n = self.screens.len();
        for i in 0..n
            invariant
                n == self.screens@.len(),
                out@.len() == i,
                forall|j: int| 0 <= j < i ==> out@[j] == self.screens@[j].root,
        {
            out.push(self.screens[i].root);
        }
        proof {
            assert(out@ =~= roots_of(self@));
        }
        out
    }

    /// Queries the server-side attributes of a window: the full snapshot if
    /// the server knows the window, an explicit failure if it does not (the
    /// window may have vanished since it was enumerated); never a value
    /// built from anything but the server's record.
    pub fn get_window_attrs(&self, window: u64) -> (r: Result<Attributes, ()>)
        requires
            wf(self@),
        ensures
            match r {
                Ok(a) => live(self@, window) && a == attrs_of(self@, window),
                Err(_) => !live(self@, window),
            },
    {
        match self.find_entry(window) {
            Some(i) => {
                proof {
                    lemma_found_entry(self@, window, i as int);
                }
                Ok(self.entries[i].attrs)
            },
            None => Err(()),
        }
    }

    /// Queries the transient-parent hint of a window: the declared parent if
    /// the server knows the window and the hint is set, absence otherwise.
    pub fn get_transient_for(&self, window: u64) -> (r: Option<u64>)
        requires
            wf(self@),
        ensures
            r == if live(self@, window) {
                transient_of(self@, window)
            } else {
                None::<u64>
            },
    {
        match self.find_entry(window) {
            Some(i) => {
                proof {
                    lemma_found_entry(self@, window, i as int);
                }
                self.entries[i].transient_for
            },
            None => None,
        }
    }

    /// Queries the name property of a window: the name if the server knows
    /// the window and a name is set, absence otherwise.
    pub fn get_window_name(&self, window: u64) -> (r: Option<String>)
        requires
            wf(self@),
        ensures
            match r {
                Some(s) => live(self@, window) && name_of(self@, window) == Some(s@),
                None => !live(self@, window) || name_of(self@, window) is None,
            },
    {
        match self.find_entry(window) {
            Some(i) => {
                proof {
                    lemma_found_entry(self@, window, i as int);
                }
                match &self.entries[i].name {
                    Some(nm) => Some(nm.clone()),
                    None => None,
                }
            },
            None => None,
        }
    }

    /// Whether `root` is the root window of one of the screens.
    fn root_is_known(&self, root: u64) -> (r: bool)
        ensures
            r == roots_of(self@).contains(root),
    {
        let n = self.screens.len();
        for i in 0..n
            invariant
                n == self.screens@.len(),
                forall|j: int| 0 <= j < i ==> #[trigger] self.screens@[j].root != root,
        {
            if self.screens[i].root == root {
                proof {
                    assert(roots_of(self@)[i as int] == root);
                }
                return true;
            }
        }
        proof {
            if roots_of(self@).contains(root) {
                let k = choose|k: int|
                    0 <= k < roots_of(self@).len() && roots_of(self@)[k] == root;
                assert(self.screens@[k].root == root);
            }
        }
        false
    }

    /// Queries the window tree under `root`. The server answers with a
    /// tri-state status; both success variants carry the child list, in
    /// record order, and only failure is an error.
    pub fn get_windows_for_root(&self, root: u64) -> (r: Result<Vec<u64>, String>)
        ensures
            match r {
                Ok(ws) => roots_of(self@).contains(root) && ws@ == children_of(self@, root),
                Err(m) => !roots_of(self@).contains(root) && m@
                    == "Could not load list of windows"@,
            },
    {
        let known = self.root_is_known(root);
        let status: i32 = if known {
            TREE_STATUS_SUCCESS
        } else {
            TREE_STATUS_FAILURE
        };
        let mut ws: Vec<u64> = Vec::new();
        let n = self.entries.len();
        for i in 0..n
            invariant
                n == self.entries@.len(),
                ws@ == children_upto(self@.entries, root, i as int),
        {
            let ghost prev = ws@;
            if self.entries[i].root == root {
                ws.push(self.entries[i].handle);
            }
            proof {
                assert(ws@ =~= prev + if self@.entries[i as int].root == root {
                    seq![self@.entries[i as int].handle]
                } else {
                    Seq::empty()
                });
                assert(ws@ =~= children_upto(self@.entries, root, i as int + 1));
            }
        }
        proof {
            assert(ws@ == children_of(self@, root));
        }
        interpret_tree_status(status, ws)
    }

    /// Enumerates every window of the session: the trees under all roots,
    /// concatenated in root order. A failing root query would abort the
    /// whole enumeration (first error wins); on a well-formed session every
    /// root is known, so enumeration succeeds.
    pub fn get_all_windows(&self) -> (r: Result<Vec<u64>, String>)
        ensures
            r matches Ok(ws) && ws@ == all_windows(self@),
    {
        let roots = self.get_roots();
        let mut all: Vec<u64> = Vec::new();
        let n = roots.len();
        for i in 0..n
            invariant
                n == roots@.len(),
                roots@ == roots_of(self@),
                all@ == windows_upto(self@, i as int),
        {
            let ghost prev = all@;
            match self.get_windows_for_root(roots[i]) {
                Ok(mut ws) => {
                    all.append(&mut ws);
                },
                Err(err) => {
                    proof {
                        assert(roots_of(self@)[i as int] == roots@[i as int]);
                        assert(false);
                    }
                    return Err(err);
                },
            }
            proof {
                assert(all@ =~= windows_upto(self@, i as int + 1));
            }
        }
        proof {
            assert(all@ == all_windows(self@));
        }
        Ok(all)
    }

    /// The log of requests sent to the server so far, oldest first.
    pub fn actions_log(&self) -> (r: &Vec<Action>)
        ensures
            r@ == self@.actions,
    {
        &self.actions
    }

    /// How many notifications are queued and not yet retrieved.
    pub fn pending_count(&self) -> (r: usize)
        ensures
            r == self@.pending.len(),
    {
        self.pending.len()
    }

    /// Installs the event mask `mask` on `window`, replacing (never merging
    /// with) whatever mask was installed before.
    pub fn subscribe_to_event(&mut self, window: u64, mask: i64)
        requires
            wf(old(self)@),
        ensures
            final(self)@ == apply_subscribe(old(self)@, window, mask),
            wf(final(self)@),
    {
        let ghost v0 = self@;
        self.actions.push(Action::SelectInput { window, mask });
        proof {
            assert(self@.subs == v0.subs);
        }
        match self.find_sub(window) {
            Some(i) => {
                proof {
                    lemma_found_sub(v0, window, i as int);
                }
                self.subs.remove(i);
                self.subs.insert(i, (window, mask));
                proof {
                    assert(self@.subs =~= v0.subs.update(i as int, (window, mask)));
                    assert(self@ =~= apply_subscribe(v0, window, mask));
                    lemma_subscribe_wf(v0, window, mask);
                }
            },
            None => {
                self.subs.push((window, mask));
                proof {
                    assert(self@ =~= apply_subscribe(v0, window, mask));
                    lemma_subscribe_wf(v0, window, mask);
                }
            },
        }
    }

    /// Sends the synthetic structure-change notification for a changed
    /// window to the server, addressed to the window itself, non-propagating
    /// and carrying the same geometry as the configure request; clients that
    /// trust only notifications learn their own geometry from it. A no-op
    /// for a handle of another backend.
    pub fn send_config(&mut self, window: &Window)
        requires
            wf(old(self)@),
        ensures
            final(self)@ == apply_send_config_window(old(self)@, *window),
            wf(final(self)@),
    {
        let ghost v0 = self@;
        match window.handle {
            WindowHandle::XlibHandle(handle) => {
                let notice = build_configure_notice(handle, window);
                self.actions.push(
                    Action::SendEvent {
                        window: handle,
                        propagate: 0i32,
                        event_mask: STRUCTURE_NOTIFY_MASK,
                        notice,
                    },
                );
                proof {
                    assert(self@.entries == v0.entries);
                    assert(self@.subs == v0.subs);
                    assert(self@.screens == v0.screens);
                    assert(roots_of(self@) == roots_of(v0));
                    assert(wf(self@));
                }
                let is_live = self.find_entry(handle).is_some();
                let delivers: bool = if is_live {
                    match self.find_sub(handle) {
                        Some(i) => {
                            proof {
                                lemma_found_sub(self@, handle, i as int);
                            }
                            (self.subs[i].1 & STRUCTURE_NOTIFY_MASK) != 0
                        },
                        None => false,
                    }
                } else {
                    false
                };
                proof {
                    if is_live {
                        let k = choose|k: int|
                            0 <= k < self@.entries.len() && self@.entries[k].handle == handle;
                        assert(v0.entries[k].handle == handle);
                        assert(live(v0, handle));
                    }
                    assert(delivers == delivers_structure_notify(v0, handle));
                }
                if delivers {
                    self.pending.push(Event::ConfigureNotify(notice));
                }
                proof {
                    assert(self@ =~= apply_send_config(v0, handle, *window));
                    lemma_send_config_frame(v0, handle, *window);
                }
            },
            WindowHandle::OtherHandle => {
                proof {
                    assert(self@ =~= apply_send_config_window(v0, *window));
                }
            },
        }
    }

    /// Synchronizes a window's server-side geometry with the caller's
    /// model: issues one configure request unlocking exactly position, size
    /// and border width, flushes the connection, and then sends the one
    /// synthetic structure-change notification carrying the same geometry.
    /// A no-op for a handle of another backend.
    pub fn update_window(&mut self, window: &Window)
        requires
            wf(old(self)@),
        ensures
            final(self)@ == apply_update_window(old(self)@, *window),
            wf(final(self)@),
    {
        let ghost v0 = self@;
        match window.handle {
            WindowHandle::XlibHandle(h) => {
                let changes = build_window_changes(window);
                self.actions.push(
                    Action::Configure { window: h, changes, unlock: GEOMETRY_UNLOCK },
                );
                self.actions.push(Action::Sync);
                proof {
                    assert(self@.entries == v0.entries);
                }
                match self.find_entry(h) {
                    Some(i) => {
                        proof {
                            lemma_found_entry(v0, h, i as int);
                        }
                        let mut e = self.entries.remove(i);
                        e.attrs = Attributes {
                            x: window.x,
                            y: window.y,
                            width: window.width,
                            height: window.height,
                            border_width: window.border,
                            map_state: e.attrs.map_state,
                        };
                        self.entries.insert(i, e);
                        proof {
                            assert(self@.entries =~= v0.entries.update(
                                i as int,
                                EntryView {
                                    attrs: configured_attrs(attrs_of(v0, h), *window),
                                    ..entry_of(v0, h)
                                },
                            ));
                            assert(self@ =~= apply_configure(v0, h, *window));
                            lemma_configure_frame(v0, h, *window);
                        }
                    },
                    None => {
                        proof {
                            assert(!live(v0, h));
                            assert(self@ =~= apply_configure(v0, h, *window));
                            lemma_configure_frame(v0, h, *window);
                        }
                    },
                }
                self.send_config(window);
                proof {
                    assert(final(self)@ == apply_update_window(v0, *window));
                }
            },
            WindowHandle::OtherHandle => {
                proof {
                    assert(self@ =~= apply_update_window(v0, *window));
                }
            },
        }
    }

    /// Startup initialization: installs the root interest mask on every
    /// root window, in screen order, then flushes the connection.
    pub fn init(&mut self)
        requires
            wf(old(self)@),
        ensures
            final(self)@ == apply_init(old(self)@),
            wf(final(self)@),
    {
        let roots = self.get_roots();
        let n = roots.len();
        for i in 0..n
            invariant
                n == roots@.len(),
                roots@ == roots_of(old(self)@),
                self@ == apply_init_upto(old(self)@, i as int),
                wf(self@),
        {
            self.subscribe_to_event(roots[i], ROOT_EVENT_MASK);
            proof {
                assert(self@ == apply_init_upto(old(self)@, i as int + 1));
            }
        }
        self.actions.push(Action::Sync);
        proof {
            assert(self@ =~= apply_init(old(self)@));
        }
    }

    /// Retrieves the oldest pending notification. The unverified backend
    /// blocks until the server has queued one; here the queue must already
    /// be non-empty, which models that the call returns only once at least
    /// one event has been generated.
    pub fn get_next_event(&mut self) -> (e: Event)
        requires
            wf(old(self)@),
            old(self)@.pending.len() > 0,
        ensures
            e == old(self)@.pending[0],
            final(self)@ == apply_next_event(old(self)@),
            wf(final(self)@),
    {
        let e = self.pending.remove(0);
        proof {
            assert(self@.pending =~= old(self)@.pending.subrange(
                1,
                old(self)@.pending.len() as int,
            ));
            assert(self@ =~= apply_next_event(old(self)@));
        }
        e
    }

    /// Records one more screen of the connection's topology, with the
    /// identity of its root window.
    pub fn add_screen(&mut self, root: u64)
        requires
            wf(old(self)@),
            !roots_of(old(self)@).contains(root),
        ensures
            final(self)@ == (SessionView {
                screens: old(self)@.screens.push(Screen { root }),
                ..old(self)@
            }),
            wf(final(self)@),
    {
        self.screens.push(Screen { root });
        proof {
            let v0 = old(self)@;
            let v1 = self@;
            assert(v1 =~= (SessionView { screens: v0.screens.push(Screen { root }), ..v0 }));
            assert forall|i: int, j: int| 0 <= i < j < v1.screens.len() implies v1.screens[i].root
                != v1.screens[j].root by {
                if j == v0.screens.len() {
                    assert(roots_of(v0)[i] == v0.screens[i].root);
                }
            }
            assert forall|i: int| 0 <= i < v1.entries.len() implies roots_of(v1).contains(
                #[trigger] v1.entries[i].root,
            ) by {
                assert(roots_of(v0).contains(v0.entries[i].root));
                let k = choose|k: int|
                    0 <= k < roots_of(v0).len() && roots_of(v0)[k] == v0.entries[i].root;
                assert(roots_of(v1)[k] == v1.entries[i].root);
            }
        }
    }

    /// Records one more window of the server's topology: its handle, the
    /// root it sits under, its attributes, its transient-parent hint and its
    /// name property.
    pub fn add_window(
        &mut self,
        handle: u64,
        root: u64,
        attrs: Attributes,
        transient_for: Option<u64>,
        name: Option<String>,
    )
        requires
            wf(old(self)@),
            !live(old(self)@, handle),
            roots_of(old(self)@).contains(root),
        ensures
            final(self)@ == (SessionView {
                entries: old(self)@.entries.push(
                    EntryView {
                        handle,
                        root,
                        attrs,
                        transient_for,
                        name: crate::model::opt_name_view(name),
                    },
                ),
                ..old(self)@
            }),
            wf(final(self)@),
    {
        let ghost v0 = self@;
        let ghost e = EntryView {
            handle,
            root,
            attrs,
            transient_for,
            name: crate::model::opt_name_view(name),
        };
        self.entries.push(WindowEntry { handle, root, attrs, transient_for, name });
        proof {
            let v1 = self@;
            assert(v1.entries =~= v0.entries.push(e));
            assert(v1 =~= (SessionView { entries: v0.entries.push(e), ..v0 }));
            assert forall|i: int, j: int| 0 <= i < j < v1.entries.len() implies v1.entries[i].handle
                != v1.entries[j].handle by {
                if j == v0.entries.len() {
                    assert(v1.entries[i].handle == v0.entries[i].handle);
                }
            }
            assert forall|i: int| 0 <= i < v1.entries.len() implies roots_of(v1).contains(
                #[trigger] v1.entries[i].root,
            ) by {
                assert(roots_of(v1) =~= roots_of(v0));
                if i < v0.entries.len() {
                    assert(roots_of(v0).contains(v0.entries[i].root));
                }
            }
        }
    }
}

} // verus!
