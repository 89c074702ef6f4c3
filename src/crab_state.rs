//! The manager's state: the window registry, the windows awaiting a
//! repaint, the sequence filter and the drag session.
use vstd::prelude::*;

use crate::crab_layout::CrabLayout;
use crate::floating_layout::{
    configure_requests, enter_effect, expose_effect, leave_effect, manage_requests, motion_effect,
    same_windows, unmap_effect,
};
use crate::protocol::{Attributes, Geometry, MapState, Request, WmError, WmEvent};
use crate::sequence_filter::{suppresses, survivors, SequenceFilter};

verus! {

#[derive(Clone, Copy, Debug, PartialEq, Eq)]
pub enum DragType {
    Resize,
    Move,
}

/// A client window under management, with the frame that holds it.
#[derive(Clone, Copy, Debug, PartialEq, Eq)]
pub struct WindowState {
    pub window: u32,
    pub frame_window: u32,
    pub x: i16,
    pub y: i16,
    pub width: u16,
}

impl WindowState {
    pub fn new(window: u32, frame_window: u32, geometry: &Geometry) -> (r: WindowState)
        ensures
            r == (WindowState {
                window,
                frame_window,
                x: geometry.x,
                y: geometry.y,
                width: geometry.width,
            }),
    {
        WindowState { window, frame_window, x: geometry.x, y: geometry.y, width: geometry.width }
    }

    /// The entry answers to its client and to its frame.
    pub open spec fn answers_to(self, w: u32) -> bool {
        self.window == w || self.frame_window == w
    }
}

/// An interactive move or resize in progress; `x` and `y` are the offset
/// added to the pointer's root position to place the frame.
#[derive(Clone, Copy, Debug, PartialEq, Eq)]
pub struct DragState {
    pub window: WindowState,
    pub drag_type: DragType,
    pub x: i16,
    pub y: i16,
}

impl DragState {
    pub fn new(window: WindowState, drag_type: DragType, x: i16, y: i16) -> (r: DragState)
        ensures
            r == (DragState { window, drag_type, x, y }),
    {
        DragState { window, drag_type, x, y }
    }
}

/// Whether some entry of the registry answers to `w`.
pub open spec fn tracks(ws: Seq<WindowState>, w: u32) -> bool {
    exists|i: int| 0 <= i < ws.len() && (#[trigger] ws[i]).answers_to(w)
}

/// Whether some entry of the registry has `w` as its client.
pub open spec fn has_client(ws: Seq<WindowState>, w: u32) -> bool {
    exists|i: int| 0 <= i < ws.len() && (#[trigger] ws[i]).window == w
}

/// The client windows under management.
pub open spec fn clients(ws: Seq<WindowState>) -> Set<u32> {
    Set::new(|w: u32| has_client(ws, w))
}

/// The registry without the entry of client `w`.
pub open spec fn without_client(ws: Seq<WindowState>, w: u32) -> Seq<WindowState> {
    ws.filter(|s: WindowState| s.window != w)
}

/// No two identifiers of the registry are equal: each client and each frame
/// appears once, and no client is anyone's frame.
pub open spec fn registry_wf(ws: Seq<WindowState>) -> bool {
    &&& forall|i: int| 0 <= i < ws.len() ==> (#[trigger] ws[i]).window != ws[i].frame_window
    &&& forall|i: int, j: int|
        0 <= i < ws.len() && 0 <= j < ws.len() && i != j ==> {
            &&& (#[trigger] ws[i]).window != (#[trigger] ws[j]).window
            &&& ws[i].frame_window != ws[j].frame_window
            &&& ws[i].window != ws[j].frame_window
        }
}

/// A top-level window found at startup, with a free identifier for its
/// frame and what the server answered about it (`None` where the query
/// failed).
#[derive(Clone, Copy, Debug, PartialEq, Eq)]
pub struct TopLevel {
    pub window: u32,
    pub frame_window: u32,
    pub geometry: Option<Geometry>,
    pub attributes: Option<Attributes>,
}

/// A window found at startup is adopted when both queries answered, it
/// does not bypass the manager, and it is mapped.
pub open spec fn adoptable(c: TopLevel) -> bool {
    &&& c.geometry is Some
    &&& c.attributes matches Some(a) && !a.override_redirect && a.map_state != MapState::Unmapped
}

/// The registry entry `e` and the requests `reqs` came from adopting one
/// of `children`.
pub open spec fn adopted_from(children: Seq<TopLevel>, e: WindowState, reqs: Seq<Request>, root: u32) -> bool {
    exists|i: int|
        0 <= i < children.len() && adoptable(#[trigger] children[i]) && adopted_as(children[i], e, reqs, root)
}

/// Adopting `c` gave the entry `e` and the requests `reqs`.
pub open spec fn adopted_as(c: TopLevel, e: WindowState, reqs: Seq<Request>, root: u32) -> bool {
    match c.geometry {
        Some(g) => {
            &&& e == (WindowState { window: c.window, frame_window: c.frame_window, x: g.x, y: g.y, width: g.width })
            &&& reqs == manage_requests(c.window, c.frame_window, g, root)
        },
        None => false,
    }
}

/// An adoptable window found at startup ends up tracked, unless the frame
/// identifier offered for it was not free.
pub open spec fn settled(ws: Seq<WindowState>, c: TopLevel) -> bool {
    tracks(ws, c.window) || c.frame_window == c.window || tracks(ws, c.frame_window)
}

/// What the event loop does after an event.
#[derive(Debug, PartialEq, Eq)]
pub enum Dispatch {
    /// Send these requests, in order.
    Requests(Vec<Request>),
    /// Query this window's geometry, allocate a frame identifier, and hand
    /// both to the layout's `manage_window`.
    Adopt(u32),
    /// Stop the loop. Managed windows are left framed: the save-set hands
    /// them back to the root once the connection closes.
    Shutdown,
}

/// Whether the filter holding `pending` ignores an event with `sequence`.
pub open spec fn ignores(pending: Seq<u64>, sequence: Option<u64>) -> bool {
    match sequence {
        Some(s) => suppresses(pending, s),
        None => false,
    }
}

/// What the filter holds after an event with `sequence`.
pub open spec fn pending_after(pending: Seq<u64>, sequence: Option<u64>) -> Seq<u64> {
    match sequence {
        Some(s) => survivors(pending, s),
        None => pending,
    }
}

/// What the layout does with an event that was not ignored.
pub open spec fn dispatched(old: CrabState, new: CrabState, event: WmEvent, r: Result<Dispatch, WmError>) -> bool {
    match event {
        WmEvent::UnmapNotify { window } => r matches Ok(Dispatch::Requests(v)) && unmap_effect(
            old,
            new,
            window,
            v@,
        ),
        WmEvent::ConfigureRequest(c) => {
            &&& same_windows(old, new)
            &&& if tracks(old.window_states@, c.window) {
                r == Err::<Dispatch, WmError>(WmError::ConfigureManaged(c.window))
            } else {
                r matches Ok(Dispatch::Requests(v)) && v@ == configure_requests(c)
            }
        },
        WmEvent::MapRequest { window } => r matches Ok(Dispatch::Adopt(w)) && w == window && same_windows(
            old,
            new,
        ),
        WmEvent::Expose { window } => r matches Ok(Dispatch::Requests(v)) && expose_effect(
            old,
            new,
            window,
            v@,
        ),
        WmEvent::EnterNotify { event } => r matches Ok(Dispatch::Requests(v)) && enter_effect(
            old,
            new,
            event,
            v@,
        ),
        WmEvent::LeaveNotify { .. } => r matches Ok(Dispatch::Requests(v)) && leave_effect(old, new, v@),
        WmEvent::MotionNotify { root_x, root_y } => r matches Ok(Dispatch::Requests(v)) && motion_effect(
            old,
            new,
            root_x,
            root_y,
            v@,
        ),
        WmEvent::ClientMessage => r matches Ok(Dispatch::Shutdown),
        WmEvent::Other => r matches Ok(Dispatch::Requests(v)) && v@.len() == 0 && same_windows(old, new),
    }
}

/// The state shared by the manager and its layout.
pub struct CrabState {
    pub layout: CrabLayout,
    pub screen_num: usize,
    pub root: u32,
    pub black_gc: u32,
    pub wm_protocols: u32,
    pub wm_delete_window: u32,
    pub pending_exposes: Vec<u32>,
    pub window_states: Vec<WindowState>,
    pub sequences_to_ignore: SequenceFilter,
    pub drag_window: Option<DragState>,
}

impl CrabState {
    pub open spec fn wf(&self) -> bool {
        &&& registry_wf(self.window_states@)
        &&& self.pending_exposes@.no_duplicates()
        &&& self.drag_window matches Some(d) ==> self.window_states@.contains(d.window)
    }

    /// The values that no event changes.
    pub open spec fn same_setup(&self, other: &CrabState) -> bool {
        &&& self.layout == other.layout
        &&& self.screen_num == other.screen_num
        &&& self.root == other.root
        &&& self.black_gc == other.black_gc
        &&& self.wm_protocols == other.wm_protocols
        &&& self.wm_delete_window == other.wm_delete_window
    }

    /// A state with nothing managed, for the screen whose root window is
    /// `root`; the graphics context and the two protocol atoms are those
    /// the server handed out at startup.
    pub fn new(
        layout: CrabLayout,
        screen_num: usize,
        root: u32,
        black_gc: u32,
        wm_protocols: u32,
        wm_delete_window: u32,
    ) -> (r: CrabState)
        ensures
            r.wf(),
            r.layout == layout,
            r.screen_num == screen_num,
            r.root == root,
            r.black_gc == black_gc,
            r.wm_protocols == wm_protocols,
            r.wm_delete_window == wm_delete_window,
            r.window_states@ == Seq::<WindowState>::empty(),
            r.pending_exposes@ == Seq::<u32>::empty(),
            r.sequences_to_ignore@ == Seq::<u64>::empty(),
            r.drag_window is None,
    {
        CrabState {
            layout,
            screen_num,
            root,
            black_gc,
            wm_protocols,
            wm_delete_window,
            pending_exposes: Vec::new(),
            window_states: Vec::new(),
            sequences_to_ignore: SequenceFilter::new(),
            drag_window: None,
        }
    }

    /// The entry that answers to `window`, as client or as frame.
    pub fn find_window_state(&self, window: u32) -> (r: Option<WindowState>)
        ensures
            match r {
                Some(s) => self.window_states@.contains(s) && s.answers_to(window),
                None => !tracks(self.window_states@, window),
            },
    {
        let mut i: usize = 0;
        while i < self.window_states.len()
            invariant
                0 <= i <= self.window_states@.len(),
                forall|j: int| 0 <= j < i ==> !(#[trigger] self.window_states@[j]).answers_to(window),
            decreases self.window_states@.len() - i,
        {
            let s = self.window_states[i];
            if s.window == window || s.frame_window == window {
                assert(self.window_states@[i as int] == s);
                return Some(s);
            }
            i = i + 1;
        }
        None
    }

    /// Adds `entry` to the registry; neither of its identifiers may be known.
    pub fn insert_window(&mut self, entry: WindowState)
        requires
            old(self).wf(),
            entry.window != entry.frame_window,
            !tracks(old(self).window_states@, entry.window),
            !tracks(old(self).window_states@, entry.frame_window),
        ensures
            final(self).wf(),
            final(self).window_states@ == old(self).window_states@.push(entry),
            clients(final(self).window_states@) == clients(old(self).window_states@).insert(entry.window),
            final(self).pending_exposes == old(self).pending_exposes,
            final(self).sequences_to_ignore == old(self).sequences_to_ignore,
            final(self).drag_window == old(self).drag_window,
            final(self).same_setup(old(self)),
    {
        let ghost ws = self.window_states@;
        self.window_states.push(entry);
        proof {
            let nws = ws.push(entry);
            assert forall|i: int, j: int|
                0 <= i < nws.len() && 0 <= j < nws.len() && i != j implies {
                &&& (#[trigger] nws[i]).window != (#[trigger] nws[j]).window
                &&& nws[i].frame_window != nws[j].frame_window
                &&& nws[i].window != nws[j].frame_window
            } by {
                if i == ws.len() {
                    assert(!ws[j].answers_to(entry.window));
                    assert(!ws[j].answers_to(entry.frame_window));
                } else if j == ws.len() {
                    assert(!ws[i].answers_to(entry.window));
                    assert(!ws[i].answers_to(entry.frame_window));
                } else {
                    assert(nws[i] == ws[i] && nws[j] == ws[j]);
                }
            }
            if let Some(d) = self.drag_window {
                let k = choose|k: int| 0 <= k < ws.len() && ws[k] == d.window;
                assert(nws[k] == d.window);
            }
            assert forall|w: u32| has_client(nws, w) <==> has_client(ws, w) || w == entry.window by {
                if has_client(ws, w) {
                    let k = choose|k: int| 0 <= k < ws.len() && (#[trigger] ws[k]).window == w;
                    assert(nws[k] == ws[k]);
                }
                if w == entry.window {
                    assert(nws[ws.len() as int] == entry);
                }
                if has_client(nws, w) && w != entry.window {
                    let k = choose|k: int| 0 <= k < nws.len() && (#[trigger] nws[k]).window == w;
                    assert(k < ws.len());
                    assert(ws[k] == nws[k]);
                }
            }
            assert(clients(nws) =~= clients(ws).insert(entry.window));
        }
    }

    /// Takes the entry of client `window` out of the registry, if there is
    /// one; a drag of that window ends with it.
    pub fn remove_window(&mut self, window: u32) -> (r: Option<WindowState>)
        requires
            old(self).wf(),
        ensures
            final(self).wf(),
            clients(final(self).window_states@) == clients(old(self).window_states@).remove(window),
            match r {
                Some(s) => {
                    &&& s.window == window
                    &&& exists|i: int|
                        0 <= i < old(self).window_states@.len() && old(self).window_states@[i] == s
                            && final(self).window_states@ == old(self).window_states@.remove(i)
                    &&& final(self).drag_window == (match old(self).drag_window {
                        Some(d) => if d.window.window == window { None } else { Some(d) },
                        None => None,
                    })
                },
                None => {
                    &&& !has_client(old(self).window_states@, window)
                    &&& final(self).window_states == old(self).window_states
                    &&& final(self).drag_window == old(self).drag_window
                },
            },
            final(self).pending_exposes == old(self).pending_exposes,
            final(self).sequences_to_ignore == old(self).sequences_to_ignore,
            final(self).same_setup(old(self)),
    {
        let ghost ws = self.window_states@;
        let mut i: usize = 0;
        while i < self.window_states.len()
            invariant
                *self == *old(self),
                self.wf(),
                ws == self.window_states@,
                0 <= i <= ws.len(),
                forall|j: int| 0 <= j < i ==> (#[trigger] ws[j]).window != window,
            decreases ws.len() - i,
        {
            if self.window_states[i].window == window {
                let s = self.window_states.remove(i);
                let ghost nws = self.window_states@;
                let ends_drag = match self.drag_window {
                    Some(d) => d.window.window == window,
                    None => false,
                };
                if ends_drag {
                    self.drag_window = None;
                }
                proof {
                    let k = i as int;
                    assert(ws[k] == s);
                    assert forall|a: int, b: int|
                        0 <= a < nws.len() && 0 <= b < nws.len() && a != b implies {
                        &&& (#[trigger] nws[a]).window != (#[trigger] nws[b]).window
                        &&& nws[a].frame_window != nws[b].frame_window
                        &&& nws[a].window != nws[b].frame_window
                    } by {
                        let oa = if a < k { a } else { a + 1 };
                        let ob = if b < k { b } else { b + 1 };
                        assert(nws[a] == ws[oa] && nws[b] == ws[ob]);
                    }
                    assert forall|a: int| 0 <= a < nws.len() implies (#[trigger] nws[a]).window
                        != nws[a].frame_window by {
                        let oa = if a < k { a } else { a + 1 };
                        assert(nws[a] == ws[oa]);
                    }
                    if let Some(d) = self.drag_window {
                        let m = choose|m: int| 0 <= m < ws.len() && ws[m] == d.window;
                        assert(ws[m].window != window);
                        assert(m != k);
                        let nm = if m < k { m } else { m - 1 };
                        assert(nws[nm] == d.window);
                    }
                    assert forall|w: u32| has_client(nws, w) <==> has_client(ws, w) && w != window by {
                        if has_client(ws, w) && w != window {
                            let m = choose|m: int| 0 <= m < ws.len() && (#[trigger] ws[m]).window == w;
                            assert(m != k);
                            let nm = if m < k { m } else { m - 1 };
                            assert(nws[nm] == ws[m]);
                        }
                        if has_client(nws, w) {
                            let m = choose|m: int| 0 <= m < nws.len() && (#[trigger] nws[m]).window == w;
                            let om = if m < k { m } else { m + 1 };
                            assert(nws[m] == ws[om]);
                            assert(om != k);
                        }
                    }
                    assert(clients(nws) =~= clients(ws).remove(window));
                }
                return Some(s);
            }
            i = i + 1;
        }
        proof {
            assert(clients(ws) =~= clients(ws).remove(window));
        }
        None
    }

    /// Adopts the top-level windows found at startup: each adoptable one is
    /// framed through the layout, in order; the requests to send come back
    /// in the same order, seven for each window taken.
    pub fn map_windows(&mut self, children: &Vec<TopLevel>) -> (r: Vec<Request>)
        requires
            old(self).wf(),
        ensures
            final(self).wf(),
            final(self).pending_exposes == old(self).pending_exposes,
            final(self).sequences_to_ignore == old(self).sequences_to_ignore,
            final(self).drag_window == old(self).drag_window,
            final(self).same_setup(old(self)),
            final(self).window_states@.len() >= old(self).window_states@.len(),
            final(self).window_states@.subrange(0, old(self).window_states@.len() as int)
                == old(self).window_states@,
            r@.len() == 7 * (final(self).window_states@.len() - old(self).window_states@.len()),
            forall|k: int|
                old(self).window_states@.len() <= k < final(self).window_states@.len() ==> {
                    let m = k - old(self).window_states@.len();
                    adopted_from(children@, #[trigger] final(self).window_states@[k], r@.subrange(7 * m, 7 * m + 7), old(self).root)
                },
            forall|j: int|
                0 <= j < children@.len() && adoptable(#[trigger] children@[j]) ==> settled(
                    final(self).window_states@,
                    children@[j],
                ),
    {
        let ghost old_ws = self.window_states@;
        let ghost n0 = old_ws.len();
        let ghost root = self.root;
        let CrabLayout::Floating(layout) = self.layout;
        let mut out: Vec<Request> = Vec::new();
        let mut i: usize = 0;
        while i < children.len()
            invariant
                self.wf(),
                self.pending_exposes == old(self).pending_exposes,
                self.sequences_to_ignore == old(self).sequences_to_ignore,
                self.drag_window == old(self).drag_window,
                self.same_setup(old(self)),
                old_ws == old(self).window_states@,
                n0 == old_ws.len(),
                root == old(self).root,
                0 <= i <= children@.len(),
                self.window_states@.len() >= n0,
                self.window_states@.subrange(0, n0 as int) == old_ws,
                out@.len() == 7 * (self.window_states@.len() - n0),
                forall|k: int|
                    n0 <= k < self.window_states@.len() ==> {
                        let m = k - n0;
                        adopted_from(children@, #[trigger] self.window_states@[k], out@.subrange(7 * m, 7 * m + 7), root)
                    },
                forall|j: int|
                    0 <= j < i && adoptable(#[trigger] children@[j]) ==> settled(self.window_states@, children@[j]),
            decreases children@.len() - i,
        {
            let c = children[i];
            let ghost ws = self.window_states@;
            let ghost out0 = out@;
            if let (Some(g), Some(a)) = (c.geometry, c.attributes) {
                let mapped = match a.map_state {
                    MapState::Unmapped => false,
                    _ => true,
                };
                if !a.override_redirect && mapped {
                    match layout.manage_window(self, c.window, &g, c.frame_window) {
                        Ok(v) => {
                            let mut v = v;
                            let ghost added = v@;
                            out.append(&mut v);
                            proof {
                                let nws = self.window_states@;
                                let e = nws[ws.len() as int];
                                assert(children@[i as int] == c);
                                assert(nws.subrange(0, n0 as int) =~= ws.subrange(0, n0 as int));
                                assert forall|k: int| n0 <= k < nws.len() implies {
                                    let m = k - n0;
                                    adopted_from(children@, #[trigger] nws[k], out@.subrange(7 * m, 7 * m + 7), root)
                                } by {
                                    let m = k - n0;
                                    if k < ws.len() {
                                        assert(nws[k] == ws[k]);
                                        assert(out@.subrange(7 * m, 7 * m + 7) =~= out0.subrange(7 * m, 7 * m + 7));
                                    } else {
                                        assert(out@.subrange(7 * m, 7 * m + 7) =~= added);
                                        assert(adoptable(children@[i as int]));
                                    }
                                }
                                assert forall|j: int|
                                    0 <= j <= i && adoptable(#[trigger] children@[j]) implies settled(
                                    nws,
                                    children@[j],
                                ) by {
                                    if j == i {
                                        assert(nws[ws.len() as int].window == c.window);
                                    } else {
                                        let cj = children@[j];
                                        if tracks(ws, cj.window) {
                                            let q = choose|q: int| 0 <= q < ws.len() && (#[trigger] ws[q]).answers_to(cj.window);
                                            assert(nws[q] == ws[q]);
                                        }
                                        if tracks(ws, cj.frame_window) {
                                            let q = choose|q: int| 0 <= q < ws.len() && (#[trigger] ws[q]).answers_to(cj.frame_window);
                                            assert(nws[q] == ws[q]);
                                        }
                                    }
                                }
                            }
                        },
                        Err(_) => {
                            proof {
                                assert(children@[i as int] == c);
                            }
                        },
                    }
                }
            }
            i = i + 1;
        }
        out
    }

    /// Routes one event: the shutdown event stops the loop at once; an
    /// event the filter ignores does nothing; any other goes to the layout.
    pub fn handle_event(&mut self, event: WmEvent, sequence: Option<u64>) -> (r: Result<Dispatch, WmError>)
        requires
            old(self).wf(),
        ensures
            final(self).wf(),
            event is ClientMessage ==> (r matches Ok(Dispatch::Shutdown) && *final(self) == *old(self)),
            !(event is ClientMessage) ==> {
                &&& final(self).sequences_to_ignore@ == pending_after(old(self).sequences_to_ignore@, sequence)
                &&& if ignores(old(self).sequences_to_ignore@, sequence) {
                    r matches Ok(Dispatch::Requests(v)) && v@.len() == 0 && same_windows(*old(self), *final(self))
                } else {
                    dispatched(*old(self), *final(self), event, r)
                }
            },
    {
        if let WmEvent::ClientMessage = event {
            return Ok(Dispatch::Shutdown);
        }
        if self.sequences_to_ignore.should_suppress(sequence) {
            return Ok(Dispatch::Requests(Vec::new()));
        }
        let CrabLayout::Floating(layout) = self.layout;
        match event {
            WmEvent::UnmapNotify { window } => Ok(Dispatch::Requests(layout.handle_unmap_notify_event(self, window))),
            WmEvent::ConfigureRequest(c) => match layout.handle_configure_request_event(self, c) {
                Ok(v) => Ok(Dispatch::Requests(v)),
                Err(e) => Err(e),
            },
            WmEvent::MapRequest { window } => Ok(Dispatch::Adopt(window)),
            WmEvent::Expose { window } => Ok(Dispatch::Requests(layout.handle_expose_event(self, window))),
            WmEvent::EnterNotify { event } => Ok(Dispatch::Requests(layout.handle_enter_notify_event(self, event))),
            WmEvent::LeaveNotify { event } => Ok(Dispatch::Requests(layout.handle_leave_notify_event(self, event))),
            WmEvent::MotionNotify { root_x, root_y } => Ok(
                Dispatch::Requests(layout.handle_motion_notify_event(self, root_x, root_y)),
            ),
            WmEvent::ClientMessage => Ok(Dispatch::Shutdown),
            WmEvent::Other => Ok(Dispatch::Requests(Vec::new())),
        }
    }

    /// Starts dragging the managed window that answers to `window`, with
    /// the given offset; refused while another drag is in progress or when
    /// the window is not tracked.
    pub fn begin_drag(&mut self, window: u32, drag_type: DragType, x: i16, y: i16) -> (r: bool)
        requires
            old(self).wf(),
        ensures
            final(self).wf(),
            r == (old(self).drag_window is None && tracks(old(self).window_states@, window)),
            r ==> exists|i: int|
                0 <= i < old(self).window_states@.len() && old(self).window_states@[i].answers_to(window)
                    && final(self).drag_window == Some(DragState {
                    window: old(self).window_states@[i],
                    drag_type,
                    x,
                    y,
                }),
            !r ==> final(self).drag_window == old(self).drag_window,
            final(self).window_states == old(self).window_states,
            final(self).pending_exposes == old(self).pending_exposes,
            final(self).sequences_to_ignore == old(self).sequences_to_ignore,
            final(self).same_setup(old(self)),
    {
        if self.drag_window.is_some() {
            return false;
        }
        match self.find_window_state(window) {
            Some(s) => {
                self.drag_window = Some(DragState::new(s, drag_type, x, y));
                true
            },
            None => false,
        }
    }

    /// Ends the drag in progress, if any, and hands it back.
    pub fn end_drag(&mut self) -> (r: Option<DragState>)
        requires
            old(self).wf(),
        ensures
            final(self).wf(),
            r == old(self).drag_window,
            final(self).drag_window is None,
            final(self).window_states == old(self).window_states,
            final(self).pending_exposes == old(self).pending_exposes,
            final(self).sequences_to_ignore == old(self).sequences_to_ignore,
            final(self).same_setup(old(self)),
    {
        let r = self.drag_window;
        self.drag_window = None;
        r
    }

    /// Records that `sequence` belongs to a request of our own whose echo
    /// must be ignored.
    pub fn expect_suppression(&mut self, sequence: u64)
        ensures
            final(self).sequences_to_ignore@ == old(self).sequences_to_ignore@.push(sequence),
            final(self).window_states == old(self).window_states,
            final(self).pending_exposes == old(self).pending_exposes,
            final(self).drag_window == old(self).drag_window,
            final(self).same_setup(old(self)),
    {
        self.sequences_to_ignore.expect_suppression(sequence);
    }

    /// Hands out the windows awaiting a repaint, each once, and starts the
    /// next cycle with none.
    pub fn flush(&mut self) -> (r: Vec<u32>)
        requires
            old(self).wf(),
        ensures
            final(self).wf(),
            r@ == old(self).pending_exposes@,
            r@.no_duplicates(),
            final(self).pending_exposes@ == Seq::<u32>::empty(),
            final(self).window_states == old(self).window_states,
            final(self).sequences_to_ignore == old(self).sequences_to_ignore,
            final(self).drag_window == old(self).drag_window,
            final(self).same_setup(old(self)),
    {
        let r = self.pending_exposes.clone();
        self.pending_exposes = Vec::new();
        r
    }

    /// Marks `window` for repaint at the next flush; a window already
    /// marked stays marked once.
    pub fn record_expose(&mut self, window: u32)
        requires
            old(self).wf(),
        ensures
            final(self).wf(),
            final(self).pending_exposes@ == (if old(self).pending_exposes@.contains(window) {
                old(self).pending_exposes@
            } else {
                old(self).pending_exposes@.push(window)
            }),
            final(self).window_states == old(self).window_states,
            final(self).sequences_to_ignore == old(self).sequences_to_ignore,
            final(self).drag_window == old(self).drag_window,
            final(self).same_setup(old(self)),
    {
        let mut i: usize = 0;
        while i < self.pending_exposes.len()
            invariant
                *self == *old(self),
                self.wf(),
                0 <= i <= self.pending_exposes@.len(),
                forall|j: int| 0 <= j < i ==> self.pending_exposes@[j] != window,
            decreases self.pending_exposes@.len() - i,
        {
            if self.pending_exposes[i] == window {
                assert(self.pending_exposes@[i as int] == window);
                return;
            }
            i = i + 1;
        }
        self.pending_exposes.push(window);
    }
}

} // verus!
