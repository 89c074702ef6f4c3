//! The floating policy: each client keeps its own geometry inside a frame
//! of its own, focus follows the pointer, and frames can be dragged.
use vstd::prelude::*;

use crate::crab_state::{clients, has_client, tracks, CrabState, DragState, WindowState};
use crate::protocol::{
    requested_values, ConfigureRequest, ConfigureValues, Geometry, Request, SetMode, StackMode,
    WmError, FRAME_EVENT_MASK, NO_WINDOW,
};

verus! {

#[derive(Clone, Copy, Debug, PartialEq, Eq)]
pub struct FloatingLayout;

/// Width of the border drawn around each frame.
pub const FRAME_BORDER_WIDTH: u16 = 1;

/// Frame `window` in `frame`: create the frame over the client's geometry,
/// then, with the server grabbed, put the client in the save-set, move it
/// into the frame and map both. The reparent's echo is to be ignored.
pub open spec fn manage_requests(window: u32, frame: u32, g: Geometry, root: u32) -> Seq<Request> {
    seq![
        Request::CreateWindow {
            window: frame,
            parent: root,
            x: g.x,
            y: g.y,
            width: g.width,
            height: g.height,
            border_width: FRAME_BORDER_WIDTH,
            event_mask: FRAME_EVENT_MASK,
        },
        Request::GrabServer,
        Request::ChangeSaveSet { mode: SetMode::Insert, window },
        Request::ReparentWindow { window, parent: frame, x: 0, y: 0, suppress_echo: true },
        Request::MapWindow { window },
        Request::MapWindow { window: frame },
        Request::UngrabServer,
    ]
}

/// Undo the framing of `s`: out of the save-set, back to the root where it
/// was last seen, and the frame destroyed.
pub open spec fn unmap_requests(s: WindowState, root: u32) -> Seq<Request> {
    seq![
        Request::ChangeSaveSet { mode: SetMode::Delete, window: s.window },
        Request::ReparentWindow { window: s.window, parent: root, x: s.x, y: s.y, suppress_echo: false },
        Request::DestroyWindow { window: s.frame_window },
    ]
}

/// An unmanaged window's request, passed on without its stacking hints.
pub open spec fn configure_requests(event: ConfigureRequest) -> Seq<Request> {
    seq![
        Request::ConfigureWindow {
            window: event.window,
            values: ConfigureValues { sibling: None, stack_mode: None, ..requested_values(event) },
        },
    ]
}

/// Focus the client of `s` and raise its frame above its siblings.
pub open spec fn focus_requests(s: WindowState) -> Seq<Request> {
    seq![
        Request::SetInputFocus { focus: s.window },
        Request::ConfigureWindow {
            window: s.frame_window,
            values: ConfigureValues { stack_mode: Some(StackMode::Above), ..ConfigureValues::spec_empty() },
        },
    ]
}

pub open spec fn leave_requests() -> Seq<Request> {
    seq![Request::SetInputFocus { focus: NO_WINDOW }]
}

/// Where a dragged frame goes: the drag's offset plus the pointer's root
/// position, on each axis.
pub open spec fn drag_target(offset: i16, pointer: i16) -> i32 {
    (offset + pointer) as i32
}

pub open spec fn drag_requests(d: DragState, root_x: i16, root_y: i16) -> Seq<Request> {
    seq![
        Request::ConfigureWindow {
            window: d.window.frame_window,
            values: ConfigureValues {
                x: Some(drag_target(d.x, root_x)),
                y: Some(drag_target(d.y, root_y)),
                ..ConfigureValues::spec_empty()
            },
        },
    ]
}

/// Registry, pending repaints, drag and setup are as they were.
pub open spec fn same_windows(old: CrabState, new: CrabState) -> bool {
    &&& new.window_states == old.window_states
    &&& new.pending_exposes == old.pending_exposes
    &&& new.drag_window == old.drag_window
    &&& new.same_setup(&old)
}

pub open spec fn manage_effect(
    old: CrabState,
    new: CrabState,
    window: u32,
    g: Geometry,
    frame: u32,
    r: Result<Vec<Request>, WmError>,
) -> bool {
    let ws = old.window_states@;
    match r {
        Ok(v) => {
            &&& !tracks(ws, window)
            &&& frame != window
            &&& !tracks(ws, frame)
            &&& v@ == manage_requests(window, frame, g, old.root)
            &&& new.window_states@ == ws.push(
                WindowState { window, frame_window: frame, x: g.x, y: g.y, width: g.width },
            )
            &&& clients(new.window_states@) == clients(ws).insert(window)
            &&& new.pending_exposes == old.pending_exposes
            &&& new.drag_window == old.drag_window
            &&& new.same_setup(&old)
        },
        Err(WmError::AlreadyManaged(w)) => w == window && tracks(ws, window) && same_windows(old, new),
        Err(WmError::FrameInUse(f)) => {
            &&& f == frame
            &&& !tracks(ws, window)
            &&& (frame == window || tracks(ws, frame))
            &&& same_windows(old, new)
        },
        Err(WmError::ConfigureManaged(_)) => false,
    }
}

pub open spec fn unmap_effect(old: CrabState, new: CrabState, window: u32, r: Seq<Request>) -> bool {
    let ws = old.window_states@;
    &&& new.pending_exposes == old.pending_exposes
    &&& new.same_setup(&old)
    &&& clients(new.window_states@) == clients(ws).remove(window)
    &&& if has_client(ws, window) {
        exists|i: int|
            0 <= i < ws.len() && ws[i].window == window && new.window_states@ == ws.remove(i) && r
                == unmap_requests(ws[i], old.root)
    } else {
        same_windows(old, new) && r.len() == 0
    }
    &&& new.drag_window == (match old.drag_window {
        Some(d) => if d.window.window == window { None } else { Some(d) },
        None => None,
    })
}

pub open spec fn configure_effect(
    old: CrabState,
    new: CrabState,
    event: ConfigureRequest,
    r: Result<Vec<Request>, WmError>,
) -> bool {
    &&& same_windows(old, new)
    &&& if tracks(old.window_states@, event.window) {
        r == Err::<Vec<Request>, WmError>(WmError::ConfigureManaged(event.window))
    } else {
        r matches Ok(v) && v@ == configure_requests(event)
    }
}

pub open spec fn expose_effect(old: CrabState, new: CrabState, window: u32, r: Seq<Request>) -> bool {
    &&& new.pending_exposes@ == (if old.pending_exposes@.contains(window) {
        old.pending_exposes@
    } else {
        old.pending_exposes@.push(window)
    })
    &&& new.window_states == old.window_states
    &&& new.drag_window == old.drag_window
    &&& new.same_setup(&old)
    &&& r.len() == 0
}

pub open spec fn enter_effect(old: CrabState, new: CrabState, event: u32, r: Seq<Request>) -> bool {
    let ws = old.window_states@;
    &&& same_windows(old, new)
    &&& if tracks(ws, event) {
        exists|i: int| 0 <= i < ws.len() && ws[i].answers_to(event) && r == focus_requests(ws[i])
    } else {
        r.len() == 0
    }
}

pub open spec fn leave_effect(old: CrabState, new: CrabState, r: Seq<Request>) -> bool {
    same_windows(old, new) && r == leave_requests()
}

pub open spec fn motion_effect(old: CrabState, new: CrabState, root_x: i16, root_y: i16, r: Seq<Request>) -> bool {
    &&& same_windows(old, new)
    &&& r == match old.drag_window {
        Some(d) => drag_requests(d, root_x, root_y),
        None => Seq::<Request>::empty(),
    }
}

/// The windows that a run of operations (`true` to manage, `false` to
/// unmap) managed and did not unmap afterwards.
pub open spec fn managed_not_unmapped(ops: Seq<(bool, u32)>) -> Set<u32> {
    Set::new(
        |w: u32|
            exists|i: int|
                0 <= i < ops.len() && ops[i] == (true, w) && forall|j: int|
                    i < j < ops.len() ==> #[trigger] ops[j] != (false, w),
    )
}

/// `new` follows `old` by a successful `manage_window` or by
/// `handle_unmap_notify_event`, as `op` says.
pub open spec fn registry_step(old: CrabState, new: CrabState, op: (bool, u32)) -> bool {
    if op.0 {
        exists|g: Geometry, f: u32, v: Vec<Request>| #[trigger] manage_effect(old, new, op.1, g, f, Ok(v))
    } else {
        exists|v: Seq<Request>| #[trigger] unmap_effect(old, new, op.1, v)
    }
}

proof fn lemma_managed_step(ops: Seq<(bool, u32)>)
    requires
        ops.len() > 0,
    ensures
        managed_not_unmapped(ops) == (if ops.last().0 {
            managed_not_unmapped(ops.drop_last()).insert(ops.last().1)
        } else {
            managed_not_unmapped(ops.drop_last()).remove(ops.last().1)
        }),
{
    let pre = ops.drop_last();
    let n = ops.len() - 1;
    let op = ops.last();
    let a = managed_not_unmapped(ops);
    let b = managed_not_unmapped(pre);
    assert forall|w: u32| a.contains(w) <==> (if op.0 { b.insert(op.1) } else { b.remove(op.1) }).contains(w) by {
        if a.contains(w) {
            let i = choose|i: int|
                0 <= i < ops.len() && ops[i] == (true, w) && forall|j: int|
                    i < j < ops.len() ==> #[trigger] ops[j] != (false, w);
            if i < n {
                assert forall|j: int| i < j < pre.len() implies #[trigger] pre[j] != (false, w) by {
                    assert(pre[j] == ops[j]);
                }
                assert(pre[i] == ops[i]);
                assert(b.contains(w));
                if !op.0 {
                    assert(ops[n] != (false, w));
                }
            }
        }
        if op.0 && w == op.1 {
            assert(ops[n] == (true, w));
            assert(a.contains(w));
        } else if b.contains(w) && !(!op.0 && w == op.1) {
            let i = choose|i: int|
                0 <= i < pre.len() && pre[i] == (true, w) && forall|j: int|
                    i < j < pre.len() ==> #[trigger] pre[j] != (false, w);
            assert(ops[i] == pre[i]);
            assert forall|j: int| i < j < ops.len() implies #[trigger] ops[j] != (false, w) by {
                if j < n {
                    assert(ops[j] == pre[j]);
                }
            }
            assert(a.contains(w));
        }
    }
    assert(a =~= (if op.0 { b.insert(op.1) } else { b.remove(op.1) }));
}

/// Starting from an empty registry, after any run of manage and unmap
/// operations the registry holds exactly the clients that were managed and
/// not unmapped since.
pub proof fn lemma_registry_holds_managed_not_unmapped(states: Seq<CrabState>, ops: Seq<(bool, u32)>)
    requires
        states.len() == ops.len() + 1,
        states[0].window_states@.len() == 0,
        forall|i: int| 0 <= i < ops.len() ==> registry_step(states[i], states[i + 1], #[trigger] ops[i]),
    ensures
        clients(states.last().window_states@) == managed_not_unmapped(ops),
    decreases ops.len(),
{
    if ops.len() == 0 {
        assert(clients(states[0].window_states@) =~= Set::<u32>::empty());
        assert(managed_not_unmapped(ops) =~= Set::<u32>::empty());
    } else {
        let n = ops.len() - 1;
        let pre_states = states.drop_last();
        let pre_ops = ops.drop_last();
        assert forall|i: int| 0 <= i < pre_ops.len() implies registry_step(
            pre_states[i],
            pre_states[i + 1],
            #[trigger] pre_ops[i],
        ) by {
            assert(pre_ops[i] == ops[i]);
            assert(pre_states[i] == states[i] && pre_states[i + 1] == states[i + 1]);
        }
        lemma_registry_holds_managed_not_unmapped(pre_states, pre_ops);
        lemma_managed_step(ops);
        assert(registry_step(states[n], states[n + 1], ops[n]));
        assert(pre_states.last() == states[n]);
    }
}

/// Managing a window that was just managed is turned down and changes
/// nothing: no second frame, no second entry.
pub proof fn lemma_manage_again_is_rejected(
    s0: CrabState,
    s1: CrabState,
    s2: CrabState,
    window: u32,
    g1: Geometry,
    f1: u32,
    g2: Geometry,
    f2: u32,
    v1: Vec<Request>,
    r2: Result<Vec<Request>, WmError>,
)
    requires
        manage_effect(s0, s1, window, g1, f1, Ok(v1)),
        manage_effect(s1, s2, window, g2, f2, r2),
    ensures
        r2 == Err::<Vec<Request>, WmError>(WmError::AlreadyManaged(window)),
        same_windows(s1, s2),
{
    let ws = s1.window_states@;
    assert(ws[ws.len() - 1].answers_to(window));
}

/// Two exposures of one window before a flush leave it pending once.
pub proof fn lemma_expose_twice_is_pending_once(
    s0: CrabState,
    s1: CrabState,
    s2: CrabState,
    window: u32,
    r1: Seq<Request>,
    r2: Seq<Request>,
)
    requires
        s0.wf(),
        expose_effect(s0, s1, window, r1),
        expose_effect(s1, s2, window, r2),
    ensures
        s2.pending_exposes@ == s1.pending_exposes@,
        s2.pending_exposes@.contains(window),
        s2.pending_exposes@.no_duplicates(),
        s2.pending_exposes@.to_multiset().count(window) == 1,
{
    let before = s0.pending_exposes@;
    let after = s2.pending_exposes@;
    if !before.contains(window) {
        assert(before.push(window)[before.len() as int] == window);
    }
    assert(after.no_duplicates()) by {
        if !before.contains(window) {
            assert forall|i: int, j: int| 0 <= i < after.len() && 0 <= j < after.len() && i != j implies after[i] != after[j] by {
                if i == before.len() {
                    assert(after[j] == before[j]);
                } else if j == before.len() {
                    assert(after[i] == before[i]);
                } else {
                    assert(after[i] == before[i] && after[j] == before[j]);
                }
            }
        }
    }
    after.lemma_multiset_has_no_duplicates();
    after.to_multiset_ensures();
}

impl FloatingLayout {
    /// Takes `window`, whose geometry is `geometry`, under management in a
    /// new frame `frame_window`. A window that is already tracked, or a
    /// frame identifier that is not free, is turned down and nothing
    /// changes.
    pub fn manage_window(&self, state: &mut CrabState, window: u32, geometry: &Geometry, frame_window: u32) -> (r: Result<
        Vec<Request>,
        WmError,
    >)
        requires
            old(state).wf(),
        ensures
            final(state).wf(),
            final(state).sequences_to_ignore == old(state).sequences_to_ignore,
            manage_effect(*old(state), *final(state), window, *geometry, frame_window, r),
    {
        if state.find_window_state(window).is_some() {
            return Err(WmError::AlreadyManaged(window));
        }
        if frame_window == window || state.find_window_state(frame_window).is_some() {
            return Err(WmError::FrameInUse(frame_window));
        }
        let root = state.root;
        let requests = vec![
            Request::CreateWindow {
                window: frame_window,
                parent: root,
                x: geometry.x,
                y: geometry.y,
                width: geometry.width,
                height: geometry.height,
                border_width: FRAME_BORDER_WIDTH,
                event_mask: FRAME_EVENT_MASK,
            },
            Request::GrabServer,
            Request::ChangeSaveSet { mode: SetMode::Insert, window },
            Request::ReparentWindow { window, parent: frame_window, x: 0, y: 0, suppress_echo: true },
            Request::MapWindow { window },
            Request::MapWindow { window: frame_window },
            Request::UngrabServer,
        ];
        state.insert_window(WindowState::new(window, frame_window, geometry));
        proof {
            assert(requests@ =~= manage_requests(window, frame_window, *geometry, root));
        }
        Ok(requests)
    }

    /// Releases the client `window` if it is managed; an untracked window
    /// changes nothing.
    pub fn handle_unmap_notify_event(&self, state: &mut CrabState, window: u32) -> (r: Vec<Request>)
        requires
            old(state).wf(),
        ensures
            final(state).wf(),
            final(state).sequences_to_ignore == old(state).sequences_to_ignore,
            unmap_effect(*old(state), *final(state), window, r@),
    {
        let root = state.root;
        match state.remove_window(window) {
            Some(s) => {
                let requests = vec![
                    Request::ChangeSaveSet { mode: SetMode::Delete, window: s.window },
                    Request::ReparentWindow { window: s.window, parent: root, x: s.x, y: s.y, suppress_echo: false },
                    Request::DestroyWindow { window: s.frame_window },
                ];
                proof {
                    assert(requests@ =~= unmap_requests(s, root));
                }
                requests
            },
            None => Vec::new(),
        }
    }

    /// Passes an unmanaged window's configure request on without its
    /// stacking hints; a framed window's request is refused.
    pub fn handle_configure_request_event(&self, state: &mut CrabState, event: ConfigureRequest) -> (r: Result<
        Vec<Request>,
        WmError,
    >)
        requires
            old(state).wf(),
        ensures
            *final(state) == *old(state),
            configure_effect(*old(state), *final(state), event, r),
    {
        if state.find_window_state(event.window).is_some() {
            return Err(WmError::ConfigureManaged(event.window));
        }
        let mut values = ConfigureValues::from_configure_request(&event);
        values.sibling = None;
        values.stack_mode = None;
        let requests = vec![Request::ConfigureWindow { window: event.window, values }];
        proof {
            assert(requests@ =~= configure_requests(event));
        }
        Ok(requests)
    }

    /// Marks `window` for repaint at the next flush.
    pub fn handle_expose_event(&self, state: &mut CrabState, window: u32) -> (r: Vec<Request>)
        requires
            old(state).wf(),
        ensures
            final(state).wf(),
            final(state).sequences_to_ignore == old(state).sequences_to_ignore,
            expose_effect(*old(state), *final(state), window, r@),
    {
        state.record_expose(window);
        Vec::new()
    }

    /// Focuses the managed window the pointer entered and raises its frame.
    pub fn handle_enter_notify_event(&self, state: &mut CrabState, event: u32) -> (r: Vec<Request>)
        requires
            old(state).wf(),
        ensures
            *final(state) == *old(state),
            enter_effect(*old(state), *final(state), event, r@),
    {
        match state.find_window_state(event) {
            Some(s) => {
                let mut values = ConfigureValues::new();
                values.stack_mode = Some(StackMode::Above);
                let requests = vec![
                    Request::SetInputFocus { focus: s.window },
                    Request::ConfigureWindow { window: s.frame_window, values },
                ];
                proof {
                    let i = choose|i: int|
                        0 <= i < state.window_states@.len() && state.window_states@[i] == s;
                    assert(requests@ =~= focus_requests(state.window_states@[i]));
                }
                requests
            },
            None => Vec::new(),
        }
    }

    /// Drops the input focus, whichever window was left.
    pub fn handle_leave_notify_event(&self, state: &mut CrabState, event: u32) -> (r: Vec<Request>)
        requires
            old(state).wf(),
        ensures
            *final(state) == *old(state),
            leave_effect(*old(state), *final(state), r@),
    {
        let requests = vec![Request::SetInputFocus { focus: NO_WINDOW }];
        proof {
            assert(requests@ =~= leave_requests());
        }
        requests
    }

    /// Moves the dragged frame, if a drag is in progress, to the drag's
    /// offset plus the pointer's root position.
    pub fn handle_motion_notify_event(&self, state: &mut CrabState, root_x: i16, root_y: i16) -> (r: Vec<Request>)
        requires
            old(state).wf(),
        ensures
            *final(state) == *old(state),
            motion_effect(*old(state), *final(state), root_x, root_y, r@),
    {
        match state.drag_window {
            Some(d) => {
                let x: i32 = d.x as i32 + root_x as i32;
                let y: i32 = d.y as i32 + root_y as i32;
                let mut values = ConfigureValues::new();
                values.x = Some(x);
                values.y = Some(y);
                let requests = vec![Request::ConfigureWindow { window: d.window.frame_window, values }];
                proof {
                    assert(requests@ =~= drag_requests(d, root_x, root_y));
                }
                requests
            },
            None => Vec::new(),
        }
    }
}

} // verus!
