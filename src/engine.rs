use vstd::prelude::*;

use crate::registry::{
    ClientRegistry, RegistryOp, apply_op, entries_wf, has_entry, key_index, keys_of,
    lemma_key_index, with_client, without_client,
};
use crate::Position;

verus! {

/// Modifier bit of the Control key in an event's state.
pub const CONTROL_MASK: u32 = 4;

/// State bit set while pointer button 1 is held.
pub const BUTTON1_MASK: u32 = 256;

/// State bit set while pointer button 3 is held.
pub const BUTTON3_MASK: u32 = 1024;

/// Pointer button that moves a window (with Control).
pub const MOVE_BUTTON: u32 = 1;

/// Pointer button that resizes a window (with Control).
pub const RESIZE_BUTTON: u32 = 3;

/// Map state of a window that is mapped and all of whose ancestors are mapped.
pub const IS_VIEWABLE: i32 = 2;

pub const FRAME_BORDER_WIDTH: u32 = 3;

pub const FRAME_BORDER_COLOR: u64 = 0xff0000;

pub const FRAME_BACKGROUND_COLOR: u64 = 0x0000ff;

/// Bits of a configure request's value mask.
pub const CW_X: u64 = 1;

pub const CW_Y: u64 = 2;

pub const CW_WIDTH: u64 = 4;

pub const CW_HEIGHT: u64 = 8;

pub const CW_BORDER_WIDTH: u64 = 16;

pub const CW_SIBLING: u64 = 32;

pub const CW_STACK_MODE: u64 = 64;

/// What the server reports of a window that is about to be framed.
#[derive(Clone, Copy, Debug, PartialEq, Eq, Structural)]
pub struct WindowAttributes {
    pub x: i32,
    pub y: i32,
    pub width: u32,
    pub height: u32,
    pub override_redirect: bool,
    pub map_state: i32,
}

/// Placement and style of a frame window to create.
#[derive(Clone, Copy, Debug, PartialEq, Eq, Structural)]
pub struct FrameSpec {
    pub x: i32,
    pub y: i32,
    pub width: u32,
    pub height: u32,
    pub border_width: u32,
    pub border_color: u64,
    pub background_color: u64,
}

/// A client's request to change its geometry or stacking.
#[derive(Clone, Copy, Debug, PartialEq, Eq, Structural)]
pub struct ConfigureRequest {
    pub window: u64,
    pub x: i32,
    pub y: i32,
    pub width: i32,
    pub height: i32,
    pub border_width: i32,
    pub above: u64,
    pub detail: i32,
    pub value_mask: u64,
}

/// The fields of a configure request that its value mask selects; `None` leaves a field as it is.
#[derive(Clone, Copy, Debug, PartialEq, Eq)]
pub struct WindowChanges {
    pub x: Option<i32>,
    pub y: Option<i32>,
    pub width: Option<i32>,
    pub height: Option<i32>,
    pub border_width: Option<i32>,
    pub sibling: Option<u64>,
    pub stack_mode: Option<i32>,
}

/// An operation the engine asks the windowing-system server to perform.
#[derive(Clone, Copy, Debug, PartialEq, Eq)]
pub enum Request {
    /// Redirect and report the structure changes of the window's children.
    SelectSubstructure { window: u64 },
    AddToSaveSet { window: u64 },
    Reparent { window: u64, parent: u64, x: i32, y: i32 },
    MapWindow { window: u64 },
    UnmapWindow { window: u64 },
    DestroyWindow { window: u64 },
    /// Passive asynchronous grab of `button` with `modifiers` on `window`.
    GrabButton { button: u32, modifiers: u32, window: u64 },
    /// Passive asynchronous grab of `keycode` with `modifiers` on `window`.
    GrabKey { keycode: u32, modifiers: u32, window: u64 },
    Configure { window: u64, changes: WindowChanges },
    Raise { window: u64 },
    Move { window: u64, x: i32, y: i32 },
    Resize { window: u64, width: u32, height: u32 },
    /// A client message of type `message_type` whose first datum is `protocol`.
    SendProtocolMessage { window: u64, message_type: u64, protocol: u64 },
    KillClient { window: u64 },
    Focus { window: u64 },
}

/// A broken precondition of the registry.
#[derive(Clone, Copy, Debug, PartialEq, Eq, Structural)]
pub enum WmFault {
    /// The window is already a registered client.
    AlreadyFramed,
    /// A window cannot be its own frame.
    FrameIsClient,
    /// The window is not a registered client.
    NotAClient,
}

/// What a key press asks for.
#[derive(Clone, Copy, Debug, PartialEq, Eq, Structural)]
pub enum KeyCommand {
    Close,
    Cycle,
    Other,
}

/// Whether a window gets a frame: windows that existed before the manager started are
/// framed only when they are viewable and do not ask for override-redirect.
pub open spec fn wants_frame(a: WindowAttributes, was_pre_existing: bool) -> bool {
    !was_pre_existing || (!a.override_redirect && a.map_state == IS_VIEWABLE)
}

pub open spec fn frame_spec_of(a: WindowAttributes) -> FrameSpec {
    FrameSpec {
        x: a.x,
        y: a.y,
        width: a.width,
        height: a.height,
        border_width: FRAME_BORDER_WIDTH,
        border_color: FRAME_BORDER_COLOR,
        background_color: FRAME_BACKGROUND_COLOR,
    }
}

/// The frame to create for a window with attributes `a`, or `None` to leave it unmanaged.
pub fn frame_spec_for(a: &WindowAttributes, was_pre_existing: bool) -> (r: Option<FrameSpec>)
    ensures
        r == (if wants_frame(*a, was_pre_existing) {
            Some(frame_spec_of(*a))
        } else {
            None
        }),
{
    if was_pre_existing && (a.override_redirect || a.map_state != IS_VIEWABLE) {
        None
    } else {
        Some(
            FrameSpec {
                x: a.x,
                y: a.y,
                width: a.width,
                height: a.height,
                border_width: FRAME_BORDER_WIDTH,
                border_color: FRAME_BORDER_COLOR,
                background_color: FRAME_BACKGROUND_COLOR,
            },
        )
    }
}

/// The windows of an adoption pass that get a frame, in order, with their frames.
pub open spec fn adoption_spec(ws: Seq<(u64, WindowAttributes)>) -> Seq<(u64, FrameSpec)>
    decreases ws.len(),
{
    if ws.len() == 0 {
        Seq::empty()
    } else {
        let rest = adoption_spec(ws.drop_last());
        let (w, a) = ws.last();
        if wants_frame(a, true) {
            rest.push((w, frame_spec_of(a)))
        } else {
            rest
        }
    }
}

/// The number of windows that ask for override-redirect or are not viewable.
pub open spec fn declined_count(ws: Seq<(u64, WindowAttributes)>) -> nat
    decreases ws.len(),
{
    if ws.len() == 0 {
        0
    } else {
        let a = ws.last().1;
        declined_count(ws.drop_last()) + if a.override_redirect || a.map_state != IS_VIEWABLE {
            1nat
        } else {
            0nat
        }
    }
}

/// The frames to create for the top-level windows found at startup.
pub fn adoption_plan(windows: &Vec<(u64, WindowAttributes)>) -> (r: Vec<(u64, FrameSpec)>)
    ensures
        r@ == adoption_spec(windows@),
{
    let mut out: Vec<(u64, FrameSpec)> = Vec::new();
    let mut i: usize = 0;
    while i < windows.len()
        invariant
            i <= windows@.len(),
            out@ == adoption_spec(windows@.subrange(0, i as int)),
        decreases windows@.len() - i,
    {
        let (w, a) = windows[i];
        let plan = frame_spec_for(&a, true);
        assert(windows@.subrange(0, i + 1).drop_last() =~= windows@.subrange(0, i as int));
        if let Some(spec) = plan {
            out.push((w, spec));
        }
        i = i + 1;
    }
    assert(windows@.subrange(0, windows@.len() as int) =~= windows@);
    out
}

/// Adoption frames exactly the windows that neither ask for override-redirect nor are
/// hidden: of N windows of which M decline, N - M get a frame.
pub proof fn lemma_adoption_count(ws: Seq<(u64, WindowAttributes)>)
    ensures
        adoption_spec(ws).len() + declined_count(ws) == ws.len(),
    decreases ws.len(),
{
    if ws.len() > 0 {
        lemma_adoption_count(ws.drop_last());
    }
}

pub open spec fn frame_requests(w: u64, f: u64, close_key: u32, cycle_key: u32) -> Seq<Request> {
    seq![
        Request::SelectSubstructure { window: f },
        Request::AddToSaveSet { window: w },
        Request::Reparent { window: w, parent: f, x: 0, y: 0 },
        Request::MapWindow { window: f },
        Request::GrabButton { button: MOVE_BUTTON, modifiers: CONTROL_MASK, window: w },
        Request::GrabButton { button: RESIZE_BUTTON, modifiers: CONTROL_MASK, window: w },
        Request::GrabKey { keycode: close_key, modifiers: CONTROL_MASK, window: w },
        Request::GrabKey { keycode: cycle_key, modifiers: CONTROL_MASK, window: w },
    ]
}

pub open spec fn unframe_requests(f: u64) -> Seq<Request> {
    seq![Request::UnmapWindow { window: f }, Request::DestroyWindow { window: f }]
}

/// The changes that `e.value_mask` selects from `e`.
pub open spec fn selected_changes_spec(e: ConfigureRequest) -> WindowChanges {
    WindowChanges {
        x: if e.value_mask & CW_X != 0 { Some(e.x) } else { None },
        y: if e.value_mask & CW_Y != 0 { Some(e.y) } else { None },
        width: if e.value_mask & CW_WIDTH != 0 { Some(e.width) } else { None },
        height: if e.value_mask & CW_HEIGHT != 0 { Some(e.height) } else { None },
        border_width: if e.value_mask & CW_BORDER_WIDTH != 0 { Some(e.border_width) } else { None },
        sibling: if e.value_mask & CW_SIBLING != 0 { Some(e.above) } else { None },
        stack_mode: if e.value_mask & CW_STACK_MODE != 0 { Some(e.detail) } else { None },
    }
}

pub fn selected_changes(e: &ConfigureRequest) -> (r: WindowChanges)
    ensures
        r == selected_changes_spec(*e),
{
    let m = e.value_mask;
    WindowChanges {
        x: if m & CW_X != 0 { Some(e.x) } else { None },
        y: if m & CW_Y != 0 { Some(e.y) } else { None },
        width: if m & CW_WIDTH != 0 { Some(e.width) } else { None },
        height: if m & CW_HEIGHT != 0 { Some(e.height) } else { None },
        border_width: if m & CW_BORDER_WIDTH != 0 { Some(e.border_width) } else { None },
        sibling: if m & CW_SIBLING != 0 { Some(e.above) } else { None },
        stack_mode: if m & CW_STACK_MODE != 0 { Some(e.detail) } else { None },
    }
}

/// A request that selects only width and height changes neither position, border nor stacking.
pub proof fn lemma_size_only_configure(e: ConfigureRequest)
    requires
        e.value_mask == CW_WIDTH | CW_HEIGHT,
    ensures
        selected_changes_spec(e) == (WindowChanges {
            x: None,
            y: None,
            width: Some(e.width),
            height: Some(e.height),
            border_width: None,
            sibling: None,
            stack_mode: None,
        }),
{
    let m = e.value_mask;
    assert(m & 1 == 0 && m & 2 == 0 && m & 4 != 0 && m & 8 != 0 && m & 16 == 0 && m & 32 == 0
        && m & 64 == 0) by (bit_vector)
        requires
            m == 4u64 | 8u64,
    ;
}

/// `v` limited to the range `lo..=hi`.
pub open spec fn clamp(v: int, lo: int, hi: int) -> int {
    if v < lo {
        lo
    } else if v > hi {
        hi
    } else {
        v
    }
}

fn saturate_i32(v: i64) -> (r: i32)
    ensures
        r == clamp(v as int, i32::MIN as int, i32::MAX as int),
{
    if v < i32::MIN as i64 {
        i32::MIN
    } else if v > i32::MAX as i64 {
        i32::MAX
    } else {
        v as i32
    }
}

fn saturate_size(v: i64) -> (r: u32)
    ensures
        r == clamp(v as int, 0, u32::MAX as int),
{
    if v < 0 {
        0
    } else if v > u32::MAX as i64 {
        u32::MAX
    } else {
        v as u32
    }
}

/// Whether `elt` is one of `list`.
pub fn in_list(list: &Vec<u64>, elt: u64) -> (r: bool)
    ensures
        r == list@.contains(elt),
{
    let mut i: usize = 0;
    while i < list.len()
        invariant
            i <= list@.len(),
            forall|j: int| 0 <= j < i ==> list@[j] != elt,
        decreases list@.len() - i,
    {
        if list[i] == elt {
            assert(list@[i as int] == elt);
            return true;
        }
        i = i + 1;
    }
    false
}

/// The index after `i` in a cycle of length `n`.
pub open spec fn next_index(i: int, n: int) -> int {
    if i + 1 < n {
        i + 1
    } else {
        0
    }
}

/// Raise and focus the client that follows the one at index `i` in cycling order.
pub open spec fn cycle_requests(s: Seq<(u64, u64)>, i: int) -> Seq<Request> {
    let j = next_index(i, s.len() as int);
    seq![Request::Raise { window: s[j].1 }, Request::Focus { window: s[j].0 }]
}

/// The index reached from `j` after `m` cycling steps in a cycle of length `n`.
pub open spec fn cycle_from(j: int, m: nat, n: int) -> int
    decreases m,
{
    if m == 0 {
        j
    } else {
        next_index(cycle_from(j, (m - 1) as nat, n), n)
    }
}

proof fn lemma_cycle_from_in_range(j: int, m: nat, n: int)
    requires
        0 <= j < n,
    ensures
        0 <= cycle_from(j, m, n) < n,
    decreases m,
{
    if m > 0 {
        lemma_cycle_from_in_range(j, (m - 1) as nat, n);
    }
}

proof fn lemma_cycle_from_offset(j: int, m: nat, n: int)
    requires
        0 <= j < n,
        m < n,
    ensures
        cycle_from(j, m, n) == if j + m < n {
            j + m
        } else {
            j + m - n
        },
    decreases m,
{
    if m > 0 {
        lemma_cycle_from_offset(j, (m - 1) as nat, n);
    }
}

/// Pressing the cycle key over and over, starting on the client at index `j` of the
/// entries `s`, focuses after step `m` the client at `cycle_from(j, m, n)`; in `n` presses
/// every client is focused exactly once, in registration order, and the last press comes
/// back to the starting client (with one client, it refocuses itself).
pub proof fn lemma_cycle_visits_every_client(s: Seq<(u64, u64)>, j: int)
    requires
        entries_wf(s),
        0 <= j < s.len(),
    ensures
        forall|m: nat|
            0 <= #[trigger] cycle_from(j, m, s.len() as int) < s.len() && key_index(
                s,
                s[cycle_from(j, m, s.len() as int)].0,
            ) == cycle_from(j, m, s.len() as int),
        forall|m: nat|
            #[trigger] cycle_requests(s, cycle_from(j, m, s.len() as int)) == seq![
                Request::Raise { window: s[cycle_from(j, m + 1, s.len() as int)].1 },
                Request::Focus { window: s[cycle_from(j, m + 1, s.len() as int)].0 },
            ],
        cycle_from(j, s.len(), s.len() as int) == j,
        forall|c: u64|
            #[trigger] keys_of(s).contains(c) ==> exists|m: nat|
                1 <= m <= s.len() && s[#[trigger] cycle_from(j, m, s.len() as int)].0 == c,
        forall|m1: nat, m2: nat|
            1 <= m1 <= s.len() && 1 <= m2 <= s.len() && m1 != m2 ==> s[#[trigger] cycle_from(
                j,
                m1,
                s.len() as int,
            )].0 != s[#[trigger] cycle_from(j, m2, s.len() as int)].0,
{
    let n = s.len() as int;
    assert forall|m: nat|
        0 <= #[trigger] cycle_from(j, m, n) < n && key_index(s, s[cycle_from(j, m, n)].0)
            == cycle_from(j, m, n) by {
        lemma_cycle_from_in_range(j, m, n);
        lemma_key_index(s, cycle_from(j, m, n));
    }
    assert forall|m: nat|
        #[trigger] cycle_requests(s, cycle_from(j, m, n)) == seq![
            Request::Raise { window: s[cycle_from(j, m + 1, n)].1 },
            Request::Focus { window: s[cycle_from(j, m + 1, n)].0 },
        ] by {
        assert(cycle_from(j, m + 1, n) == next_index(cycle_from(j, m, n), n));
    }
    lemma_cycle_from_offset(j, (n - 1) as nat, n);
    assert(cycle_from(j, n as nat, n) == next_index(cycle_from(j, (n - 1) as nat, n), n));
    assert forall|c: u64| #[trigger] keys_of(s).contains(c) implies exists|m: nat|
        1 <= m <= n && s[#[trigger] cycle_from(j, m, n)].0 == c by {
        let i = choose|i: int| 0 <= i < n && keys_of(s)[i] == c;
        assert(s[i].0 == c);
        if i == j {
            assert(cycle_from(j, n as nat, n) == i);
        } else {
            let m: nat = if i > j {
                (i - j) as nat
            } else {
                (i - j + n) as nat
            };
            lemma_cycle_from_offset(j, m, n);
            assert(cycle_from(j, m, n) == i);
        }
    }
    assert forall|m1: nat, m2: nat|
        1 <= m1 <= n && 1 <= m2 <= n && m1 != m2 implies s[#[trigger] cycle_from(j, m1, n)].0
        != s[#[trigger] cycle_from(j, m2, n)].0 by {
        if m1 < n {
            lemma_cycle_from_offset(j, m1, n);
        }
        if m2 < n {
            lemma_cycle_from_offset(j, m2, n);
        }
        let a = cycle_from(j, m1, n);
        let b = cycle_from(j, m2, n);
        lemma_cycle_from_in_range(j, m1, n);
        lemma_cycle_from_in_range(j, m2, n);
        assert(a != b);
        assert(keys_of(s)[a] == s[a].0 && keys_of(s)[b] == s[b].0);
    }
}

/// Ask `w` to close itself when it supports the delete-window protocol, else cut it off.
pub open spec fn close_requests(
    w: u64,
    protocols: Seq<u64>,
    wm_protocols: u64,
    wm_delete_window: u64,
) -> Seq<Request> {
    if protocols.contains(wm_delete_window) {
        seq![
            Request::SendProtocolMessage {
                window: w,
                message_type: wm_protocols,
                protocol: wm_delete_window,
            },
        ]
    } else {
        seq![Request::KillClient { window: w }]
    }
}

/// The engine's state: the registry, the drag session and the values fixed at startup.
pub struct WindowManager {
    pub root: u64,
    pub clients: ClientRegistry,
    pub drag_start_pos: Position,
    pub drag_start_frame_pos: Position,
    pub drag_start_frame_size: Position,
    pub wm_protocols: u64,
    pub wm_delete_window: u64,
    pub close_keycode: u32,
    pub cycle_keycode: u32,
}

impl WindowManager {
    pub open spec fn wf(&self) -> bool {
        self.clients.wf()
    }

    /// The root window, the protocol atoms and the key bindings are those of `other`.
    pub open spec fn keeps_settings(&self, other: &WindowManager) -> bool {
        &&& self.root == other.root
        &&& self.wm_protocols == other.wm_protocols
        &&& self.wm_delete_window == other.wm_delete_window
        &&& self.close_keycode == other.close_keycode
        &&& self.cycle_keycode == other.cycle_keycode
    }

    /// The drag session is that of `other`.
    pub open spec fn keeps_drag(&self, other: &WindowManager) -> bool {
        &&& self.drag_start_pos == other.drag_start_pos
        &&& self.drag_start_frame_pos == other.drag_start_frame_pos
        &&& self.drag_start_frame_size == other.drag_start_frame_size
    }

    /// Whether `w` is a registered client.
    pub open spec fn is_client(&self, w: u64) -> bool {
        self.clients.clients().contains(w)
    }

    /// A manager for the screen with root window `root`, with no clients yet.
    pub fn create(
        root: u64,
        wm_protocols: u64,
        wm_delete_window: u64,
        close_keycode: u32,
        cycle_keycode: u32,
    ) -> (r: WindowManager)
        ensures
            r.wf(),
            r.root == root,
            r.clients@ == Seq::<(u64, u64)>::empty(),
            r.drag_start_pos == (Position { x: 0, y: 0 }),
            r.drag_start_frame_pos == (Position { x: 0, y: 0 }),
            r.drag_start_frame_size == (Position { x: 0, y: 0 }),
            r.wm_protocols == wm_protocols,
            r.wm_delete_window == wm_delete_window,
            r.close_keycode == close_keycode,
            r.cycle_keycode == cycle_keycode,
    {
        WindowManager {
            root,
            clients: ClientRegistry::new(),
            drag_start_pos: Position::default(),
            drag_start_frame_pos: Position::default(),
            drag_start_frame_size: Position::default(),
            wm_protocols,
            wm_delete_window,
            close_keycode,
            cycle_keycode,
        }
    }

    /// The frame of client `w`, if it is registered.
    pub fn frame_of(&self, w: u64) -> (r: Option<u64>)
        requires
            self.wf(),
        ensures
            r is None <==> !self.is_client(w),
            r matches Some(f) ==> has_entry(self.clients@, w, f),
    {
        self.clients.frame_of(w)
    }

    /// The frame to create for window `w`: refused for a registered client, `None` for a
    /// window that stays unmanaged.
    pub fn plan_frame(&self, w: u64, attrs: &WindowAttributes, was_pre_existing: bool) -> (r:
        Result<Option<FrameSpec>, WmFault>)
        requires
            self.wf(),
        ensures
            self.is_client(w) ==> r == Err::<Option<FrameSpec>, WmFault>(WmFault::AlreadyFramed),
            !self.is_client(w) ==> r == Ok::<Option<FrameSpec>, WmFault>(
                if wants_frame(*attrs, was_pre_existing) {
                    Some(frame_spec_of(*attrs))
                } else {
                    None
                },
            ),
    {
        if self.clients.contains(w) {
            Err(WmFault::AlreadyFramed)
        } else {
            Ok(frame_spec_for(attrs, was_pre_existing))
        }
    }

    /// Registers client `w` with its new frame `f` and returns the requests that decorate,
    /// save, reparent and map it and grab the management bindings on it.
    pub fn frame(&mut self, w: u64, f: u64) -> (r: Result<Vec<Request>, WmFault>)
        requires
            old(self).wf(),
        ensures
            final(self).wf(),
            old(self).is_client(w) ==> r == Err::<Vec<Request>, WmFault>(WmFault::AlreadyFramed),
            !old(self).is_client(w) && w == f ==> r == Err::<Vec<Request>, WmFault>(
                WmFault::FrameIsClient,
            ),
            r is Err ==> final(self).clients@ == old(self).clients@,
            r is Ok <==> !old(self).is_client(w) && w != f,
            final(self).clients@ == apply_op(
                old(self).clients@,
                (RegistryOp::Frame { client: w, frame: f }),
            ),
            r matches Ok(v) ==> v@ == frame_requests(
                w,
                f,
                old(self).close_keycode,
                old(self).cycle_keycode,
            ) && final(self).clients@ == with_client(old(self).clients@, w, f)
                && final(self).clients.clients() == old(self).clients.clients().insert(w),
            final(self).keeps_settings(old(self)),
            final(self).keeps_drag(old(self)),
    {
        if self.clients.contains(w) {
            return Err(WmFault::AlreadyFramed);
        }
        if w == f {
            return Err(WmFault::FrameIsClient);
        }
        self.clients.insert(w, f);
        let reqs = vec![
            Request::SelectSubstructure { window: f },
            Request::AddToSaveSet { window: w },
            Request::Reparent { window: w, parent: f, x: 0, y: 0 },
            Request::MapWindow { window: f },
            Request::GrabButton { button: MOVE_BUTTON, modifiers: CONTROL_MASK, window: w },
            Request::GrabButton { button: RESIZE_BUTTON, modifiers: CONTROL_MASK, window: w },
            Request::GrabKey { keycode: self.close_keycode, modifiers: CONTROL_MASK, window: w },
            Request::GrabKey { keycode: self.cycle_keycode, modifiers: CONTROL_MASK, window: w },
        ];
        assert(reqs@ =~= frame_requests(w, f, self.close_keycode, self.cycle_keycode));
        Ok(reqs)
    }

    /// Forgets client `w` and returns the requests that take down its frame.
    pub fn unframe(&mut self, w: u64) -> (r: Result<Vec<Request>, WmFault>)
        requires
            old(self).wf(),
        ensures
            final(self).wf(),
            r is Ok <==> old(self).is_client(w),
            r is Err ==> r == Err::<Vec<Request>, WmFault>(WmFault::NotAClient)
                && final(self).clients@ == old(self).clients@,
            r matches Ok(v) ==> exists|f: u64|
                has_entry(old(self).clients@, w, f) && v@ == #[trigger] unframe_requests(f),
            r is Ok ==> final(self).clients@ == without_client(old(self).clients@, w),
            final(self).clients@ == apply_op(old(self).clients@, (RegistryOp::Unframe { client: w })),
            final(self).clients.clients() == old(self).clients.clients().remove(w),
            final(self).keeps_settings(old(self)),
            final(self).keeps_drag(old(self)),
    {
        match self.clients.remove(w) {
            None => Err(WmFault::NotAClient),
            Some(f) => {
                let reqs = vec![Request::UnmapWindow { window: f }, Request::DestroyWindow { window: f }];
                assert(reqs@ =~= unframe_requests(f));
                Ok(reqs)
            },
        }
    }

    /// A client asks to be shown: it gets the frame `f` created for it, then is mapped.
    pub fn on_map_request(&mut self, w: u64, f: u64) -> (r: Result<Vec<Request>, WmFault>)
        requires
            old(self).wf(),
        ensures
            final(self).wf(),
            final(self).keeps_settings(old(self)),
            final(self).keeps_drag(old(self)),
            r is Ok <==> !old(self).is_client(w) && w != f,
            r is Err ==> final(self).clients@ == old(self).clients@,
            r matches Ok(v) ==> v@ == frame_requests(
                w,
                f,
                old(self).close_keycode,
                old(self).cycle_keycode,
            ).push(Request::MapWindow { window: w }) && final(self).clients@ == with_client(
                old(self).clients@,
                w,
                f,
            ),
    {
        match self.frame(w, f) {
            Ok(mut reqs) => {
                reqs.push(Request::MapWindow { window: w });
                Ok(reqs)
            },
            Err(e) => Err(e),
        }
    }

    /// A window was unmapped; `event_window` is the parent that reported it.
    pub fn on_unmap_notify(&mut self, w: u64, event_window: u64) -> (r: Vec<Request>)
        requires
            old(self).wf(),
        ensures
            final(self).wf(),
            final(self).keeps_settings(old(self)),
            final(self).keeps_drag(old(self)),
            !old(self).is_client(w) || event_window == old(self).root ==> r@ == Seq::<
                Request,
            >::empty() && final(self).clients@ == old(self).clients@,
            old(self).is_client(w) && event_window != old(self).root ==> (exists|f: u64|
                has_entry(old(self).clients@, w, f) && r@ == #[trigger] unframe_requests(f))
                && final(self).clients@ == without_client(old(self).clients@, w),
    {
        if !self.clients.contains(w) {
            return Vec::new();
        }
        if event_window == self.root {
            return Vec::new();
        }
        match self.unframe(w) {
            Ok(reqs) => reqs,
            Err(_) => Vec::new(),
        }
    }

    /// Applies the selected changes of `e` to the client's frame, if it has one, and to the
    /// client itself.
    pub fn on_configure_request(&self, e: &ConfigureRequest) -> (r: Vec<Request>)
        requires
            self.wf(),
        ensures
            !self.is_client(e.window) ==> r@ == seq![
                Request::Configure { window: e.window, changes: selected_changes_spec(*e) },
            ],
            self.is_client(e.window) ==> exists|f: u64|
                has_entry(self.clients@, e.window, f) && r@ == #[trigger] seq![
                    Request::Configure { window: f, changes: selected_changes_spec(*e) },
                    Request::Configure { window: e.window, changes: selected_changes_spec(*e) },
                ],
    {
        let changes = selected_changes(e);
        let mut reqs: Vec<Request> = Vec::new();
        match self.clients.frame_of(e.window) {
            Some(f) => {
                reqs.push(Request::Configure { window: f, changes });
            },
            None => {},
        }
        reqs.push(Request::Configure { window: e.window, changes });
        reqs
    }

    /// Starts a drag on client `w`: records the pointer and the frame's geometry at the start
    /// and raises the frame.
    pub fn on_button_press(
        &mut self,
        w: u64,
        pointer: Position,
        frame_pos: Position,
        frame_size: Position,
    ) -> (r: Result<Vec<Request>, WmFault>)
        requires
            old(self).wf(),
        ensures
            final(self).wf(),
            final(self).clients@ == old(self).clients@,
            final(self).keeps_settings(old(self)),
            !old(self).is_client(w) ==> r == Err::<Vec<Request>, WmFault>(WmFault::NotAClient)
                && final(self).keeps_drag(old(self)),
            old(self).is_client(w) ==> (exists|f: u64|
                #[trigger] has_entry(old(self).clients@, w, f) && (r matches Ok(v) && v@ == seq![
                    Request::Raise { window: f },
                ])) && final(self).drag_start_pos == pointer && final(self).drag_start_frame_pos
                == frame_pos && final(self).drag_start_frame_size == frame_size,
    {
        match self.clients.frame_of(w) {
            None => Err(WmFault::NotAClient),
            Some(f) => {
                self.drag_start_pos = pointer;
                self.drag_start_frame_pos = frame_pos;
                self.drag_start_frame_size = frame_size;
                let reqs = vec![Request::Raise { window: f }];
                assert(reqs@ =~= seq![Request::Raise { window: f }]);
                Ok(reqs)
            },
        }
    }

    /// The frame position a move drag puts the frame at, for the pointer at `p`.
    pub open spec fn moved_to(&self, p: Position) -> (int, int) {
        (
            clamp(
                self.drag_start_frame_pos.x + (p.x - self.drag_start_pos.x),
                i32::MIN as int,
                i32::MAX as int,
            ),
            clamp(
                self.drag_start_frame_pos.y + (p.y - self.drag_start_pos.y),
                i32::MIN as int,
                i32::MAX as int,
            ),
        )
    }

    /// The size a resize drag gives the frame and client, never negative.
    pub open spec fn resized_to(&self, p: Position) -> (int, int) {
        (
            clamp(
                self.drag_start_frame_size.x + (p.x - self.drag_start_pos.x),
                0,
                u32::MAX as int,
            ),
            clamp(
                self.drag_start_frame_size.y + (p.y - self.drag_start_pos.y),
                0,
                u32::MAX as int,
            ),
        )
    }

    /// A move drag puts the frame at its start position plus the pointer's offset from
    /// the drag start, whenever that fits the coordinate range; a resize drag gives the
    /// start size plus that offset, never below zero.
    pub proof fn lemma_drag_results(&self, p: Position)
        ensures
            i32::MIN <= self.drag_start_frame_pos.x + (p.x - self.drag_start_pos.x) <= i32::MAX
                ==> self.moved_to(p).0 == self.drag_start_frame_pos.x + (p.x
                - self.drag_start_pos.x),
            i32::MIN <= self.drag_start_frame_pos.y + (p.y - self.drag_start_pos.y) <= i32::MAX
                ==> self.moved_to(p).1 == self.drag_start_frame_pos.y + (p.y
                - self.drag_start_pos.y),
            self.resized_to(p).0 >= 0 && self.resized_to(p).1 >= 0,
            self.drag_start_frame_size.x + (p.x - self.drag_start_pos.x) <= u32::MAX
                ==> self.resized_to(p).0 == if self.drag_start_frame_size.x + (p.x
                - self.drag_start_pos.x) > 0 {
                self.drag_start_frame_size.x + (p.x - self.drag_start_pos.x)
            } else {
                0
            },
            self.drag_start_frame_size.y + (p.y - self.drag_start_pos.y) <= u32::MAX
                ==> self.resized_to(p).1 == if self.drag_start_frame_size.y + (p.y
                - self.drag_start_pos.y) > 0 {
                self.drag_start_frame_size.y + (p.y - self.drag_start_pos.y)
            } else {
                0
            },
    {
    }

    /// The pointer moved to `pointer` during a drag on client `w` with buttons `state`:
    /// button 1 moves the frame, button 3 resizes frame and client.
    pub fn on_motion_notify(&self, w: u64, pointer: Position, state: u32) -> (r: Result<
        Vec<Request>,
        WmFault,
    >)
        requires
            self.wf(),
        ensures
            !self.is_client(w) ==> r == Err::<Vec<Request>, WmFault>(WmFault::NotAClient),
            self.is_client(w) ==> exists|f: u64|
                #[trigger] has_entry(self.clients@, w, f) && (r matches Ok(v) && v@ == (if state
                    & BUTTON1_MASK != 0 {
                    seq![
                        Request::Move {
                            window: f,
                            x: self.moved_to(pointer).0 as i32,
                            y: self.moved_to(pointer).1 as i32,
                        },
                    ]
                } else if state & BUTTON3_MASK != 0 {
                    seq![
                        Request::Resize {
                            window: f,
                            width: self.resized_to(pointer).0 as u32,
                            height: self.resized_to(pointer).1 as u32,
                        },
                        Request::Resize {
                            window: w,
                            width: self.resized_to(pointer).0 as u32,
                            height: self.resized_to(pointer).1 as u32,
                        },
                    ]
                } else {
                    Seq::empty()
                })),
    {
        match self.clients.frame_of(w) {
            None => Err(WmFault::NotAClient),
            Some(f) => {
                let dx: i64 = pointer.x as i64 - self.drag_start_pos.x as i64;
                let dy: i64 = pointer.y as i64 - self.drag_start_pos.y as i64;
                let mut reqs: Vec<Request> = Vec::new();
                if state & BUTTON1_MASK != 0 {
                    let x = saturate_i32(self.drag_start_frame_pos.x as i64 + dx);
                    let y = saturate_i32(self.drag_start_frame_pos.y as i64 + dy);
                    reqs.push(Request::Move { window: f, x, y });
                } else if state & BUTTON3_MASK != 0 {
                    let width = saturate_size(self.drag_start_frame_size.x as i64 + dx);
                    let height = saturate_size(self.drag_start_frame_size.y as i64 + dy);
                    reqs.push(Request::Resize { window: f, width, height });
                    reqs.push(Request::Resize { window: w, width, height });
                }
                Ok(reqs)
            },
        }
    }

    pub open spec fn key_command(&self, keycode: u32, state: u32) -> KeyCommand {
        if state & CONTROL_MASK != 0 && keycode == self.close_keycode {
            KeyCommand::Close
        } else if state & CONTROL_MASK != 0 && keycode == self.cycle_keycode {
            KeyCommand::Cycle
        } else {
            KeyCommand::Other
        }
    }

    /// Which binding, if any, the key `keycode` pressed with modifiers `state` triggers.
    pub fn classify_key(&self, keycode: u32, state: u32) -> (r: KeyCommand)
        ensures
            r == self.key_command(keycode, state),
    {
        if state & CONTROL_MASK != 0 && keycode == self.close_keycode {
            KeyCommand::Close
        } else if state & CONTROL_MASK != 0 && keycode == self.cycle_keycode {
            KeyCommand::Cycle
        } else {
            KeyCommand::Other
        }
    }

    /// The requests that close client `w`, given the protocols it declares.
    pub fn close_window(&self, w: u64, protocols: &Vec<u64>) -> (r: Vec<Request>)
        ensures
            r@ == close_requests(w, protocols@, self.wm_protocols, self.wm_delete_window),
    {
        let mut reqs: Vec<Request> = Vec::new();
        if in_list(protocols, self.wm_delete_window) {
            reqs.push(
                Request::SendProtocolMessage {
                    window: w,
                    message_type: self.wm_protocols,
                    protocol: self.wm_delete_window,
                },
            );
        } else {
            reqs.push(Request::KillClient { window: w });
        }
        assert(reqs@ =~= close_requests(w, protocols@, self.wm_protocols, self.wm_delete_window));
        reqs
    }

    /// The requests that raise and focus the client after `w` in cycling order, wrapping.
    pub fn cycle_focus(&self, w: u64) -> (r: Result<Vec<Request>, WmFault>)
        requires
            self.wf(),
        ensures
            !self.is_client(w) ==> r == Err::<Vec<Request>, WmFault>(WmFault::NotAClient),
            self.is_client(w) ==> (r matches Ok(v) && v@ == cycle_requests(
                self.clients@,
                key_index(self.clients@, w),
            )),
    {
        match self.clients.position(w) {
            None => Err(WmFault::NotAClient),
            Some(i) => {
                let n = self.clients.len();
                let j: usize = if i + 1 < n {
                    i + 1
                } else {
                    0
                };
                let (next, f) = self.clients.entry(j);
                let reqs = vec![Request::Raise { window: f }, Request::Focus { window: next }];
                assert(reqs@ =~= cycle_requests(self.clients@, i as int));
                Ok(reqs)
            },
        }
    }

    /// A key was pressed in client `w`; `protocols` are the protocols `w` declares (read
    /// from the server when the key closes windows, and otherwise unused).
    pub fn on_key_press(&self, w: u64, keycode: u32, state: u32, protocols: &Vec<u64>) -> (r:
        Result<Vec<Request>, WmFault>)
        requires
            self.wf(),
        ensures
            self.key_command(keycode, state) == KeyCommand::Close ==> (r matches Ok(v) && v@
                == close_requests(w, protocols@, self.wm_protocols, self.wm_delete_window)),
            self.key_command(keycode, state) == KeyCommand::Cycle && !self.is_client(w) ==> r
                == Err::<Vec<Request>, WmFault>(WmFault::NotAClient),
            self.key_command(keycode, state) == KeyCommand::Cycle && self.is_client(w) ==> (r matches Ok(v)
                && v@ == cycle_requests(self.clients@, key_index(self.clients@, w))),
            self.key_command(keycode, state) == KeyCommand::Other ==> (r matches Ok(v) && v@
                == Seq::<Request>::empty()),
    {
        match self.classify_key(keycode, state) {
            KeyCommand::Close => Ok(self.close_window(w, protocols)),
            KeyCommand::Cycle => self.cycle_focus(w),
            KeyCommand::Other => Ok(Vec::new()),
        }
    }
}

} // verus!
