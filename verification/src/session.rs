//! Session records behind opaque handles: the live state of one embedded
//! browser instance each, and the foreign ABI that drives it.
//!
//! A handle is a caller-opaque integer; zero is the null handle that `open`
//! returns when the engine cannot be created at all. Each record walks
//! `Uninitialized -> Open -> Closed`; only `Open` accepts mutating
//! operations, and an operation against any other state is a no-op that
//! never faults the caller.

use vstd::prelude::*;

use crate::geometry::{calculate_bounds, letterboxed, scaled_zoom, Rect, Zoom};
use crate::utf16::{encode_utf16_z, utf16_encode};

verus! {

/// Where a record stands in its lifecycle.
#[derive(Clone, Copy, PartialEq, Eq, Structural, Debug)]
pub enum SessionState {
    /// `open` has handed out the handle but the asynchronous control
    /// creation has not completed yet.
    Uninitialized,
    /// The control is live and mutating operations act on it.
    Open,
    /// `close` has released the control; nothing may touch it again.
    Closed,
}

/// The abstract value of one session record.
#[verifier::ext_equal]
pub struct SessionModel {
    pub state: SessionState,
    pub visible: bool,
    pub bounds: Rect,
    /// The inbound queue, oldest message first.
    pub messages: Seq<String>,
    /// The scratch buffer holding the last pulled message as null-terminated
    /// code units; owned by the record, valid only until the next pull.
    pub scratch: Seq<u16>,
}

/// The model of a record that `open` has just allocated.
pub open spec fn fresh_model() -> SessionModel {
    SessionModel {
        state: SessionState::Uninitialized,
        visible: false,
        bounds: Rect { left: 0, top: 0, right: 0, bottom: 0 },
        messages: Seq::empty(),
        scratch: Seq::empty(),
    }
}

/// The model after the asynchronous open chain completes.
pub open spec fn opened_model(m: SessionModel) -> SessionModel {
    SessionModel { state: SessionState::Open, ..m }
}

/// The model after `close`: the control and the queued resources are
/// released, and the record accepts no further work.
pub open spec fn closed_model(m: SessionModel) -> SessionModel {
    SessionModel {
        state: SessionState::Closed,
        visible: false,
        messages: Seq::empty(),
        scratch: Seq::empty(),
        ..m
    }
}

/// The live state of one embedded browser instance.
pub struct SessionRecord {
    state: SessionState,
    visible: bool,
    bounds: Rect,
    queue: std::collections::VecDeque<String>,
    pull_scratch: Vec<u16>,
}

impl View for SessionRecord {
    type V = SessionModel;

    closed spec fn view(&self) -> SessionModel {
        SessionModel {
            state: self.state,
            visible: self.visible,
            bounds: self.bounds,
            messages: self.queue@,
            scratch: self.pull_scratch@,
        }
    }
}

/// The table mapping opaque handles to the records they own. Handle `h`
/// owns the record at index `h - 1`; handle zero is never valid.
pub struct SessionTable {
    slots: Vec<SessionRecord>,
}

impl View for SessionTable {
    type V = Seq<SessionModel>;

    closed spec fn view(&self) -> Seq<SessionModel> {
        Seq::new(self.slots@.len(), |i: int| self.slots@[i]@)
    }
}

/// True when `h` names a record of the table.
pub open spec fn valid_handle(t: Seq<SessionModel>, h: usize) -> bool {
    1 <= h <= t.len()
}

/// The model of the record behind `h`.
pub open spec fn model_of(t: Seq<SessionModel>, h: usize) -> SessionModel {
    t[h - 1]
}

/// True when `h` names a record that accepts mutating operations.
pub open spec fn accepts_ops(t: Seq<SessionModel>, h: usize) -> bool {
    valid_handle(t, h) && model_of(t, h).state is Open
}

/// What the table is owed after `close(h)`: the record behind a valid
/// handle is closed and emptied, any other handle leaves the table alone.
pub open spec fn close_result(t: Seq<SessionModel>, h: usize) -> Seq<SessionModel> {
    if valid_handle(t, h) {
        t.update(h - 1, closed_model(model_of(t, h)))
    } else {
        t
    }
}

impl SessionTable {
    pub fn new() -> (t: SessionTable)
        ensures
            t@ == Seq::<SessionModel>::empty(),
    {
        let t = SessionTable { slots: Vec::new() };
        proof {
            assert(t@ =~= Seq::<SessionModel>::empty());
        }
        t
    }

    /// Allocates the record for one embedded instance and hands out its
    /// handle. The record only becomes `Open` once the asynchronous
    /// creation chain completes; until then every operation on the handle
    /// is a no-op. When the engine cannot be created at all, no record is
    /// allocated and the null handle comes back.
    pub fn open(&mut self, engine_available: bool) -> (h: usize)
        requires
            old(self)@.len() < usize::MAX,
        ensures
            engine_available ==> {
                &&& h == old(self)@.len() + 1
                &&& final(self)@ == old(self)@.push(fresh_model())
            },
            !engine_available ==> h == 0 && final(self)@ == old(self)@,
    {
        if !engine_available {
            return 0;
        }
        let record = SessionRecord {
            state: SessionState::Uninitialized,
            visible: false,
            bounds: Rect { left: 0, top: 0, right: 0, bottom: 0 },
            queue: std::collections::VecDeque::new(),
            pull_scratch: Vec::new(),
        };
        self.slots.push(record);
        proof {
            assert(self@ =~= old(self)@.push(fresh_model()));
        }
        self.slots.len()
    }

    /// Marks the record live once the asynchronous open chain has run.
    /// Harmless against a record that was closed while the chain was still
    /// in flight, and against any handle that names no record.
    pub fn complete_open(&mut self, h: usize)
        ensures
            valid_handle(old(self)@, h) && model_of(old(self)@, h).state is Uninitialized
                ==> final(self)@ == old(self)@.update(
                h - 1,
                opened_model(model_of(old(self)@, h)),
            ),
            !(valid_handle(old(self)@, h) && model_of(old(self)@, h).state is Uninitialized)
                ==> final(self)@ == old(self)@,
    {
        if h == 0 || h > self.slots.len() {
            return ;
        }
        let idx = h - 1;
        match self.slots[idx].state {
            SessionState::Uninitialized => {
                self.slots[idx].state = SessionState::Open;
                proof {
                    assert(self@ =~= old(self)@.update(
                        h - 1,
                        opened_model(model_of(old(self)@, h)),
                    ));
                }
            },
            _ => {
                proof {
                    assert(self@ =~= old(self)@);
                }
            },
        }
    }

    /// Releases the record behind `h`: the state becomes `Closed`, the
    /// queue and the scratch buffer are dropped, and every later operation
    /// on the handle — including another `close` — is a no-op.
    pub fn close(&mut self, h: usize)
        ensures
            final(self)@ == close_result(old(self)@, h),
    {
        if h == 0 || h > self.slots.len() {
            proof {
                assert(self@ =~= close_result(old(self)@, h));
            }
            return ;
        }
        let idx = h - 1;
        self.slots[idx].state = SessionState::Closed;
        self.slots[idx].visible = false;
        self.slots[idx].queue.clear();
        self.slots[idx].pull_scratch.clear();
        proof {
            assert(self@[h - 1] =~= closed_model(model_of(old(self)@, h)));
            assert(self@ =~= close_result(old(self)@, h));
        }
    }

    /// Shows or hides the control. Performed only against an open record;
    /// the result says whether the caller must forward the change to the
    /// control.
    pub fn set_visible(&mut self, h: usize, visible: bool) -> (performed: bool)
        ensures
            performed <==> accepts_ops(old(self)@, h),
            performed ==> final(self)@ == old(self)@.update(
                h - 1,
                (SessionModel { visible, ..model_of(old(self)@, h) }),
            ),
            !performed ==> final(self)@ == old(self)@,
    {
        if h == 0 || h > self.slots.len() {
            proof {
                assert(self@ =~= old(self)@);
            }
            return false;
        }
        let idx = h - 1;
        match self.slots[idx].state {
            SessionState::Open => {
                self.slots[idx].visible = visible;
                proof {
                    assert(self@ =~= old(self)@.update(
                        h - 1,
                        (SessionModel { visible, ..model_of(old(self)@, h) }),
                    ));
                }
                true
            },
            _ => {
                proof {
                    assert(self@ =~= old(self)@);
                }
                false
            },
        }
    }

    /// Moves the control to an absolute rectangle. Performed only against
    /// an open record.
    pub fn resize(&mut self, h: usize, rect: Rect) -> (performed: bool)
        ensures
            performed <==> accepts_ops(old(self)@, h),
            performed ==> final(self)@ == old(self)@.update(
                h - 1,
                (SessionModel { bounds: rect, ..model_of(old(self)@, h) }),
            ),
            !performed ==> final(self)@ == old(self)@,
    {
        if h == 0 || h > self.slots.len() {
            proof {
                assert(self@ =~= old(self)@);
            }
            return false;
        }
        let idx = h - 1;
        match self.slots[idx].state {
            SessionState::Open => {
                self.slots[idx].bounds = rect;
                proof {
                    assert(self@ =~= old(self)@.update(
                        h - 1,
                        (SessionModel { bounds: rect, ..model_of(old(self)@, h) }),
                    ));
                }
                true
            },
            _ => {
                proof {
                    assert(self@ =~= old(self)@);
                }
                false
            },
        }
    }

    /// Applies dpi-aware letterboxed scaling of `rect` against the
    /// reference size, returning the zoom factor for the control. Skipped —
    /// a no-op returning `None` — while the record is not open or not
    /// visible, and for a degenerate rectangle or reference.
    pub fn resize_scaled(
        &mut self,
        h: usize,
        rect: Rect,
        ref_width: i32,
        ref_height: i32,
        dpi: u32,
    ) -> (z: Option<Zoom>)
        ensures
            match z {
                Some(zoom) => {
                    &&& accepts_ops(old(self)@, h)
                    &&& model_of(old(self)@, h).visible
                    &&& rect.width() > 0 && rect.height() > 0
                    &&& ref_width > 0 && ref_height > 0 && dpi >= 1
                    &&& zoom == scaled_zoom(
                        rect.width(),
                        rect.height(),
                        ref_width as int,
                        ref_height as int,
                        dpi as int,
                    )
                    &&& final(self)@ == old(self)@.update(
                        h - 1,
                        (SessionModel {
                            bounds: letterboxed(rect, ref_width as int, ref_height as int),
                            ..model_of(old(self)@, h)
                        }),
                    )
                },
                None => {
                    &&& final(self)@ == old(self)@
                    &&& !(accepts_ops(old(self)@, h) && model_of(old(self)@, h).visible
                        && rect.width() > 0 && rect.height() > 0 && ref_width > 0 && ref_height > 0
                        && dpi >= 1)
                },
            },
    {
        if h == 0 || h > self.slots.len() || ref_width <= 0 || ref_height <= 0 || dpi == 0 {
            proof {
                assert(self@ =~= old(self)@);
            }
            return None;
        }
        let idx = h - 1;
        let live = match self.slots[idx].state {
            SessionState::Open => self.slots[idx].visible,
            _ => false,
        };
        if !live {
            proof {
                assert(self@ =~= old(self)@);
            }
            return None;
        }
        match calculate_bounds(rect, ref_width, ref_height, dpi) {
            Some((out, zoom)) => {
                self.slots[idx].bounds = out;
                proof {
                    assert(self@ =~= old(self)@.update(
                        h - 1,
                        (SessionModel {
                            bounds: letterboxed(rect, ref_width as int, ref_height as int),
                            ..model_of(old(self)@, h)
                        }),
                    ));
                }
                Some(zoom)
            },
            None => {
                proof {
                    assert(self@ =~= old(self)@);
                }
                None
            },
        }
    }

    /// Says whether a fire-and-forget script evaluation may go to the
    /// control: only an open record performs it, and the record itself is
    /// left untouched.
    pub fn execute_script(&mut self, h: usize) -> (performed: bool)
        ensures
            performed <==> accepts_ops(old(self)@, h),
            final(self)@ == old(self)@,
    {
        proof {
            assert(self@ =~= old(self)@);
        }
        self.accepts(h)
    }

    /// Says whether a message post as JSON may go to the control: only an
    /// open record performs it.
    pub fn post_message_as_json(&mut self, h: usize) -> (performed: bool)
        ensures
            performed <==> accepts_ops(old(self)@, h),
            final(self)@ == old(self)@,
    {
        proof {
            assert(self@ =~= old(self)@);
        }
        self.accepts(h)
    }

    /// Says whether the developer tools window may be opened: only an open
    /// record performs it.
    pub fn open_dev_tools(&mut self, h: usize) -> (performed: bool)
        ensures
            performed <==> accepts_ops(old(self)@, h),
            final(self)@ == old(self)@,
    {
        proof {
            assert(self@ =~= old(self)@);
        }
        self.accepts(h)
    }

    fn accepts(&self, h: usize) -> (r: bool)
        ensures
            r <==> accepts_ops(self@, h),
    {
        if h == 0 || h > self.slots.len() {
            return false;
        }
        match self.slots[h - 1].state {
            SessionState::Open => true,
            _ => false,
        }
    }

    /// Appends one inbound message from the script side — a host object
    /// invocation or a web-message event — to the record's queue. Accepted
    /// only while the record is open, so nothing accumulates against a
    /// closed or half-created instance.
    pub fn enqueue_message(&mut self, h: usize, msg: String) -> (accepted: bool)
        ensures
            accepted <==> accepts_ops(old(self)@, h),
            accepted ==> final(self)@ == old(self)@.update(
                h - 1,
                (SessionModel {
                    messages: model_of(old(self)@, h).messages.push(msg),
                    ..model_of(old(self)@, h)
                }),
            ),
            !accepted ==> final(self)@ == old(self)@,
    {
        if h == 0 || h > self.slots.len() {
            proof {
                assert(self@ =~= old(self)@);
            }
            return false;
        }
        let idx = h - 1;
        match self.slots[idx].state {
            SessionState::Open => {
                self.slots[idx].queue.push_back(msg);
                proof {
                    assert(self@ =~= old(self)@.update(
                        h - 1,
                        (SessionModel {
                            messages: model_of(old(self)@, h).messages.push(msg),
                            ..model_of(old(self)@, h)
                        }),
                    ));
                }
                true
            },
            _ => {
                proof {
                    assert(self@ =~= old(self)@);
                }
                false
            },
        }
    }

    /// Non-blocking single-item dequeue: moves the oldest queued message
    /// into the record's scratch buffer as null-terminated code units and
    /// says so. With nothing queued — or against a handle that accepts no
    /// operations — it reports the empty sentinel and touches nothing, so
    /// the empty hot path allocates no buffer.
    pub fn pull(&mut self, h: usize) -> (got: bool)
        ensures
            got <==> accepts_ops(old(self)@, h) && model_of(old(self)@, h).messages.len() > 0,
            got ==> final(self)@ == old(self)@.update(
                h - 1,
                (SessionModel {
                    messages: model_of(old(self)@, h).messages.skip(1),
                    scratch: utf16_encode(model_of(old(self)@, h).messages[0]@) + seq![0u16],
                    ..model_of(old(self)@, h)
                }),
            ),
            !got ==> final(self)@ == old(self)@,
    {
        if h == 0 || h > self.slots.len() {
            proof {
                assert(self@ =~= old(self)@);
            }
            return false;
        }
        let idx = h - 1;
        let live = match self.slots[idx].state {
            SessionState::Open => true,
            _ => false,
        };
        if !live {
            proof {
                assert(self@ =~= old(self)@);
            }
            return false;
        }
        match self.slots[idx].queue.pop_front() {
            Some(msg) => {
                self.slots[idx].pull_scratch.clear();
                encode_utf16_z(msg.as_str(), &mut self.slots[idx].pull_scratch);
                proof {
                    assert(old(self)@[h - 1].messages =~= seq![msg].add(self@[h - 1].messages));
                    assert(self@[h - 1].messages =~= old(self)@[h - 1].messages.skip(1));
                    assert(self@ =~= old(self)@.update(
                        h - 1,
                        (SessionModel {
                            messages: model_of(old(self)@, h).messages.skip(1),
                            scratch: utf16_encode(model_of(old(self)@, h).messages[0]@)
                                + seq![0u16],
                            ..model_of(old(self)@, h)
                        }),
                    ));
                }
                true
            },
            None => {
                proof {
                    assert(self@ =~= old(self)@);
                }
                false
            },
        }
    }

    /// Borrows the scratch buffer holding the last pulled message. The
    /// buffer belongs to the record: the caller must not free it and must
    /// not hold it past the next pull on the same handle.
    pub fn pull_buffer(&self, h: usize) -> (r: Option<&Vec<u16>>)
        ensures
            r is Some <==> valid_handle(self@, h),
            r matches Some(buf) ==> buf@ == model_of(self@, h).scratch,
    {
        if h == 0 || h > self.slots.len() {
            return None;
        }
        Some(&self.slots[h - 1].pull_scratch)
    }

    /// The lifecycle state behind a handle, for callers that must test
    /// before relying on an operation; `None` for the null or unknown
    /// handle.
    pub fn state_of(&self, h: usize) -> (r: Option<SessionState>)
        ensures
            r is Some <==> valid_handle(self@, h),
            r matches Some(st) ==> st == model_of(self@, h).state,
    {
        if h == 0 || h > self.slots.len() {
            return None;
        }
        Some(self.slots[h - 1].state)
    }

    /// How many messages wait behind a handle; zero for a handle that
    /// names no record.
    pub fn queued_messages(&self, h: usize) -> (n: usize)
        ensures
            valid_handle(self@, h) ==> n == model_of(self@, h).messages.len(),
            !valid_handle(self@, h) ==> n == 0,
    {
        if h == 0 || h > self.slots.len() {
            return 0;
        }
        self.slots[h - 1].queue.len()
    }
}

/// Closing is idempotent: a second `close` against the same handle finds
/// the record already closed and empty, and changes nothing.
pub proof fn lemma_close_idempotent(t: Seq<SessionModel>, h: usize)
    ensures
        close_result(close_result(t, h), h) == close_result(t, h),
{
    if valid_handle(t, h) {
        assert(closed_model(closed_model(model_of(t, h))) =~= closed_model(model_of(t, h)));
        assert(close_result(close_result(t, h), h) =~= close_result(t, h));
    }
}

} // verus!
