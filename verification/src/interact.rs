use vstd::prelude::*;
use crate::events::Action;
use crate::events::KeyInput;
use crate::events::Mode;
use crate::events::spec_translate_key;
use crate::print_list::PaintedList;
use crate::print_list::print_list;
use crate::print_list::rows_model;
use crate::print_list::spec_render_high;
use crate::print_list::spec_render_rows;
use crate::utils::ListItem;

verus! {

/// The session's state: the cursor's row inside the viewport, the index of
/// the first visible item, the mode, and the viewport geometry captured once
/// at session start.
#[derive(Clone, Copy, Debug, PartialEq, Eq, Structural)]
pub struct Session {
    pub cursor_position: i32,
    pub cursor_offset: usize,
    pub mode: Mode,
    pub term_width: u16,
    pub term_height: u16,
}

/// One painted screen: the visible rows, the status line's text and the row
/// it goes on.
pub struct Frame {
    pub list: PaintedList,
    pub status: String,
    pub status_row: u16,
}

/// What one processed action asks of the caller: nothing, painting the given
/// frame, or ending the session (restoring cursor visibility is then the
/// caller's last duty).
pub enum StepResult {
    Idle,
    Painted(Frame),
    Quit,
}

/// The status line under the list, telling the user how to leave the
/// current mode.
pub open spec fn spec_status_line(mode: Mode) -> Seq<char> {
    if mode is Edit {
        "CTRL-g to quit. CTRL-w to stop editing"@
    } else {
        "CTRL-g to quit. CTRL-w to edit"@
    }
}

/// The frame is exactly what painting `items` under session `s` yields:
/// the rendered rows, the reported highlighted row, and the status line for
/// the session's mode on the next-to-last screen row.
pub open spec fn frame_matches(f: Frame, items: Seq<ListItem>, s: Session) -> bool {
    &&& rows_model(f.list.rows@) == spec_render_rows(
        items,
        s.cursor_offset as int,
        s.cursor_position as int,
        s.max_cursor(),
        s.term_width as int,
    )
    &&& f.list.highlighted_position as int == spec_render_high(
        items,
        s.cursor_offset as int,
        s.cursor_position as int,
        s.max_cursor(),
        s.term_width as int,
    )
    &&& f.status@ == spec_status_line(s.mode)
    &&& f.status_row == s.term_height - 2
}

impl Session {
    /// Rows available to the list: the bottom tenth of the viewport is
    /// reserved for the status line.
    pub open spec fn max_cursor(self) -> int {
        self.term_height - self.term_height / 10
    }

    /// The geometry is usable and the cursor sits inside the viewport.
    pub open spec fn wf(self) -> bool {
        &&& self.term_width >= 1
        &&& self.term_height >= 2
        &&& 0 <= self.cursor_position < self.max_cursor()
    }

    /// A fresh session over the given viewport: top of the list, first row
    /// highlighted, navigate mode.
    pub fn new(term_width: u16, term_height: u16) -> (s: Session)
        requires
            term_width >= 1,
            term_height >= 2,
        ensures
            s == (Session {
                cursor_position: 0,
                cursor_offset: 0,
                mode: Mode::Navigate,
                term_width,
                term_height,
            }),
            s.wf(),
    {
        Session { cursor_position: 0, cursor_offset: 0, mode: Mode::Navigate, term_width, term_height }
    }

    /// The number of list rows, as a value.
    pub fn max_cursor_value(&self) -> (r: u16)
        ensures
            r as int == self.max_cursor(),
    {
        self.term_height - self.term_height / 10
    }
}

/// A `Move(delta)` is applied only when the moved cursor stays inside
/// `[0, max_cursor)` and still points at an existing item.
pub open spec fn spec_move_applies(s: Session, nitems: int, delta: int) -> bool {
    &&& 0 <= s.cursor_position + delta < s.max_cursor()
    &&& s.cursor_position + delta + s.cursor_offset < nitems
}

/// The state right after a move is committed, before scroll correction.
pub open spec fn spec_committed(s: Session, delta: int) -> Session {
    Session { cursor_position: (s.cursor_position + delta) as i32, ..s }
}

/// A full `Move(delta)` in navigate mode: commit the candidate if it
/// applies, then correct the scroll from the row the paint reported: at the
/// bottom edge the list scrolls down under a pinned cursor, and at the top
/// edge (cursor row 1 with something scrolled away) it scrolls back up.
pub open spec fn spec_move(s: Session, items: Seq<ListItem>, delta: int) -> Session {
    if !spec_move_applies(s, items.len() as int, delta) {
        s
    } else {
        let s1 = spec_committed(s, delta);
        let high = spec_render_high(
            items,
            s1.cursor_offset as int,
            s1.cursor_position as int,
            s1.max_cursor(),
            s1.term_width as int,
        );
        if high >= s1.max_cursor() - 1 {
            Session {
                cursor_offset: (s1.cursor_offset + 1) as usize,
                cursor_position: (s1.cursor_position - delta) as i32,
                ..s1
            }
        } else if s1.cursor_position == 1 && s1.cursor_offset > 0 {
            Session {
                cursor_offset: (s1.cursor_offset - 1) as usize,
                cursor_position: (s1.cursor_position - delta) as i32,
                ..s1
            }
        } else {
            s1
        }
    }
}

/// The session after one action: moves act only while navigating, the
/// toggles switch the mode, and everything else leaves the session as it
/// was.
pub open spec fn spec_step_state(s: Session, items: Seq<ListItem>, a: Action) -> Session {
    match a {
        Action::Move(d) => if s.mode is Navigate {
            spec_move(s, items, d as int)
        } else {
            s
        },
        Action::EnterEdit => if s.mode is Navigate {
            Session { mode: Mode::Edit, ..s }
        } else {
            s
        },
        Action::ExitEdit => if s.mode is Edit {
            Session { mode: Mode::Navigate, ..s }
        } else {
            s
        },
        _ => s,
    }
}

/// The item the edit actions apply to: the one the cursor highlights.
pub open spec fn spec_edit_index(s: Session) -> int {
    s.cursor_position + s.cursor_offset
}

/// How one action changes the item list: an edit action in edit mode edits
/// the highlighted item's answer and recommits its caches, leaving every
/// other item alone; every other action leaves the list untouched.
pub open spec fn items_step_ok(
    old_items: Seq<ListItem>,
    new_items: Seq<ListItem>,
    s: Session,
    a: Action,
) -> bool {
    if s.mode is Edit && (a is InsertChar || a is Backspace) {
        let idx = spec_edit_index(s);
        &&& new_items.len() == old_items.len()
        &&& forall|j: int| 0 <= j < old_items.len() && j != idx ==> new_items[j] == old_items[j]
        &&& (0 <= idx < old_items.len() ==> {
            let oi = old_items[idx];
            let ni = new_items[idx];
            &&& ni.same_identity(oi)
            &&& ni.outputs_fresh()
            &&& (a matches Action::InsertChar(c) ==> ni.answer@ == oi.answer@.push(c))
            &&& (a is Backspace ==> (oi.answer@.len() == 0 ==> ni.answer@ == oi.answer@) && (
            oi.answer@.len() > 0 ==> ni.answer@ == oi.answer@.drop_last()))
        })
    } else {
        new_items == old_items
    }
}

/// Whether processing the action repaints the screen: applied moves, mode
/// toggles and edits do; a rejected move, `Quit` and `NoOp` do not.
pub open spec fn spec_repaints(s: Session, nitems: int, a: Action) -> bool {
    match a {
        Action::Move(d) => s.mode is Navigate && spec_move_applies(s, nitems, d as int),
        Action::EnterEdit => s.mode is Navigate,
        Action::ExitEdit => s.mode is Edit,
        Action::InsertChar(_) => s.mode is Edit,
        Action::Backspace => s.mode is Edit,
        Action::Quit => false,
        Action::NoOp => false,
    }
}

/// The session state the repainted frame shows: for a move, the committed
/// state before scroll correction (the correction prepares the next frame);
/// for everything else, the state after the action.
pub open spec fn spec_painted_session(s: Session, items: Seq<ListItem>, a: Action) -> Session {
    match a {
        Action::Move(d) => spec_committed(s, d as int),
        _ => spec_step_state(s, items, a),
    }
}

impl Session {
    /// Paints the visible slice of `out_vec` for the current state; the
    /// caller puts each row on screen and the status line on `status_row`.
    pub fn render_frame(&self, out_vec: &Vec<ListItem>) -> (f: Frame)
        requires
            self.wf(),
        ensures
            frame_matches(f, out_vec@, *self),
    {
        let list = print_list(
            self.max_cursor_value(),
            self.term_width,
            out_vec,
            self.cursor_offset,
            self.cursor_position,
        );
        let status = match self.mode {
            Mode::Edit => "CTRL-g to quit. CTRL-w to stop editing".to_owned(),
            Mode::Navigate => "CTRL-g to quit. CTRL-w to edit".to_owned(),
        };
        Frame { list, status, status_row: self.term_height - 2 }
    }

    /// Processes one action: updates the session and the items as the state
    /// machine says, and tells the caller whether to repaint the returned
    /// frame, do nothing, or end the session (`Quit` from either mode; the
    /// caller then restores cursor visibility).
    pub fn apply_action(&mut self, out_vec: &mut Vec<ListItem>, action: Action) -> (r: StepResult)
        requires
            old(self).wf(),
            old(self).cursor_offset <= old(out_vec)@.len(),
            action matches Action::Move(d) ==> d == 1 || d == -1,
            old(self).mode is Edit && (action is InsertChar || action is Backspace) ==> 0 <= spec_edit_index(
                *old(self),
            ) < old(out_vec)@.len(),
        ensures
            *final(self) == spec_step_state(*old(self), old(out_vec)@, action),
            items_step_ok(old(out_vec)@, final(out_vec)@, *old(self), action),
            final(self).wf(),
            final(self).cursor_offset <= final(out_vec)@.len(),
            (r is Quit) <==> action is Quit,
            (r is Painted) <==> spec_repaints(*old(self), old(out_vec)@.len() as int, action),
            (r matches StepResult::Painted(f) ==> frame_matches(
                f,
                final(out_vec)@,
                spec_painted_session(*old(self), old(out_vec)@, action),
            )),
    {
        match action {
            Action::Move(key_dir) => {
                match self.mode {
                    Mode::Navigate => {
                        let candidate = self.cursor_position + key_dir;
                        let mc = self.max_cursor_value();
                        let in_viewport = candidate >= 0 && candidate < mc as i32;
                        let on_an_item = in_viewport && (candidate as usize) < out_vec.len()
                            && self.cursor_offset < out_vec.len() - (candidate as usize);
                        if on_an_item {
                            self.cursor_position = candidate;
                            let f = self.render_frame(out_vec);
                            let high = f.list.highlighted_position;
                            if high >= ((mc - 1) as u128) {
                                self.cursor_offset = self.cursor_offset + 1;
                                self.cursor_position = self.cursor_position - key_dir;
                            } else if self.cursor_position == 1 && self.cursor_offset > 0 {
                                self.cursor_offset = self.cursor_offset - 1;
                                self.cursor_position = self.cursor_position - key_dir;
                            }
                            StepResult::Painted(f)
                        } else {
                            StepResult::Idle
                        }
                    },
                    Mode::Edit => StepResult::Idle,
                }
            },
            Action::EnterEdit => {
                match self.mode {
                    Mode::Navigate => {
                        self.mode = Mode::Edit;
                        StepResult::Painted(self.render_frame(out_vec))
                    },
                    Mode::Edit => StepResult::Idle,
                }
            },
            Action::ExitEdit => {
                match self.mode {
                    Mode::Edit => {
                        self.mode = Mode::Navigate;
                        StepResult::Painted(self.render_frame(out_vec))
                    },
                    Mode::Navigate => StepResult::Idle,
                }
            },
            Action::InsertChar(c) => {
                match self.mode {
                    Mode::Edit => {
                        let n = out_vec.len();
                        proof {
                            assert(0 <= spec_edit_index(*self) < n);
                        }
                        let idx = (self.cursor_position as usize) + self.cursor_offset;
                        let mut editing_item = out_vec.remove(idx);
                        editing_item.insert_char(c);
                        out_vec.insert(idx, editing_item);
                        proof {
                            assert(forall|j: int|
                                0 <= j < old(out_vec)@.len() && j != idx ==> out_vec@[j]
                                    == old(out_vec)@[j]);
                        }
                        StepResult::Painted(self.render_frame(out_vec))
                    },
                    Mode::Navigate => StepResult::Idle,
                }
            },
            Action::Backspace => {
                match self.mode {
                    Mode::Edit => {
                        let n = out_vec.len();
                        proof {
                            assert(0 <= spec_edit_index(*self) < n);
                        }
                        let idx = (self.cursor_position as usize) + self.cursor_offset;
                        let mut editing_item = out_vec.remove(idx);
                        editing_item.backspace();
                        out_vec.insert(idx, editing_item);
                        proof {
                            assert(forall|j: int|
                                0 <= j < old(out_vec)@.len() && j != idx ==> out_vec@[j]
                                    == old(out_vec)@[j]);
                        }
                        StepResult::Painted(self.render_frame(out_vec))
                    },
                    Mode::Navigate => StepResult::Idle,
                }
            },
            Action::Quit => StepResult::Quit,
            Action::NoOp => StepResult::Idle,
        }
    }
}

/// The session after a whole run of navigation actions, first to last; the
/// item list is read, never changed, by such a run.
pub open spec fn spec_run_states(s: Session, items: Seq<ListItem>, acts: Seq<Action>) -> Session
    decreases acts.len(),
{
    if acts.len() == 0 {
        s
    } else {
        spec_run_states(spec_step_state(s, items, acts[0]), items, acts.drop_first())
    }
}

/// One move keeps the session well formed: the cursor stays inside
/// `[0, max_cursor)`, the scroll offset stays within the list, and the mode
/// and geometry are untouched.
pub proof fn lemma_move_step_in_bounds(s: Session, items: Seq<ListItem>, a: Action)
    requires
        s.wf(),
        s.cursor_offset <= items.len(),
        a matches Action::Move(d) && (d == 1 || d == -1),
    ensures
        spec_step_state(s, items, a).wf(),
        spec_step_state(s, items, a).cursor_offset <= items.len(),
        spec_step_state(s, items, a).mode == s.mode,
        spec_step_state(s, items, a).term_width == s.term_width,
        spec_step_state(s, items, a).term_height == s.term_height,
{
}

/// For every sequence of move actions, the scroll offset never goes
/// negative and never leaves the list, and the cursor position stays within
/// `[0, max_cursor)`. Every prefix of such a run is itself such a run, so
/// the bounds hold at every intermediate state as well.
pub proof fn lemma_move_sequence_in_bounds(s: Session, items: Seq<ListItem>, acts: Seq<Action>)
    requires
        s.wf(),
        s.cursor_offset <= items.len(),
        forall|k: int|
            0 <= k < acts.len() ==> (#[trigger] acts[k] matches Action::Move(d) && (d == 1 || d
                == -1)),
    ensures
        spec_run_states(s, items, acts).wf(),
        0 <= spec_run_states(s, items, acts).cursor_offset <= items.len(),
        0 <= spec_run_states(s, items, acts).cursor_position < s.max_cursor(),
    decreases acts.len(),
{
    if acts.len() > 0 {
        lemma_move_step_in_bounds(s, items, acts[0]);
        lemma_move_sequence_in_bounds(spec_step_state(s, items, acts[0]), items, acts.drop_first());
    }
}

/// For every sequence of move actions the bounds of
/// `lemma_move_sequence_in_bounds` hold not only at the end but after every
/// single move along the way: every prefix of the run keeps the scroll
/// offset non-negative and within the list and the cursor inside
/// `[0, max_cursor)`.
pub proof fn lemma_move_sequence_in_bounds_throughout(
    s: Session,
    items: Seq<ListItem>,
    acts: Seq<Action>,
)
    requires
        s.wf(),
        s.cursor_offset <= items.len(),
        forall|k: int|
            0 <= k < acts.len() ==> (#[trigger] acts[k] matches Action::Move(d) && (d == 1 || d
                == -1)),
    ensures
        forall|k: int|
            0 <= k <= acts.len() ==> {
                let mid = #[trigger] spec_run_states(s, items, acts.take(k));
                &&& mid.wf()
                &&& 0 <= mid.cursor_offset <= items.len()
                &&& 0 <= mid.cursor_position < s.max_cursor()
            },
{
    assert forall|k: int| 0 <= k <= acts.len() implies {
        let mid = #[trigger] spec_run_states(s, items, acts.take(k));
        &&& mid.wf()
        &&& 0 <= mid.cursor_offset <= items.len()
        &&& 0 <= mid.cursor_position < s.max_cursor()
    } by {
        lemma_move_sequence_in_bounds(s, items, acts.take(k));
    }
}

/// Mode toggling is strict: from navigate mode `EnterEdit` enters edit mode
/// and `ExitEdit` then returns to navigate mode, while the translator never
/// emits `EnterEdit` during edit mode nor `ExitEdit` during navigate mode.
pub proof fn lemma_mode_toggle_strict(s: Session, items: Seq<ListItem>)
    requires
        s.mode is Navigate,
    ensures
        spec_step_state(s, items, Action::EnterEdit).mode is Edit,
        spec_step_state(
            spec_step_state(s, items, Action::EnterEdit),
            items,
            Action::ExitEdit,
        ).mode is Navigate,
        forall|key: KeyInput| spec_translate_key(Mode::Edit, key) != Action::EnterEdit,
        forall|key: KeyInput| spec_translate_key(Mode::Navigate, key) != Action::ExitEdit,
{
    assert forall|key: KeyInput| spec_translate_key(Mode::Edit, key) != Action::EnterEdit by {
        let a = spec_translate_key(Mode::Edit, key);
    }
    assert forall|key: KeyInput| spec_translate_key(Mode::Navigate, key) != Action::ExitEdit by {
        let a = spec_translate_key(Mode::Navigate, key);
    }
}

/// `Quit` changes nothing: the session that ends is the session as it was,
/// whatever the mode, and the items are handed back untouched.
pub proof fn lemma_quit_is_terminal(s: Session, items: Seq<ListItem>, new_items: Seq<ListItem>)
    requires
        items_step_ok(items, new_items, s, Action::Quit),
    ensures
        spec_step_state(s, items, Action::Quit) == s,
        new_items == items,
{
}

/// Entering edit mode and leaving it again without any edit leaves the item
/// list — every answer and both cached outputs — unchanged, and the session
/// back exactly where it started.
pub proof fn lemma_enter_exit_keeps_items(
    s: Session,
    items: Seq<ListItem>,
    items1: Seq<ListItem>,
    items2: Seq<ListItem>,
)
    requires
        s.mode is Navigate,
        items_step_ok(items, items1, s, Action::EnterEdit),
        items_step_ok(
            items1,
            items2,
            spec_step_state(s, items, Action::EnterEdit),
            Action::ExitEdit,
        ),
    ensures
        items2 == items,
        spec_step_state(spec_step_state(s, items, Action::EnterEdit), items1, Action::ExitEdit)
            == s,
{
}

} // verus!
