//! Replayable actions, the replay cursor, the shape memo for the most recent
//! visual selection, and the recording/replay operations of the action log.

use vstd::prelude::*;

use crate::globals::VimGlobals;
use crate::register::lower_register;
use crate::register::spec_lower_register;

verus! {

/// The shape of the most recent visual-mode selection, kept so a replayed
/// change can reconstruct an equivalent selection without re-deriving it.
#[derive(Clone, Copy, Debug, PartialEq, Eq, Structural)]
pub enum RecordedSelection {
    Empty,
    Visual { rows: u32, cols: u32 },
    SingleLine { cols: u32 },
    VisualBlock { rows: u32, cols: u32 },
    VisualLine { rows: u32 },
}

impl Default for RecordedSelection {
    /// Before any visual-mode operation completes, no shape is recorded.
    fn default() -> (r: Self)
        ensures
            r == RecordedSelection::Empty,
    {
        RecordedSelection::Empty
    }
}

/// A UTF-16 code-unit range an input-method composition edit supersedes.
#[derive(Clone, Copy, Debug, PartialEq, Eq, Structural)]
pub struct Utf16Range {
    pub start: isize,
    pub end: isize,
}

/// An opaque command invocation: identity plus parameters, re-dispatchable by
/// name through the host's command entry point exactly as if typed.
#[derive(Debug)]
pub struct CommandInvocation {
    /// The command's registered name.
    pub name: String,
    /// The command's parameters, in the host's serialized form.
    pub arguments: String,
}

/// One recorded user action: an opaque command, or a raw text insertion with
/// the optional composition range it replaces.
#[derive(Debug)]
pub enum ReplayableAction {
    Action(CommandInvocation),
    Insertion { text: String, utf16_range_to_replace: Option<Utf16Range> },
}

/// Mathematical value of a [`ReplayableAction`].
pub enum ActionView {
    Action { name: Seq<char>, arguments: Seq<char> },
    Insertion { text: Seq<char>, utf16_range_to_replace: Option<Utf16Range> },
}

impl View for ReplayableAction {
    type V = ActionView;

    open spec fn view(&self) -> ActionView {
        match self {
            ReplayableAction::Action(command) => ActionView::Action {
                name: command.name@,
                arguments: command.arguments@,
            },
            ReplayableAction::Insertion { text, utf16_range_to_replace } => ActionView::Insertion {
                text: text@,
                utf16_range_to_replace: *utf16_range_to_replace,
            },
        }
    }
}

impl DeepView for ReplayableAction {
    type V = ActionView;

    open spec fn deep_view(&self) -> ActionView {
        self.view()
    }
}

impl Clone for CommandInvocation {
    fn clone(&self) -> (r: Self)
        ensures
            r.name@ == self.name@,
            r.arguments@ == self.arguments@,
    {
        CommandInvocation { name: self.name.clone(), arguments: self.arguments.clone() }
    }
}

impl Clone for ReplayableAction {
    fn clone(&self) -> (r: Self)
        ensures
            r@ == self@,
    {
        match self {
            ReplayableAction::Action(command) => ReplayableAction::Action(command.clone()),
            ReplayableAction::Insertion { text, utf16_range_to_replace } => {
                ReplayableAction::Insertion {
                    text: text.clone(),
                    utf16_range_to_replace: *utf16_range_to_replace,
                }
            },
        }
    }
}

/// Copy an action sequence, preserving its mathematical value.
pub fn copy_actions(v: &Vec<ReplayableAction>) -> (r: Vec<ReplayableAction>)
    ensures
        r.deep_view() == v.deep_view(),
{
    let mut out: Vec<ReplayableAction> = Vec::new();
    let mut i: usize = 0;
    while i < v.len()
        invariant
            i <= v@.len(),
            out@.len() == i,
            forall|j: int| 0 <= j < i ==> (#[trigger] out@[j]).deep_view() == v@[j].deep_view(),
        decreases v@.len() - i,
    {
        let c = v[i].clone();
        let ghost prev = out@;
        out.push(c);
        proof {
            assert forall|j: int| 0 <= j < i + 1 implies (#[trigger] out@[j]).deep_view()
                == v@[j].deep_view() by {
                if j < i as int {
                    assert(out@[j] == prev[j]);
                    assert(prev[j].deep_view() == v@[j].deep_view());
                } else {
                    assert(out@[j] == c);
                    assert(c@ == v@[j]@);
                }
            }
        }
        i += 1;
    }
    proof {
        assert(out.deep_view() =~= v.deep_view());
    }
    out
}

/// Mathematical value of a [`Replayer`].
pub struct ReplayerView {
    pub actions: Seq<ActionView>,
    pub next_index: int,
}

/// A cursor over a chosen action sequence, handing actions out one at a time
/// in their recorded order. The host dispatches each through the same command
/// path used for live keystrokes.
#[derive(Debug)]
pub struct Replayer {
    actions: Vec<ReplayableAction>,
    next_index: usize,
}

impl View for Replayer {
    type V = ReplayerView;

    closed spec fn view(&self) -> ReplayerView {
        ReplayerView { actions: self.actions.deep_view(), next_index: self.next_index as int }
    }
}

impl Replayer {
    /// The cursor has not run past the end of its sequence.
    pub closed spec fn wf(&self) -> bool {
        self.next_index <= self.actions@.len()
    }

    /// A cursor at the start of `actions`.
    pub fn new(actions: Vec<ReplayableAction>) -> (r: Self)
        ensures
            r.wf(),
            r@.actions == actions.deep_view(),
            r@.next_index == 0,
    {
        Replayer { actions, next_index: 0 }
    }

    /// The next recorded action, in original order, or `None` when the
    /// sequence is exhausted.
    pub fn next_action(&mut self) -> (r: Option<ReplayableAction>)
        requires
            old(self).wf(),
        ensures
            final(self).wf(),
            final(self)@.actions == old(self)@.actions,
            if old(self)@.next_index < old(self)@.actions.len() {
                &&& final(self)@.next_index == old(self)@.next_index + 1
                &&& match r {
                    Some(a) => a@ == old(self)@.actions[old(self)@.next_index],
                    None => false,
                }
            } else {
                &&& final(self)@.next_index == old(self)@.next_index
                &&& r is None
            },
    {
        if self.next_index < self.actions.len() {
            let a = self.actions[self.next_index].clone();
            self.next_index = self.next_index + 1;
            Some(a)
        } else {
            None
        }
    }
}

/// The part of the session state the recording of one action reads and
/// writes.
#[verifier::ext_equal]
pub struct LogView {
    pub dot_recording: bool,
    pub stop_recording_after_next_action: bool,
    pub ignore_current_insertion: bool,
    pub recorded_actions: Seq<ActionView>,
    pub recording_register: Option<char>,
    pub recordings: Map<char, Seq<ActionView>>,
}

/// The action sequence accumulated so far for `reg`, empty if none.
pub open spec fn register_recording(
    recordings: Map<char, Seq<ActionView>>,
    reg: char,
) -> Seq<ActionView> {
    if recordings.contains_key(reg) {
        recordings[reg]
    } else {
        Seq::empty()
    }
}

/// Recording one action: a suppressed insertion consumes the one-shot
/// `ignore_current_insertion` flag and records nothing; otherwise the action
/// is appended to the dot-repeat buffer while dot recording is active
/// (stopping it when the stop-after-next flag was set), and appended to the
/// active named-register recording.
pub open spec fn record_step(l: LogView, a: ActionView) -> LogView {
    if l.ignore_current_insertion && (a is Insertion) {
        LogView { ignore_current_insertion: false, ..l }
    } else {
        let l1 = if l.dot_recording {
            if l.stop_recording_after_next_action {
                LogView {
                    recorded_actions: l.recorded_actions.push(a),
                    dot_recording: false,
                    stop_recording_after_next_action: false,
                    ..l
                }
            } else {
                LogView { recorded_actions: l.recorded_actions.push(a), ..l }
            }
        } else {
            l
        };
        match l1.recording_register {
            Some(reg) => LogView {
                recordings: l1.recordings.insert(
                    reg,
                    register_recording(l1.recordings, reg).push(a),
                ),
                ..l1
            },
            None => l1,
        }
    }
}

proof fn lemma_vec_push_deep_view(
    prev: Vec<ReplayableAction>,
    cur: Vec<ReplayableAction>,
    a: ReplayableAction,
)
    requires
        cur@ == prev@.push(a),
    ensures
        cur.deep_view() == prev.deep_view().push(a@),
{
    assert(cur.deep_view() =~= prev.deep_view().push(a.deep_view()));
}

impl VimGlobals {
    /// The log fields as one value, for stating what recording an action
    /// does.
    pub open spec fn log_view(&self) -> LogView {
        LogView {
            dot_recording: self.dot_recording,
            stop_recording_after_next_action: self.stop_recording_after_next_action,
            ignore_current_insertion: self.ignore_current_insertion,
            recorded_actions: self.recorded_actions.deep_view(),
            recording_register: self.recording_register,
            recordings: self.recordings@,
        }
    }

    /// Begin a dot-repeatable change: clear and rebuild the dot-repeat
    /// buffer. During replay this is a no-op, so replay does not re-record
    /// itself.
    pub fn start_dot_recording(&mut self)
        requires
            old(self).wf(),
        ensures
            final(self).wf(),
            old(self).dot_replaying ==> *final(self) == *old(self),
            !old(self).dot_replaying ==> {
                &&& final(self).dot_recording
                &&& !final(self).stop_recording_after_next_action
                &&& final(self).recorded_actions@ == Seq::<ReplayableAction>::empty()
                &&& final(self).ignore_current_insertion == old(self).ignore_current_insertion
                &&& final(self).recorded_count == old(self).recorded_count
                &&& final(self).recorded_selection == old(self).recorded_selection
                &&& VimGlobals::macro_state_unchanged(old(self), final(self))
                &&& VimGlobals::replaying_state_unchanged(old(self), final(self))
                &&& VimGlobals::register_state_unchanged(old(self), final(self))
            },
    {
        if !self.dot_replaying {
            self.dot_recording = true;
            self.recorded_actions = Vec::new();
            self.stop_recording_after_next_action = false;
        }
    }

    /// Record one dispatched action into the active dot-repeat buffer and/or
    /// the active named-register recording.
    pub fn record_action(&mut self, action: ReplayableAction)
        requires
            old(self).wf(),
        ensures
            final(self).wf(),
            final(self).log_view() == record_step(old(self).log_view(), action@),
            final(self).last_recorded_register == old(self).last_recorded_register,
            VimGlobals::replaying_state_unchanged(old(self), final(self)),
            VimGlobals::register_state_unchanged(old(self), final(self)),
            final(self).recorded_count == old(self).recorded_count,
            final(self).recorded_selection == old(self).recorded_selection,
    {
        let is_insertion = match &action {
            ReplayableAction::Insertion { .. } => true,
            ReplayableAction::Action(..) => false,
        };
        if self.ignore_current_insertion && is_insertion {
            self.ignore_current_insertion = false;
            proof {
                assert(self.log_view() =~= record_step(old(self).log_view(), action@));
            }
            return ;
        }
        if self.dot_recording {
            let ghost prev = self.recorded_actions;
            let copied = action.clone();
            let ghost c = copied;
            self.recorded_actions.push(copied);
            proof {
                lemma_vec_push_deep_view(prev, self.recorded_actions, c);
            }
            if self.stop_recording_after_next_action {
                self.dot_recording = false;
                self.stop_recording_after_next_action = false;
            }
        }
        let target = self.recording_register;
        match target {
            Some(reg) => {
                let mut current: Vec<ReplayableAction> = match self.recordings.remove(reg) {
                    Some(v) => v,
                    None => Vec::new(),
                };
                let ghost prev = current;
                current.push(action);
                proof {
                    lemma_vec_push_deep_view(prev, current, action);
                    assert(prev.deep_view() =~= register_recording(old(self).recordings@, reg));
                }
                self.recordings.set(reg, current);
                proof {
                    assert(self.recordings@ =~= record_step(
                        old(self).log_view(),
                        action@,
                    ).recordings);
                    assert(self.log_view() =~= record_step(old(self).log_view(), action@));
                }
            },
            None => {
                proof {
                    assert(self.log_view() =~= record_step(old(self).log_view(), action@));
                }
            },
        }
    }

    /// Start (or resume) recording a named macro into `register`; actions
    /// append to that register's durable sequence until recording stops.
    pub fn begin_recording(&mut self, register: char)
        requires
            old(self).wf(),
        ensures
            final(self).wf(),
            final(self).recording_register == Some(spec_lower_register(register)),
            final(self).last_recorded_register == old(self).last_recorded_register,
            final(self).recordings == old(self).recordings,
            VimGlobals::dot_state_unchanged(old(self), final(self)),
            VimGlobals::replaying_state_unchanged(old(self), final(self)),
            VimGlobals::register_state_unchanged(old(self), final(self)),
    {
        self.recording_register = Some(lower_register(register));
    }

    /// Stop the active named-macro recording, remember which register it
    /// went to, and hand back the full sequence accumulated for it.
    pub fn stop_recording(&mut self) -> (r: Option<Vec<ReplayableAction>>)
        requires
            old(self).wf(),
        ensures
            final(self).wf(),
            match old(self).recording_register {
                Some(reg) => {
                    &&& final(self).recording_register is None
                    &&& final(self).last_recorded_register == Some(reg)
                    &&& match r {
                        Some(actions) => actions.deep_view() == register_recording(
                            old(self).recordings@,
                            reg,
                        ),
                        None => false,
                    }
                },
                None => *final(self) == *old(self) && r is None,
            },
            final(self).recordings == old(self).recordings,
            VimGlobals::dot_state_unchanged(old(self), final(self)),
            VimGlobals::replaying_state_unchanged(old(self), final(self)),
            VimGlobals::register_state_unchanged(old(self), final(self)),
    {
        match self.recording_register {
            Some(reg) => {
                self.recording_register = None;
                self.last_recorded_register = Some(reg);
                let copied = match self.recordings.get(reg) {
                    Some(v) => copy_actions(v),
                    None => Vec::new(),
                };
                Some(copied)
            },
            None => None,
        }
    }

    /// The explicit reset: discard the recording accumulated for `register`.
    pub fn clear_recording(&mut self, register: char)
        requires
            old(self).wf(),
        ensures
            final(self).wf(),
            final(self).recordings@ == old(self).recordings@.remove(
                spec_lower_register(register),
            ),
            final(self).recording_register == old(self).recording_register,
            final(self).last_recorded_register == old(self).last_recorded_register,
            VimGlobals::dot_state_unchanged(old(self), final(self)),
            VimGlobals::replaying_state_unchanged(old(self), final(self)),
            VimGlobals::register_state_unchanged(old(self), final(self)),
    {
        self.recordings.remove(lower_register(register));
    }

    /// Begin replaying `actions`: set the replay cursor over the sequence
    /// and raise the replaying flag for the whole duration, so that
    /// recording logic does not re-record the replay.
    pub fn replay(&mut self, actions: Vec<ReplayableAction>)
        requires
            old(self).wf(),
        ensures
            final(self).wf(),
            final(self).dot_replaying,
            match final(self).replayer {
                Some(rp) => rp@.actions == actions.deep_view() && rp@.next_index == 0,
                None => false,
            },
            final(self).last_replayed_register == old(self).last_replayed_register,
            VimGlobals::dot_state_unchanged(old(self), final(self)),
            VimGlobals::macro_state_unchanged(old(self), final(self)),
            VimGlobals::register_state_unchanged(old(self), final(self)),
    {
        self.replayer = Some(Replayer::new(actions));
        self.dot_replaying = true;
    }

    /// Begin replaying the macro recorded for `register`, if there is one:
    /// its full accumulated sequence is dispatched in original order.
    pub fn replay_register(&mut self, register: char) -> (started: bool)
        requires
            old(self).wf(),
        ensures
            final(self).wf(),
            ({
                let lower = spec_lower_register(register);
                if old(self).recordings@.contains_key(lower) {
                    &&& started
                    &&& final(self).dot_replaying
                    &&& final(self).last_replayed_register == Some(lower)
                    &&& match final(self).replayer {
                        Some(rp) => rp@.actions == old(self).recordings@[lower] && rp@.next_index
                            == 0,
                        None => false,
                    }
                } else {
                    &&& !started
                    &&& *final(self) == *old(self)
                }
            }),
            final(self).recordings == old(self).recordings,
            VimGlobals::dot_state_unchanged(old(self), final(self)),
            final(self).recording_register == old(self).recording_register,
            final(self).last_recorded_register == old(self).last_recorded_register,
            VimGlobals::register_state_unchanged(old(self), final(self)),
    {
        let lower = lower_register(register);
        match self.recordings.get(lower) {
            Some(v) => {
                let copied = copy_actions(v);
                self.last_replayed_register = Some(lower);
                self.replayer = Some(Replayer::new(copied));
                self.dot_replaying = true;
                true
            },
            None => false,
        }
    }

    /// Hand out the next action of the active replay, in recorded order; the
    /// host dispatches it through the live command path. When the sequence
    /// is exhausted the cursor is dropped and the replaying flag lowered.
    pub fn next_replay_action(&mut self) -> (r: Option<ReplayableAction>)
        requires
            old(self).wf(),
        ensures
            final(self).wf(),
            match old(self).replayer {
                Some(rp) => if rp@.next_index < rp@.actions.len() {
                    &&& match r {
                        Some(a) => a@ == rp@.actions[rp@.next_index],
                        None => false,
                    }
                    &&& match final(self).replayer {
                        Some(rp2) => rp2@.actions == rp@.actions && rp2@.next_index == rp@.next_index
                            + 1,
                        None => false,
                    }
                    &&& final(self).dot_replaying == old(self).dot_replaying
                } else {
                    &&& r is None
                    &&& final(self).replayer is None
                    &&& !final(self).dot_replaying
                },
                None => r is None && final(self).replayer is None && final(self).dot_replaying
                    == old(self).dot_replaying,
            },
            final(self).last_replayed_register == old(self).last_replayed_register,
            VimGlobals::dot_state_unchanged(old(self), final(self)),
            VimGlobals::macro_state_unchanged(old(self), final(self)),
            VimGlobals::register_state_unchanged(old(self), final(self)),
    {
        let mut result: Option<ReplayableAction> = None;
        let mut exhausted = false;
        match &mut self.replayer {
            Some(rp) => {
                result = rp.next_action();
                exhausted = result.is_none();
            },
            None => {},
        }
        if exhausted {
            self.replayer = None;
            self.dot_replaying = false;
        }
        result
    }

    /// Interrupt an active replay: simply stop dispatching further recorded
    /// actions. Already-applied edits are not rolled back.
    pub fn stop_replaying(&mut self)
        requires
            old(self).wf(),
        ensures
            final(self).wf(),
            final(self).replayer is None,
            !final(self).dot_replaying,
            final(self).last_replayed_register == old(self).last_replayed_register,
            VimGlobals::dot_state_unchanged(old(self), final(self)),
            VimGlobals::macro_state_unchanged(old(self), final(self)),
            VimGlobals::register_state_unchanged(old(self), final(self)),
    {
        self.replayer = None;
        self.dot_replaying = false;
    }
}

} // verus!
