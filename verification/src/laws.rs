//! The routing laws: proof functions stating what the register router and
//! the action-replay log guarantee, over the same spec functions the
//! executable contracts use.

use vstd::prelude::*;

use crate::clipboard::SystemClipboardView;
use crate::clipboard::UseSystemClipboard;
use crate::globals::digit_register;
use crate::globals::is_write_ignored;
use crate::globals::item_register;
use crate::globals::read_result;
use crate::globals::read_unnamed;
use crate::globals::shift_numbered;
use crate::globals::written_clipboard;
use crate::globals::written_last_yank;
use crate::globals::written_registers;
use crate::register::ClipboardItemView;
use crate::register::RegisterView;
use crate::register::is_upper_register;
use crate::register::spec_lower_register;
use crate::replay::ActionView;
use crate::replay::LogView;
use crate::replay::record_step;
use crate::replay::register_recording;

verus! {

/// `c` names one of the numbered-history slots `1`..`9`.
pub open spec fn is_numbered_register(c: char) -> bool {
    '1' <= c && c <= '9'
}

proof fn lemma_shift_untouched(m: Map<char, RegisterView>, i: int, content: RegisterView, k: char)
    requires
        !is_numbered_register(k),
    ensures
        shift_numbered(m, i, content).contains_key(k) == m.contains_key(k),
        m.contains_key(k) ==> shift_numbered(m, i, content)[k] == m[k],
    decreases 10 - i,
{
    if 1 <= i <= 9 {
        assert(k != digit_register(i));
        if m.contains_key(digit_register(i)) {
            lemma_shift_untouched(m.insert(digit_register(i), content), i + 1, m[digit_register(i)], k);
        }
    }
}

proof fn lemma_shift_shifts(m: Map<char, RegisterView>, i: int, content: RegisterView, occ: int)
    requires
        1 <= i <= 9,
        i - 1 <= occ <= 9,
        forall|n: int| i <= n <= occ ==> m.contains_key(#[trigger] digit_register(n)),
    ensures
        shift_numbered(m, i, content).contains_key(digit_register(i)),
        shift_numbered(m, i, content)[digit_register(i)] == content,
        forall|j: int|
            i + 1 <= j <= occ + 1 && j <= 9 ==> shift_numbered(m, i, content).contains_key(
                #[trigger] digit_register(j),
            ) && shift_numbered(m, i, content)[digit_register(j)] == m[digit_register(j - 1)],
    decreases 10 - i,
{
    let r = shift_numbered(m, i, content);
    if m.contains_key(digit_register(i)) {
        let m2 = m.insert(digit_register(i), content);
        let moved = m[digit_register(i)];
        if i == 9 {
            assert(r == m2);
        } else {
            let occ2 = if occ >= i + 1 { occ } else { i };
            assert(forall|n: int| i + 1 <= n <= occ2 ==> m2.contains_key(#[trigger] digit_register(n)));
            lemma_shift_shifts(m2, i + 1, moved, occ2);
            lemma_shift_untouched_digits(m2, i + 1, moved, i);
            assert(r[digit_register(i)] == m2[digit_register(i)]);
            assert forall|j: int|
                i + 1 <= j <= occ + 1 && j <= 9 implies r.contains_key(#[trigger] digit_register(j))
                && r[digit_register(j)] == m[digit_register(j - 1)] by {
                if j == i + 1 {
                    assert(r[digit_register(j)] == moved);
                } else {
                    assert(r[digit_register(j)] == m2[digit_register(j - 1)]);
                    assert(digit_register(j - 1) != digit_register(i));
                }
            }
        }
    } else {
        assert(occ <= i - 1 || m.contains_key(digit_register(i)));
        assert(r == m.insert(digit_register(i), content));
    }
}

proof fn lemma_shift_untouched_digits(
    m: Map<char, RegisterView>,
    i: int,
    content: RegisterView,
    d: int,
)
    requires
        1 <= d < i,
    ensures
        shift_numbered(m, i, content).contains_key(digit_register(d)) == m.contains_key(
            digit_register(d),
        ),
        m.contains_key(digit_register(d)) ==> shift_numbered(m, i, content)[digit_register(d)]
            == m[digit_register(d)],
    decreases 10 - i,
{
    if 1 <= i <= 9 {
        assert(digit_register(d) != digit_register(i));
        if m.contains_key(digit_register(i)) {
            lemma_shift_untouched_digits(
                m.insert(digit_register(i), content),
                i + 1,
                m[digit_register(i)],
                d,
            );
        }
    }
}

/// Law: for any non-special, non-uppercase register name, reading the
/// register right after an explicit write to it yields exactly the written
/// content, whatever the clipboard, policy and freshness memo hold.
pub proof fn lemma_write_read_round_trip(
    m: Map<char, RegisterView>,
    content: RegisterView,
    name: char,
    is_yank: bool,
    linewise: bool,
    path: Option<Seq<char>>,
    policy: UseSystemClipboard,
    clip: SystemClipboardView,
    last_yank: Option<Seq<char>>,
)
    requires
        spec_lower_register(name) == name,
        !is_write_ignored(name),
        name != '+',
        name != '*',
        name != '"',
    ensures
        read_result(
            written_registers(m, content, Some(name), is_yank, linewise),
            Some(name),
            path,
            policy,
            clip,
            last_yank,
        ) == Some(content),
{
}

/// Law: an uppercase register name appends rather than replaces: an explicit
/// write concatenates the register's existing text with the new text, drops
/// the shape metadata, and a read of the same name returns that merged
/// content; the unnamed register mirrors the merged content too.
pub proof fn lemma_write_read_append(
    m: Map<char, RegisterView>,
    content: RegisterView,
    name: char,
    is_yank: bool,
    linewise: bool,
    path: Option<Seq<char>>,
    policy: UseSystemClipboard,
    clip: SystemClipboardView,
    last_yank: Option<Seq<char>>,
)
    requires
        is_upper_register(name),
    ensures
        ({
            let lower = spec_lower_register(name);
            let previous = if m.contains_key(lower) {
                m[lower].text
            } else {
                Seq::<char>::empty()
            };
            let merged = RegisterView {
                text: previous + content.text,
                clipboard_selections: None,
            };
            let written = written_registers(m, content, Some(name), is_yank, linewise);
            &&& read_result(written, Some(name), path, policy, clip, last_yank) == Some(merged)
            &&& written.contains_key('"')
            &&& written['"'] == merged
        }),
{
    assert('A' <= name && name <= 'Z');
}

/// Law: every write whose explicit register is not an uppercase append
/// modifier routes its exact content into the unnamed register, and a
/// store-backed read of `"` (policy `Never`) returns it.
pub proof fn lemma_unnamed_mirrors_write(
    m: Map<char, RegisterView>,
    content: RegisterView,
    register: Option<char>,
    is_yank: bool,
    linewise: bool,
    path: Option<Seq<char>>,
    clip: SystemClipboardView,
    last_yank: Option<Seq<char>>,
)
    requires
        match register {
            Some(reg) => !is_upper_register(reg),
            None => true,
        },
    ensures
        written_registers(m, content, register, is_yank, linewise).contains_key('"'),
        written_registers(m, content, register, is_yank, linewise)['"'] == content,
        read_result(
            written_registers(m, content, register, is_yank, linewise),
            Some('"'),
            path,
            UseSystemClipboard::Never,
            clip,
            last_yank,
        ) == Some(content),
{
    let written = written_registers(m, content, register, is_yank, linewise);
    if register is None && !is_yank {
        let m1 = m.insert('"', content);
        let multiline = content.text.contains('\n');
        let m2 = if !multiline {
            m1.insert('-', content)
        } else {
            m1
        };
        if linewise || multiline {
            assert(!is_numbered_register('"'));
            lemma_shift_untouched(m2, 1, content, '"');
        }
    }
}

/// The Register Store after a sequence of implicit linewise deletes.
pub open spec fn apply_linewise_deletes(
    m: Map<char, RegisterView>,
    ds: Seq<RegisterView>,
) -> Map<char, RegisterView>
    decreases ds.len(),
{
    if ds.len() == 0 {
        m
    } else {
        written_registers(apply_linewise_deletes(m, ds.drop_last()), ds.last(), None, false, true)
    }
}

/// Law: after a sequence of linewise deletes, numbered slot `j` holds the
/// `j`-th most recent delete, for every `j` up to nine that the history
/// covers: the most recent at `1`, and anything older than nine slots
/// discarded.
pub proof fn lemma_numbered_history(m: Map<char, RegisterView>, ds: Seq<RegisterView>, j: int)
    requires
        1 <= j <= 9,
        j <= ds.len(),
    ensures
        apply_linewise_deletes(m, ds).contains_key(digit_register(j)),
        apply_linewise_deletes(m, ds)[digit_register(j)] == ds[ds.len() - j],
    decreases ds.len(),
{
    let prev = apply_linewise_deletes(m, ds.drop_last());
    let last = ds.last();
    assert forall|n: int| 1 <= n <= j - 1 implies prev.contains_key(
        #[trigger] digit_register(n),
    ) by {
        lemma_numbered_history(m, ds.drop_last(), n);
    }
    let m1 = prev.insert('"', last);
    let multiline = last.text.contains('\n');
    let m2 = if !multiline {
        m1.insert('-', last)
    } else {
        m1
    };
    assert(forall|n: int| 1 <= n <= j - 1 ==> m2.contains_key(#[trigger] digit_register(n)));
    lemma_shift_shifts(m2, 1, last, j - 1);
    if j > 1 {
        lemma_numbered_history(m, ds.drop_last(), j - 1);
        assert(m2[digit_register(j - 1)] == prev[digit_register(j - 1)]);
        assert(ds.drop_last()[ds.len() - j] == ds[ds.len() - j]);
    }
}

/// Law: a yank never populates the small-delete register `-` nor any
/// numbered slot: an implicit yank write leaves them all exactly as they
/// were.
pub proof fn lemma_yank_spares_delete_registers(
    m: Map<char, RegisterView>,
    content: RegisterView,
    linewise: bool,
    k: char,
)
    requires
        k == '-' || is_numbered_register(k),
    ensures
        written_registers(m, content, None, true, linewise).contains_key(k) == m.contains_key(k),
        m.contains_key(k) ==> written_registers(m, content, None, true, linewise)[k] == m[k],
{
}

/// Law: a small (single-line, non-linewise) delete never populates the yank
/// register `0`.
pub proof fn lemma_small_delete_spares_yank_register(
    m: Map<char, RegisterView>,
    content: RegisterView,
)
    requires
        !content.text.contains('\n'),
    ensures
        written_registers(m, content, None, false, false).contains_key('0') == m.contains_key('0'),
        m.contains_key('0') ==> written_registers(m, content, None, false, false)['0'] == m['0'],
{
}

/// Law: a black-hole write discards its content: the store keeps every
/// register as it was, except the unnamed register, which mirrors every
/// explicit write before the symbol dispatches; the clipboard and the
/// freshness memo are untouched; and a read of `_` yields no content.
pub proof fn lemma_black_hole_write(
    m: Map<char, RegisterView>,
    content: RegisterView,
    is_yank: bool,
    linewise: bool,
    path: Option<Seq<char>>,
    policy: UseSystemClipboard,
    clip: SystemClipboardView,
    last_yank: Option<Seq<char>>,
)
    ensures
        written_registers(m, content, Some('_'), is_yank, linewise) == m.insert('"', content),
        written_clipboard(clip, content, Some('_'), is_yank, policy) == clip,
        written_last_yank(last_yank, clip, content, Some('_'), is_yank, policy) == last_yank,
        read_result(m, Some('_'), path, policy, clip, last_yank) is None,
{
}

/// Law: under the `OnYank` policy, a yank is mirrored to the clipboard and
/// remembered; while nothing external touches the clipboard, an unnamed
/// read returns the router's own stored content, but once an external actor
/// replaces the clipboard with different text, the freshness check detects
/// it and the unnamed read returns the external content instead.
pub proof fn lemma_on_yank_freshness(
    m: Map<char, RegisterView>,
    content: RegisterView,
    clip: SystemClipboardView,
    last_yank: Option<Seq<char>>,
    external: ClipboardItemView,
)
    ensures
        ({
            let m2 = written_registers(m, content, None, true, false);
            let clip2 = written_clipboard(clip, content, None, true, UseSystemClipboard::OnYank);
            let memo2 = written_last_yank(
                last_yank,
                clip,
                content,
                None,
                true,
                UseSystemClipboard::OnYank,
            );
            &&& read_unnamed(m2, UseSystemClipboard::OnYank, clip2, memo2) == Some(content)
            &&& external.text != content.text ==> read_unnamed(
                m2,
                UseSystemClipboard::OnYank,
                SystemClipboardView { clipboard: Some(external), ..clip2 },
                memo2,
            ) == Some(item_register(external))
        }),
{
}

/// Applying `record_step` to each action of `actions`, in order.
pub open spec fn record_steps(l: LogView, actions: Seq<ActionView>) -> LogView
    decreases actions.len(),
{
    if actions.len() == 0 {
        l
    } else {
        record_step(record_steps(l, actions.drop_last()), actions.last())
    }
}

/// Law: while a dot-repeatable change is being recorded (and no stop or
/// suppression flag is raised), the dot-repeat buffer accumulates exactly
/// the dispatched actions, in dispatch order; replaying that buffer through
/// the replay cursor therefore re-dispatches the very sequence that was
/// performed live.
pub proof fn lemma_dot_recording_accumulates(l: LogView, actions: Seq<ActionView>)
    requires
        l.dot_recording,
        !l.stop_recording_after_next_action,
        !l.ignore_current_insertion,
    ensures
        record_steps(l, actions).recorded_actions == l.recorded_actions + actions,
        record_steps(l, actions).dot_recording,
        !record_steps(l, actions).stop_recording_after_next_action,
        !record_steps(l, actions).ignore_current_insertion,
    decreases actions.len(),
{
    if actions.len() == 0 {
        assert(l.recorded_actions + actions =~= l.recorded_actions);
    } else {
        lemma_dot_recording_accumulates(l, actions.drop_last());
        assert(l.recorded_actions + actions =~= (l.recorded_actions
            + actions.drop_last()).push(actions.last()));
    }
}

/// One begin/stop cycle of named-macro recording: begin recording into
/// `reg`, record `actions` one by one, stop recording.
pub open spec fn recording_cycle(l: LogView, reg: char, actions: Seq<ActionView>) -> LogView {
    let recorded = record_steps(LogView { recording_register: Some(reg), ..l }, actions);
    LogView { recording_register: None, ..recorded }
}

proof fn lemma_record_steps_append(l: LogView, reg: char, actions: Seq<ActionView>)
    requires
        l.recording_register == Some(reg),
        !l.ignore_current_insertion,
    ensures
        record_steps(l, actions).recording_register == Some(reg),
        !record_steps(l, actions).ignore_current_insertion,
        register_recording(record_steps(l, actions).recordings, reg) == register_recording(
            l.recordings,
            reg,
        ) + actions,
    decreases actions.len(),
{
    if actions.len() == 0 {
        assert(register_recording(l.recordings, reg) + actions =~= register_recording(
            l.recordings,
            reg,
        ));
    } else {
        lemma_record_steps_append(l, reg, actions.drop_last());
        let mid = record_steps(l, actions.drop_last());
        let stepped = record_step(mid, actions.last());
        assert(register_recording(stepped.recordings, reg) == register_recording(
            mid.recordings,
            reg,
        ).push(actions.last()));
        assert(register_recording(l.recordings, reg) + actions =~= (register_recording(
            l.recordings,
            reg,
        ) + actions.drop_last()).push(actions.last()));
    }
}

/// Law: named-register macro recording appends across begin/stop cycles for
/// the same register: after two cycles, the register's accumulated sequence
/// is what it held before, followed by the first cycle's actions, followed
/// by the second's.
pub proof fn lemma_macro_recording_appends(
    l: LogView,
    reg: char,
    first: Seq<ActionView>,
    second: Seq<ActionView>,
)
    requires
        !l.ignore_current_insertion,
    ensures
        register_recording(recording_cycle(recording_cycle(l, reg, first), reg, second).recordings, reg)
            == register_recording(l.recordings, reg) + first + second,
{
    let started1 = LogView { recording_register: Some(reg), ..l };
    lemma_record_steps_append(started1, reg, first);
    let after1 = recording_cycle(l, reg, first);
    let started2 = LogView { recording_register: Some(reg), ..after1 };
    lemma_record_steps_append(started2, reg, second);
    assert(register_recording(l.recordings, reg) + first + second =~= (register_recording(
        l.recordings,
        reg,
    ) + first) + second);
}

} // verus!
