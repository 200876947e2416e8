//! The session-wide state container: the Register Store, the write/read
//! routing policy for named, special and numbered registers with
//! system-clipboard interop, and the action-replay log's fields.

use vstd::prelude::*;

use crate::clipboard::SystemClipboard;
use crate::clipboard::SystemClipboardView;
use crate::clipboard::UseSystemClipboard;
use crate::register::ClipboardItem;
use crate::register::ClipboardItemView;
use crate::register::Register;
use crate::register::RegisterView;
use crate::register::lower_register;
use crate::register::spec_lower_register;
use crate::replay::RecordedSelection;
use crate::replay::ReplayableAction;
use crate::replay::Replayer;
use crate::store::CharMap;

verus! {

/// The name of numbered-history slot `i`, for `1 <= i <= 9`.
pub open spec fn digit_register(i: int) -> char {
    ((48 + i) as u8) as char
}

fn digit_register_name(i: u8) -> (r: char)
    requires
        1 <= i <= 9,
    ensures
        r == digit_register(i as int),
{
    (48 + i) as char
}

/// The clipboard item a register is forwarded as.
pub open spec fn register_item(content: RegisterView) -> ClipboardItemView {
    ClipboardItemView { text: content.text, metadata: content.clipboard_selections }
}

/// The register content a clipboard item is read back as.
pub open spec fn item_register(item: ClipboardItemView) -> RegisterView {
    RegisterView { text: item.text, clipboard_selections: item.metadata }
}

/// What a read that consults a clipboard target yields.
pub open spec fn read_clip(o: Option<ClipboardItemView>) -> Option<RegisterView> {
    match o {
        Some(item) => Some(item_register(item)),
        None => None,
    }
}

/// Mathematical value of an optional register.
pub open spec fn register_opt_view(r: Option<Register>) -> Option<RegisterView> {
    match r {
        Some(reg) => Some(reg@),
        None => None,
    }
}

/// Mathematical value of optional text.
pub open spec fn text_opt_view(o: Option<String>) -> Option<Seq<char>> {
    match o {
        Some(s) => Some(s@),
        None => None,
    }
}

/// Register names whose explicit write performs no store write: the black
/// hole discards, the others name read-only or derived values.
pub open spec fn is_write_ignored(c: char) -> bool {
    c == '_' || c == ':' || c == '.' || c == '%' || c == '#' || c == '=' || c == '/'
}

/// Register names whose read always yields no content.
pub open spec fn is_read_empty(c: char) -> bool {
    c == '_' || c == ':' || c == '.' || c == '#' || c == '='
}

/// Whether an implicit write under `policy` mirrors to the system clipboard.
pub open spec fn mirrors_implicit_write(policy: UseSystemClipboard, is_yank: bool) -> bool {
    policy == UseSystemClipboard::Always || (policy == UseSystemClipboard::OnYank && is_yank)
}

/// The clipboard holds content that this router did not itself write as its
/// last yank: an external change happened.
pub open spec fn spec_clipboard_is_newer(
    last_yank: Option<Seq<char>>,
    clip: SystemClipboardView,
) -> bool {
    match clip.clipboard {
        Some(item) => match last_yank {
            Some(t) => t != item.text,
            None => true,
        },
        None => false,
    }
}

/// Shift `content` into the numbered history starting at slot `i`: each slot
/// already occupied bumps its previous content one slot up, until an empty
/// slot absorbs the chain or slot `9`'s previous content is discarded.
pub open spec fn shift_numbered(
    m: Map<char, RegisterView>,
    i: int,
    content: RegisterView,
) -> Map<char, RegisterView>
    decreases 10 - i,
{
    if i < 1 || i > 9 {
        m
    } else if m.contains_key(digit_register(i)) {
        shift_numbered(m.insert(digit_register(i), content), i + 1, m[digit_register(i)])
    } else {
        m.insert(digit_register(i), content)
    }
}

/// The Register Store after a write of `content`, routed by the rules for
/// explicit uppercase (append), explicit special and named registers, and
/// implicit yank/delete classification.
pub open spec fn written_registers(
    m: Map<char, RegisterView>,
    content: RegisterView,
    register: Option<char>,
    is_yank: bool,
    linewise: bool,
) -> Map<char, RegisterView> {
    match register {
        Some(reg) => {
            let lower = spec_lower_register(reg);
            if lower != reg {
                let prev_text = if m.contains_key(lower) {
                    m[lower].text
                } else {
                    Seq::<char>::empty()
                };
                let merged = RegisterView {
                    text: prev_text + content.text,
                    clipboard_selections: None,
                };
                m.insert(lower, merged).insert('"', merged)
            } else {
                let m1 = m.insert('"', content);
                if is_write_ignored(reg) {
                    m1
                } else if reg == '+' || reg == '*' {
                    m1
                } else if reg == '"' {
                    m1.insert('0', content)
                } else {
                    m1.insert(reg, content)
                }
            }
        },
        None => {
            let m1 = m.insert('"', content);
            if is_yank {
                m1.insert('0', content)
            } else {
                let multiline = content.text.contains('\n');
                let m2 = if !multiline {
                    m1.insert('-', content)
                } else {
                    m1
                };
                if linewise || multiline {
                    shift_numbered(m2, 1, content)
                } else {
                    m2
                }
            }
        },
    }
}

/// The clipboard model after a write: explicit `+`/`*` forward, implicit
/// writes mirror when the policy says so, everything else leaves it alone.
pub open spec fn written_clipboard(
    clip: SystemClipboardView,
    content: RegisterView,
    register: Option<char>,
    is_yank: bool,
    policy: UseSystemClipboard,
) -> SystemClipboardView {
    match register {
        Some(reg) => {
            let lower = spec_lower_register(reg);
            if lower != reg {
                clip
            } else if reg == '+' {
                SystemClipboardView { clipboard: Some(register_item(content)), ..clip }
            } else if reg == '*' {
                if clip.supports_primary {
                    SystemClipboardView { primary: Some(register_item(content)), ..clip }
                } else {
                    SystemClipboardView { clipboard: Some(register_item(content)), ..clip }
                }
            } else {
                clip
            }
        },
        None => if mirrors_implicit_write(policy, is_yank) {
            SystemClipboardView { clipboard: Some(register_item(content)), ..clip }
        } else {
            clip
        },
    }
}

/// The router's "last text written as a yank" memo after a write: a mirrored
/// implicit write remembers its own text; an unmirrored implicit write reads
/// the clipboard back instead, so a later freshness check can tell external
/// changes apart; explicit writes leave the memo alone.
pub open spec fn written_last_yank(
    last_yank: Option<Seq<char>>,
    clip: SystemClipboardView,
    content: RegisterView,
    register: Option<char>,
    is_yank: bool,
    policy: UseSystemClipboard,
) -> Option<Seq<char>> {
    match register {
        Some(_) => last_yank,
        None => if mirrors_implicit_write(policy, is_yank) {
            Some(content.text)
        } else {
            match clip.clipboard {
                Some(item) => Some(item.text),
                None => None,
            }
        },
    }
}

/// What a read of the unnamed register (or of no register) yields: the
/// clipboard under `Always`, the clipboard under `OnYank` when it is fresher
/// than the router's own last yank, the stored unnamed register otherwise.
pub open spec fn read_unnamed(
    m: Map<char, RegisterView>,
    policy: UseSystemClipboard,
    clip: SystemClipboardView,
    last_yank: Option<Seq<char>>,
) -> Option<RegisterView> {
    if policy == UseSystemClipboard::Always {
        read_clip(clip.clipboard)
    } else if policy == UseSystemClipboard::OnYank && spec_clipboard_is_newer(last_yank, clip) {
        read_clip(clip.clipboard)
    } else if m.contains_key('"') {
        Some(m['"'])
    } else {
        None
    }
}

/// What a read of an explicit register other than `"` yields.
pub open spec fn read_named(
    m: Map<char, RegisterView>,
    reg: char,
    path: Option<Seq<char>>,
    clip: SystemClipboardView,
) -> Option<RegisterView> {
    let lower = spec_lower_register(reg);
    if is_read_empty(lower) {
        None
    } else if lower == '+' {
        read_clip(clip.clipboard)
    } else if lower == '*' {
        if clip.supports_primary {
            read_clip(clip.primary)
        } else {
            read_clip(clip.clipboard)
        }
    } else if lower == '%' {
        match path {
            Some(p) => Some(RegisterView { text: p, clipboard_selections: None }),
            None => None,
        }
    } else if m.contains_key(lower) {
        Some(m[lower])
    } else {
        None
    }
}

/// The full read path.
pub open spec fn read_result(
    m: Map<char, RegisterView>,
    register: Option<char>,
    path: Option<Seq<char>>,
    policy: UseSystemClipboard,
    clip: SystemClipboardView,
    last_yank: Option<Seq<char>>,
) -> Option<RegisterView> {
    match register {
        None => read_unnamed(m, policy, clip, last_yank),
        Some(reg) => if reg == '"' {
            read_unnamed(m, policy, clip, last_yank)
        } else {
            read_named(m, reg, path, clip)
        },
    }
}

/// Session-wide editing state: the Register Store, the clipboard-freshness
/// memo, and the action-replay log. One logical owner mutates it, on the
/// editor's control thread, in response to discrete user or replay events.
#[derive(Debug)]
pub struct VimGlobals {
    /// A dot-repeatable change is being recorded.
    pub dot_recording: bool,
    /// A recorded sequence is being replayed; suppresses re-entrant
    /// recording of the replay itself.
    pub dot_replaying: bool,
    /// Recording stops after the next recorded action.
    pub stop_recording_after_next_action: bool,
    /// Suppress recording of exactly one in-flight insertion.
    pub ignore_current_insertion: bool,
    /// The count prefix the recorded change was invoked with.
    pub recorded_count: Option<usize>,
    /// The dot-repeat buffer, cleared and rebuilt for each new change.
    pub recorded_actions: Vec<ReplayableAction>,
    /// Shape of the most recent visual-mode selection.
    pub recorded_selection: RecordedSelection,
    /// Register a named macro is currently recording into.
    pub recording_register: Option<char>,
    /// Register the most recent macro recording went to.
    pub last_recorded_register: Option<char>,
    /// Register the most recent macro replay came from.
    pub last_replayed_register: Option<char>,
    /// Cursor over the action sequence being replayed, if any.
    pub replayer: Option<Replayer>,
    /// The last text this router itself wrote to the clipboard as a yank, or
    /// read back from it; the freshness check compares against this.
    pub last_yank: Option<String>,
    /// The Register Store.
    pub registers: CharMap<Register>,
    /// Durable per-register macro recordings.
    pub recordings: CharMap<Vec<ReplayableAction>>,
}

impl VimGlobals {
    /// Validity of the whole state: both stores bind each name at most once,
    /// and an active replay cursor is within bounds.
    pub open spec fn wf(&self) -> bool {
        &&& self.registers.wf()
        &&& self.recordings.wf()
        &&& match self.replayer {
            Some(rp) => rp.wf(),
            None => true,
        }
    }

    /// Mathematical value of the freshness memo.
    pub open spec fn last_yank_view(&self) -> Option<Seq<char>> {
        match self.last_yank {
            Some(s) => Some(s@),
            None => None,
        }
    }

    /// The dot-repeat recording state is the same in `a` and `b`.
    pub open spec fn dot_state_unchanged(a: &VimGlobals, b: &VimGlobals) -> bool {
        &&& b.dot_recording == a.dot_recording
        &&& b.stop_recording_after_next_action == a.stop_recording_after_next_action
        &&& b.ignore_current_insertion == a.ignore_current_insertion
        &&& b.recorded_count == a.recorded_count
        &&& b.recorded_actions == a.recorded_actions
        &&& b.recorded_selection == a.recorded_selection
    }

    /// The named-macro recording state is the same in `a` and `b`.
    pub open spec fn macro_state_unchanged(a: &VimGlobals, b: &VimGlobals) -> bool {
        &&& b.recording_register == a.recording_register
        &&& b.last_recorded_register == a.last_recorded_register
        &&& b.recordings == a.recordings
    }

    /// The replaying state is the same in `a` and `b`.
    pub open spec fn replaying_state_unchanged(a: &VimGlobals, b: &VimGlobals) -> bool {
        &&& b.dot_replaying == a.dot_replaying
        &&& b.last_replayed_register == a.last_replayed_register
        &&& b.replayer == a.replayer
    }

    /// The replay log and everything outside the register state is the same
    /// in `a` and `b`.
    pub open spec fn replay_log_unchanged(a: &VimGlobals, b: &VimGlobals) -> bool {
        &&& VimGlobals::dot_state_unchanged(a, b)
        &&& VimGlobals::macro_state_unchanged(a, b)
        &&& VimGlobals::replaying_state_unchanged(a, b)
    }

    /// The register state (store and freshness memo) is the same in `a` and
    /// `b`.
    pub open spec fn register_state_unchanged(a: &VimGlobals, b: &VimGlobals) -> bool {
        &&& b.registers == a.registers
        &&& b.last_yank == a.last_yank
    }

    /// A fresh session: every register empty, nothing recorded, nothing
    /// replaying.
    pub fn new() -> (r: VimGlobals)
        ensures
            r.wf(),
            !r.dot_recording,
            !r.dot_replaying,
            !r.stop_recording_after_next_action,
            !r.ignore_current_insertion,
            r.recorded_count is None,
            r.recorded_actions@ == Seq::<ReplayableAction>::empty(),
            r.recorded_selection == RecordedSelection::Empty,
            r.recording_register is None,
            r.last_recorded_register is None,
            r.last_replayed_register is None,
            r.replayer is None,
            r.last_yank is None,
            r.registers@ == Map::<char, RegisterView>::empty(),
            r.recordings@ == Map::<char, Seq<crate::replay::ActionView>>::empty(),
    {
        VimGlobals {
            dot_recording: false,
            dot_replaying: false,
            stop_recording_after_next_action: false,
            ignore_current_insertion: false,
            recorded_count: None,
            recorded_actions: Vec::new(),
            recorded_selection: RecordedSelection::Empty,
            recording_register: None,
            last_recorded_register: None,
            last_replayed_register: None,
            replayer: None,
            last_yank: None,
            registers: CharMap::new(),
            recordings: CharMap::new(),
        }
    }

    fn shift_numbered_registers(registers: &mut CharMap<Register>, i: u8, content: Register)
        requires
            old(registers).wf(),
            1 <= i <= 9,
        ensures
            final(registers).wf(),
            final(registers)@ == shift_numbered(old(registers)@, i as int, content@),
        decreases 10 - i,
    {
        let name = digit_register_name(i);
        match registers.set(name, content) {
            Some(moved) => {
                if i < 9 {
                    Self::shift_numbered_registers(registers, i + 1, moved);
                } else {
                    // slot 9 was occupied: its previous content is discarded
                    proof {
                        assert(shift_numbered(
                            old(registers)@.insert(name, content@),
                            10,
                            moved.deep_view(),
                        ) == old(registers)@.insert(name, content@));
                    }
                }
            },
            None => {},
        }
    }

    /// Route a write of `content`. With an explicit register: uppercase
    /// appends to its lowercase register (shape metadata discarded) and
    /// mirrors the merged result to the unnamed register; otherwise the
    /// unnamed register mirrors the content and the symbol dispatches
    /// (black-hole/read-only names discard, `+`/`*` forward to the clipboard
    /// or primary selection, `"` also populates `0`, anything else is a plain
    /// store write). With no explicit register: the policy decides clipboard
    /// mirroring or read-back, the unnamed register is always written, a yank
    /// also writes `0`, a single-line delete also writes `-`, and a linewise
    /// or multi-line delete shifts into the numbered history.
    pub fn write_registers(
        &mut self,
        content: Register,
        register: Option<char>,
        is_yank: bool,
        linewise: bool,
        policy: UseSystemClipboard,
        clipboard: &mut SystemClipboard,
    )
        requires
            old(self).wf(),
        ensures
            final(self).wf(),
            final(self).registers@ == written_registers(
                old(self).registers@,
                content@,
                register,
                is_yank,
                linewise,
            ),
            final(self).last_yank_view() == written_last_yank(
                old(self).last_yank_view(),
                old(clipboard)@,
                content@,
                register,
                is_yank,
                policy,
            ),
            final(clipboard)@ == written_clipboard(
                old(clipboard)@,
                content@,
                register,
                is_yank,
                policy,
            ),
            VimGlobals::replay_log_unchanged(old(self), final(self)),
    {
        match register {
            Some(reg) => {
                let lower = lower_register(reg);
                if lower != reg {
                    let prev_text: String = match self.registers.get(lower) {
                        Some(existing) => existing.text.clone(),
                        None => String::new(),
                    };
                    let merged = Register {
                        text: prev_text.concat(content.text.as_str()),
                        clipboard_selections: None,
                    };
                    let mirrored = merged.clone();
                    self.registers.set(lower, merged);
                    self.registers.set('"', mirrored);
                } else {
                    self.registers.set('"', content.clone());
                    if lower == '_' || lower == ':' || lower == '.' || lower == '%' || lower == '#'
                        || lower == '=' || lower == '/' {
                        // discarded or read-only: no store write, no clipboard write
                    } else if lower == '+' {
                        clipboard.write_item(ClipboardItem::from(content));
                    } else if lower == '*' {
                        let item = ClipboardItem::from(content);
                        if clipboard.supports_primary() {
                            clipboard.write_primary(item);
                        } else {
                            clipboard.write_item(item);
                        }
                    } else if lower == '"' {
                        self.registers.set('0', content);
                    } else {
                        self.registers.set(lower, content);
                    }
                }
            },
            None => {
                if policy == UseSystemClipboard::Always || (policy == UseSystemClipboard::OnYank
                    && is_yank) {
                    self.last_yank = Some(content.text.clone());
                    clipboard.write_item(ClipboardItem::from(content.clone()));
                } else {
                    self.last_yank = match clipboard.read_item() {
                        Some(item) => Some(item.text),
                        None => None,
                    };
                }
                self.registers.set('"', content.clone());
                if is_yank {
                    self.registers.set('0', content);
                } else {
                    let multiline = contains_newline(&content.text);
                    if !multiline {
                        if linewise {
                            self.registers.set('-', content.clone());
                            Self::shift_numbered_registers(&mut self.registers, 1, content);
                        } else {
                            self.registers.set('-', content);
                        }
                    } else {
                        Self::shift_numbered_registers(&mut self.registers, 1, content);
                    }
                }
            },
        }
    }

    fn system_clipboard_is_newer(&self, clipboard: &SystemClipboard) -> (r: bool)
        ensures
            r == spec_clipboard_is_newer(self.last_yank_view(), clipboard@),
    {
        match clipboard.read_item() {
            Some(item) => match &self.last_yank {
                Some(last) => !(*last == item.text),
                None => true,
            },
            None => false,
        }
    }

    /// Route a read. No register, or the explicit unnamed register, consults
    /// the clipboard or the stored unnamed register according to the policy
    /// and the freshness check; special names read the clipboard, the primary
    /// selection, nothing, or the current file path; anything else is a
    /// case-folded store lookup.
    pub fn read_register(
        &self,
        register: Option<char>,
        current_file_path: Option<String>,
        policy: UseSystemClipboard,
        clipboard: &SystemClipboard,
    ) -> (r: Option<Register>)
        requires
            self.wf(),
        ensures
            register_opt_view(r) == read_result(
                self.registers@,
                register,
                text_opt_view(current_file_path),
                policy,
                clipboard@,
                self.last_yank_view(),
            ),
    {
        let explicit: Option<char> = match register {
            Some(c) => if c == '"' {
                None
            } else {
                Some(c)
            },
            None => None,
        };
        match explicit {
            None => {
                let use_clipboard: bool = match policy {
                    UseSystemClipboard::Always => true,
                    UseSystemClipboard::OnYank => self.system_clipboard_is_newer(clipboard),
                    UseSystemClipboard::Never => false,
                };
                if use_clipboard {
                    match clipboard.read_item() {
                        Some(item) => Some(Register::from(item)),
                        None => None,
                    }
                } else {
                    match self.registers.get('"') {
                        Some(stored) => Some(stored.clone()),
                        None => None,
                    }
                }
            },
            Some(reg) => {
                let lower = lower_register(reg);
                if lower == '_' || lower == ':' || lower == '.' || lower == '#' || lower == '=' {
                    None
                } else if lower == '+' {
                    match clipboard.read_item() {
                        Some(item) => Some(Register::from(item)),
                        None => None,
                    }
                } else if lower == '*' {
                    if clipboard.supports_primary() {
                        match clipboard.read_primary() {
                            Some(item) => Some(Register::from(item)),
                            None => None,
                        }
                    } else {
                        match clipboard.read_item() {
                            Some(item) => Some(Register::from(item)),
                            None => None,
                        }
                    }
                } else if lower == '%' {
                    match current_file_path {
                        Some(path) => Some(Register::from(path)),
                        None => None,
                    }
                } else {
                    match self.registers.get(lower) {
                        Some(stored) => Some(stored.clone()),
                        None => None,
                    }
                }
            },
        }
    }
}

impl Default for VimGlobals {
    /// Session state starts empty.
    fn default() -> (r: Self)
        ensures
            r.wf(),
            !r.dot_recording,
            !r.dot_replaying,
            r.registers@ == Map::<char, RegisterView>::empty(),
            r.recordings@ == Map::<char, Seq<crate::replay::ActionView>>::empty(),
            r.last_yank is None,
            r.replayer is None,
    {
        VimGlobals::new()
    }
}

fn contains_newline(s: &String) -> (b: bool)
    ensures
        b == s@.contains('\n'),
{
    let text = s.as_str();
    let n = text.unicode_len();
    let mut i: usize = 0;
    while i < n
        invariant
            n == s@.len(),
            i <= n,
            text@ == s@,
            forall|j: int| 0 <= j < i ==> s@[j] != '\n',
        decreases n - i,
    {
        if text.get_char(i) == '\n' {
            proof {
                assert(s@.contains('\n'));
            }
            return true;
        }
        i += 1;
    }
    proof {
        assert(!s@.contains('\n')) by {
            if s@.contains('\n') {
                let k = choose|k: int| 0 <= k < s@.len() && s@[k] == '\n';
                assert(s@[k] != '\n');
            }
        }
    }
    false
}

} // verus!
