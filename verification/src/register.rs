//! Register contents: yanked/deleted text plus optional per-cursor selection
//! shape metadata, and the clipboard-item form it is exchanged in with the
//! host's clipboard model.

use vstd::prelude::*;

verus! {

/// Shape metadata for one originating cursor/selection of a multi-cursor
/// copy, enough to reconstruct paste geometry.
#[derive(Clone, Copy, Debug, PartialEq, Eq, Structural)]
pub struct ClipboardSelection {
    /// Length in bytes of this cursor's slice of the copied text.
    pub len: usize,
    /// Whether the slice was copied as whole lines.
    pub is_entire_line: bool,
    /// Indentation of the first copied line, for re-indenting on paste.
    pub first_line_indent: u32,
}

/// The content of one register: text plus optional per-cursor shape metadata.
/// Replaced, never mutated, on each write.
#[derive(Debug)]
pub struct Register {
    pub text: String,
    pub clipboard_selections: Option<Vec<ClipboardSelection>>,
}

/// Mathematical value of a [`Register`].
pub struct RegisterView {
    pub text: Seq<char>,
    pub clipboard_selections: Option<Seq<ClipboardSelection>>,
}

impl View for Register {
    type V = RegisterView;

    open spec fn view(&self) -> RegisterView {
        RegisterView {
            text: self.text@,
            clipboard_selections: match self.clipboard_selections {
                Some(v) => Some(v@),
                None => None,
            },
        }
    }
}

impl DeepView for Register {
    type V = RegisterView;

    open spec fn deep_view(&self) -> RegisterView {
        self.view()
    }
}

/// An item as held by the host's clipboard or primary selection: plain text
/// with the shape metadata carried alongside.
#[derive(Debug)]
pub struct ClipboardItem {
    pub text: String,
    pub metadata: Option<Vec<ClipboardSelection>>,
}

/// Mathematical value of a [`ClipboardItem`].
pub struct ClipboardItemView {
    pub text: Seq<char>,
    pub metadata: Option<Seq<ClipboardSelection>>,
}

impl View for ClipboardItem {
    type V = ClipboardItemView;

    open spec fn view(&self) -> ClipboardItemView {
        ClipboardItemView {
            text: self.text@,
            metadata: match self.metadata {
                Some(v) => Some(v@),
                None => None,
            },
        }
    }
}

fn copy_selection_list(v: &Vec<ClipboardSelection>) -> (r: Vec<ClipboardSelection>)
    ensures
        r@ == v@,
{
    let mut out: Vec<ClipboardSelection> = Vec::new();
    let mut i: usize = 0;
    while i < v.len()
        invariant
            i <= v@.len(),
            out@ == v@.subrange(0, i as int),
        decreases v@.len() - i,
    {
        out.push(v[i]);
        proof {
            assert(out@ =~= v@.subrange(0, i as int + 1));
        }
        i += 1;
    }
    proof {
        assert(out@ =~= v@);
    }
    out
}

fn copy_selections(s: &Option<Vec<ClipboardSelection>>) -> (r: Option<Vec<ClipboardSelection>>)
    ensures
        match (r, s) {
            (Some(rv), Some(sv)) => rv@ == sv@,
            (None, None) => true,
            _ => false,
        },
{
    match s {
        Some(v) => Some(copy_selection_list(v)),
        None => None,
    }
}

impl Clone for Register {
    fn clone(&self) -> (r: Self)
        ensures
            r@ == self@,
    {
        Register { text: self.text.clone(), clipboard_selections: copy_selections(
            &self.clipboard_selections,
        ) }
    }
}

impl Clone for ClipboardItem {
    fn clone(&self) -> (r: Self)
        ensures
            r@ == self@,
    {
        ClipboardItem { text: self.text.clone(), metadata: copy_selections(&self.metadata) }
    }
}

impl Register {
    /// An empty register: no text, no shape metadata.
    pub fn empty() -> (r: Register)
        ensures
            r@.text == Seq::<char>::empty(),
            r@.clipboard_selections is None,
    {
        Register { text: String::new(), clipboard_selections: None }
    }
}

impl Default for Register {
    /// The default register content is empty.
    fn default() -> (r: Self)
        ensures
            r@.text == Seq::<char>::empty(),
            r@.clipboard_selections is None,
    {
        Register::empty()
    }
}

impl From<String> for Register {
    /// Plain text becomes a register without shape metadata.
    fn from(text: String) -> (r: Self) {
        Register { text, clipboard_selections: None }
    }
}

impl vstd::std_specs::convert::FromSpecImpl<String> for Register {
    open spec fn obeys_from_spec() -> bool {
        true
    }

    open spec fn from_spec(text: String) -> Register {
        Register { text, clipboard_selections: None }
    }
}

impl From<Register> for ClipboardItem {
    /// A register forwarded to the clipboard keeps its text and carries the
    /// shape metadata alongside.
    fn from(register: Register) -> (r: Self) {
        ClipboardItem { text: register.text, metadata: register.clipboard_selections }
    }
}

impl vstd::std_specs::convert::FromSpecImpl<Register> for ClipboardItem {
    open spec fn obeys_from_spec() -> bool {
        true
    }

    open spec fn from_spec(register: Register) -> ClipboardItem {
        ClipboardItem { text: register.text, metadata: register.clipboard_selections }
    }
}

impl From<ClipboardItem> for Register {
    /// A clipboard item read back becomes register content, shape metadata
    /// included.
    fn from(item: ClipboardItem) -> (r: Self) {
        Register { text: item.text, clipboard_selections: item.metadata }
    }
}

impl vstd::std_specs::convert::FromSpecImpl<ClipboardItem> for Register {
    open spec fn obeys_from_spec() -> bool {
        true
    }

    open spec fn from_spec(item: ClipboardItem) -> Register {
        Register { text: item.text, clipboard_selections: item.metadata }
    }
}

/// Lowercase form of a register name: the ASCII uppercase letters fold to
/// their lowercase counterparts, every other character names itself.
pub open spec fn spec_lower_register(c: char) -> char {
    if 'A' <= c && c <= 'Z' {
        (((c as u8) + 32) as char)
    } else {
        c
    }
}

/// Whether `c` is an uppercase register name, i.e. a write-time append
/// modifier rather than a distinct register.
pub open spec fn is_upper_register(c: char) -> bool {
    spec_lower_register(c) != c
}

/// Case-fold a register name as the router does.
pub fn lower_register(c: char) -> (r: char)
    ensures
        r == spec_lower_register(c),
{
    if 'A' <= c && c <= 'Z' {
        ((c as u8) + 32) as char
    } else {
        c
    }
}

} // verus!
