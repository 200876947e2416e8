//! Editing modes and operators, with the pending-state classification that
//! decides whether an operator waits for one more keystroke.

use vstd::prelude::*;

verus! {

/// The editing mode the host is currently in.
#[derive(Clone, Copy, Debug, PartialEq, Eq, Structural)]
pub enum Mode {
    Normal,
    Insert,
    Replace,
    Visual,
    VisualLine,
    VisualBlock,
}

/// What an add-surrounds operation wraps. The host's motion/object resolution
/// picks the concrete target; this core only needs to know one was chosen.
#[derive(Clone, Copy, Debug, PartialEq, Eq, Structural)]
pub enum SurroundsType {
    Motion,
    Object,
    Selection,
}

/// A text object a change/delete-surrounds operation acts on. Resolving the
/// object against buffer text is the host's concern.
#[derive(Clone, Copy, Debug, PartialEq, Eq, Structural)]
pub enum Object {
    Word,
    Sentence,
    Paragraph,
    Quotes,
    BackQuotes,
    DoubleQuotes,
    Parentheses,
    SquareBrackets,
    CurlyBrackets,
    AngleBrackets,
    Argument,
    Tag,
}

/// An operator-class command awaiting application against a motion,
/// selection or qualifier keystroke.
#[derive(Clone, Copy, Debug, PartialEq, Eq, Structural)]
pub enum Operator {
    Change,
    Delete,
    Yank,
    Replace,
    Object { around: bool },
    FindForward { before: bool },
    FindBackward { after: bool },
    AddSurrounds { target: Option<SurroundsType> },
    ChangeSurrounds { target: Option<Object> },
    DeleteSurrounds,
    Mark,
    Jump { line: bool },
    Indent,
    Outdent,
    Lowercase,
    Uppercase,
    OppositeCase,
    Digraph { first_char: Option<char> },
    Register,
    RecordRegister,
    ReplayRegister,
    ToggleComments,
}

impl Mode {
    /// Whether this mode is one of the visual (selection-carrying) variants.
    pub open spec fn spec_is_visual(self) -> bool {
        match self {
            Mode::Normal | Mode::Insert | Mode::Replace => false,
            Mode::Visual | Mode::VisualLine | Mode::VisualBlock => true,
        }
    }

    pub fn is_visual(&self) -> (r: bool)
        ensures
            r == self.spec_is_visual(),
    {
        match self {
            Mode::Normal | Mode::Insert | Mode::Replace => false,
            Mode::Visual | Mode::VisualLine | Mode::VisualBlock => true,
        }
    }

    /// The indicator text for this mode.
    pub open spec fn spec_label(self) -> Seq<char> {
        match self {
            Mode::Normal => "NORMAL"@,
            Mode::Insert => "INSERT"@,
            Mode::Replace => "REPLACE"@,
            Mode::Visual => "VISUAL"@,
            Mode::VisualLine => "VISUAL LINE"@,
            Mode::VisualBlock => "VISUAL BLOCK"@,
        }
    }

    /// Mode indicator text, as shown by the host's status line.
    pub fn label(&self) -> (r: String)
        ensures
            r@ == self.spec_label(),
    {
        match self {
            Mode::Normal => String::from_str("NORMAL"),
            Mode::Insert => String::from_str("INSERT"),
            Mode::Replace => String::from_str("REPLACE"),
            Mode::Visual => String::from_str("VISUAL"),
            Mode::VisualLine => String::from_str("VISUAL LINE"),
            Mode::VisualBlock => String::from_str("VISUAL BLOCK"),
        }
    }
}

impl Default for Mode {
    /// A session starts in normal mode.
    fn default() -> (r: Self)
        ensures
            r == Mode::Normal,
    {
        Mode::Normal
    }
}

impl Operator {
    /// The key sequence that names this operator.
    pub open spec fn spec_id(self) -> Seq<char> {
        match self {
            Operator::Object { around: false } => "i"@,
            Operator::Object { around: true } => "a"@,
            Operator::Change => "c"@,
            Operator::Delete => "d"@,
            Operator::Yank => "y"@,
            Operator::Replace => "r"@,
            Operator::Digraph { .. } => "^K"@,
            Operator::FindForward { before: false } => "f"@,
            Operator::FindForward { before: true } => "t"@,
            Operator::FindBackward { after: false } => "F"@,
            Operator::FindBackward { after: true } => "T"@,
            Operator::AddSurrounds { .. } => "ys"@,
            Operator::ChangeSurrounds { .. } => "cs"@,
            Operator::DeleteSurrounds => "ds"@,
            Operator::Mark => "m"@,
            Operator::Jump { line: true } => "'"@,
            Operator::Jump { line: false } => "`"@,
            Operator::Indent => ">"@,
            Operator::Outdent => "<"@,
            Operator::Uppercase => "gU"@,
            Operator::Lowercase => "gu"@,
            Operator::OppositeCase => "g~"@,
            Operator::Register => "\""@,
            Operator::RecordRegister => "q"@,
            Operator::ReplayRegister => "@"@,
            Operator::ToggleComments => "gc"@,
        }
    }

    pub fn id(&self) -> (r: &'static str)
        ensures
            r@ == self.spec_id(),
    {
        match self {
            Operator::Object { around: false } => "i",
            Operator::Object { around: true } => "a",
            Operator::Change => "c",
            Operator::Delete => "d",
            Operator::Yank => "y",
            Operator::Replace => "r",
            Operator::Digraph { .. } => "^K",
            Operator::FindForward { before: false } => "f",
            Operator::FindForward { before: true } => "t",
            Operator::FindBackward { after: false } => "F",
            Operator::FindBackward { after: true } => "T",
            Operator::AddSurrounds { .. } => "ys",
            Operator::ChangeSurrounds { .. } => "cs",
            Operator::DeleteSurrounds => "ds",
            Operator::Mark => "m",
            Operator::Jump { line: true } => "'",
            Operator::Jump { line: false } => "`",
            Operator::Indent => ">",
            Operator::Outdent => "<",
            Operator::Uppercase => "gU",
            Operator::Lowercase => "gu",
            Operator::OppositeCase => "g~",
            Operator::Register => "\"",
            Operator::RecordRegister => "q",
            Operator::ReplayRegister => "@",
            Operator::ToggleComments => "gc",
        }
    }

    /// Whether this operator, entered in `mode`, blocks waiting for one more
    /// qualifying keystroke before it can apply. A pure function of the
    /// operator variant and the mode.
    pub open spec fn spec_is_waiting(self, mode: Mode) -> bool {
        match self {
            Operator::AddSurrounds { target } => target is Some || mode.spec_is_visual(),
            Operator::FindForward { .. }
            | Operator::Mark
            | Operator::Jump { .. }
            | Operator::FindBackward { .. }
            | Operator::Register
            | Operator::RecordRegister
            | Operator::ReplayRegister
            | Operator::Replace
            | Operator::Digraph { .. }
            | Operator::ChangeSurrounds { target: Some(_) }
            | Operator::DeleteSurrounds => true,
            Operator::Change
            | Operator::Delete
            | Operator::Yank
            | Operator::Indent
            | Operator::Outdent
            | Operator::Lowercase
            | Operator::Uppercase
            | Operator::Object { .. }
            | Operator::ChangeSurrounds { target: None }
            | Operator::OppositeCase
            | Operator::ToggleComments => false,
        }
    }

    pub fn is_waiting(&self, mode: Mode) -> (r: bool)
        ensures
            r == self.spec_is_waiting(mode),
    {
        match self {
            Operator::AddSurrounds { target } => target.is_some() || mode.is_visual(),
            Operator::FindForward { .. }
            | Operator::Mark
            | Operator::Jump { .. }
            | Operator::FindBackward { .. }
            | Operator::Register
            | Operator::RecordRegister
            | Operator::ReplayRegister
            | Operator::Replace
            | Operator::Digraph { .. }
            | Operator::ChangeSurrounds { target: Some(_) }
            | Operator::DeleteSurrounds => true,
            Operator::Change
            | Operator::Delete
            | Operator::Yank
            | Operator::Indent
            | Operator::Outdent
            | Operator::Lowercase
            | Operator::Uppercase
            | Operator::Object { .. }
            | Operator::ChangeSurrounds { target: None }
            | Operator::OppositeCase
            | Operator::ToggleComments => false,
        }
    }
}

} // verus!
