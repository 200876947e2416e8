//! The router's model of the host clipboard: the system clipboard proper and
//! the platform-conditional primary selection. The host keeps this model in
//! sync with the real device; external clipboard changes appear to the router
//! as ordinary mutations of this model between calls.

use vstd::prelude::*;

use crate::register::ClipboardItem;
use crate::register::ClipboardItemView;

verus! {

/// The configured clipboard-sync policy for implicit register writes/reads.
#[derive(Clone, Copy, Debug, PartialEq, Eq, Structural)]
pub enum UseSystemClipboard {
    /// Router-internal registers only.
    Never,
    /// Mirror/prefer the clipboard only for yanks, with freshness arbitration
    /// on read.
    OnYank,
    /// Every implicit write/read goes through the system clipboard.
    Always,
}

/// The system clipboard and, where the platform exposes one, the primary
/// selection.
#[derive(Debug)]
pub struct SystemClipboard {
    clipboard: Option<ClipboardItem>,
    primary: Option<ClipboardItem>,
    supports_primary: bool,
}

/// Mathematical value of a [`SystemClipboard`].
pub struct SystemClipboardView {
    pub clipboard: Option<ClipboardItemView>,
    pub primary: Option<ClipboardItemView>,
    pub supports_primary: bool,
}

pub open spec fn item_opt_view(o: Option<ClipboardItem>) -> Option<ClipboardItemView> {
    match o {
        Some(item) => Some(item@),
        None => None,
    }
}

impl View for SystemClipboard {
    type V = SystemClipboardView;

    closed spec fn view(&self) -> SystemClipboardView {
        SystemClipboardView {
            clipboard: item_opt_view(self.clipboard),
            primary: item_opt_view(self.primary),
            supports_primary: self.supports_primary,
        }
    }
}

impl SystemClipboard {
    /// A clipboard model with both targets empty.
    pub fn new(supports_primary: bool) -> (r: Self)
        ensures
            r@.clipboard is None,
            r@.primary is None,
            r@.supports_primary == supports_primary,
    {
        SystemClipboard { clipboard: None, primary: None, supports_primary }
    }

    /// Whether the platform exposes a primary selection.
    pub fn supports_primary(&self) -> (r: bool)
        ensures
            r == self@.supports_primary,
    {
        self.supports_primary
    }

    /// Replace the system clipboard contents.
    pub fn write_item(&mut self, item: ClipboardItem)
        ensures
            final(self)@ == (SystemClipboardView { clipboard: Some(item@), ..old(self)@ }),
    {
        self.clipboard = Some(item);
    }

    /// Replace the primary selection contents.
    pub fn write_primary(&mut self, item: ClipboardItem)
        ensures
            final(self)@ == (SystemClipboardView { primary: Some(item@), ..old(self)@ }),
    {
        self.primary = Some(item);
    }

    /// Read the system clipboard contents, if any.
    pub fn read_item(&self) -> (r: Option<ClipboardItem>)
        ensures
            item_opt_view(r) == self@.clipboard,
    {
        match &self.clipboard {
            Some(item) => Some(item.clone()),
            None => None,
        }
    }

    /// Read the primary selection contents, if any.
    pub fn read_primary(&self) -> (r: Option<ClipboardItem>)
        ensures
            item_opt_view(r) == self@.primary,
    {
        match &self.primary {
            Some(item) => Some(item.clone()),
            None => None,
        }
    }
}

} // verus!
