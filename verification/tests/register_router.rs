use vim::ClipboardItem;
use vim::ClipboardSelection;
use vim::Register;
use vim::SystemClipboard;
use vim::UseSystemClipboard;
use vim::VimGlobals;

fn reg(text: &str) -> Register {
    Register::from(text.to_string())
}

fn read_store(globals: &VimGlobals, name: char) -> Option<String> {
    let clipboard = SystemClipboard::new(false);
    globals
        .read_register(Some(name), None, UseSystemClipboard::Never, &clipboard)
        .map(|r| r.text)
}

#[test]
fn named_register_round_trip() {
    let mut globals = VimGlobals::new();
    let mut clipboard = SystemClipboard::new(false);
    globals.write_registers(
        reg("hello"),
        Some('a'),
        false,
        false,
        UseSystemClipboard::Never,
        &mut clipboard,
    );
    assert_eq!(read_store(&globals, 'a').unwrap(), "hello");
    assert_eq!(read_store(&globals, '"').unwrap(), "hello");
}

#[test]
fn uppercase_register_appends() {
    let mut globals = VimGlobals::new();
    let mut clipboard = SystemClipboard::new(false);
    let first = Register {
        text: "foo".to_string(),
        clipboard_selections: Some(vec![ClipboardSelection {
            len: 3,
            is_entire_line: false,
            first_line_indent: 0,
        }]),
    };
    globals.write_registers(
        first,
        Some('b'),
        false,
        false,
        UseSystemClipboard::Never,
        &mut clipboard,
    );
    globals.write_registers(
        reg("bar"),
        Some('B'),
        false,
        false,
        UseSystemClipboard::Never,
        &mut clipboard,
    );
    let clip = SystemClipboard::new(false);
    let merged = globals
        .read_register(Some('b'), None, UseSystemClipboard::Never, &clip)
        .unwrap();
    assert_eq!(merged.text, "foobar");
    // multi-cursor append semantics are undefined: the shape metadata is dropped
    assert!(merged.clipboard_selections.is_none());
    assert_eq!(read_store(&globals, '"').unwrap(), "foobar");
}

#[test]
fn append_to_empty_register() {
    let mut globals = VimGlobals::new();
    let mut clipboard = SystemClipboard::new(false);
    globals.write_registers(
        reg("solo"),
        Some('Q'),
        false,
        false,
        UseSystemClipboard::Never,
        &mut clipboard,
    );
    assert_eq!(read_store(&globals, 'q').unwrap(), "solo");
    // an uppercase name reads the lowercase register
    assert_eq!(read_store(&globals, 'Q').unwrap(), "solo");
}

#[test]
fn unnamed_mirrors_every_write() {
    let mut globals = VimGlobals::new();
    let mut clipboard = SystemClipboard::new(false);
    globals.write_registers(
        reg("yanked"),
        None,
        true,
        false,
        UseSystemClipboard::Never,
        &mut clipboard,
    );
    assert_eq!(read_store(&globals, '"').unwrap(), "yanked");
    globals.write_registers(
        reg("named"),
        Some('z'),
        false,
        false,
        UseSystemClipboard::Never,
        &mut clipboard,
    );
    assert_eq!(read_store(&globals, '"').unwrap(), "named");
    // reading with no register name reads the unnamed register
    let clip = SystemClipboard::new(false);
    let unnamed = globals
        .read_register(None, None, UseSystemClipboard::Never, &clip)
        .unwrap();
    assert_eq!(unnamed.text, "named");
}

#[test]
fn explicit_unnamed_write_behaves_like_yank() {
    let mut globals = VimGlobals::new();
    let mut clipboard = SystemClipboard::new(false);
    globals.write_registers(
        reg("chained"),
        Some('"'),
        false,
        false,
        UseSystemClipboard::Never,
        &mut clipboard,
    );
    assert_eq!(read_store(&globals, '"').unwrap(), "chained");
    assert_eq!(read_store(&globals, '0').unwrap(), "chained");
}

#[test]
fn numbered_history_keeps_nine_most_recent() {
    let mut globals = VimGlobals::new();
    let mut clipboard = SystemClipboard::new(false);
    for i in 1..=11 {
        globals.write_registers(
            reg(&format!("delete-{}", i)),
            None,
            false,
            true,
            UseSystemClipboard::Never,
            &mut clipboard,
        );
    }
    for slot in 1..=9u32 {
        let name = char::from_digit(slot, 10).unwrap();
        let expected = format!("delete-{}", 12 - slot);
        assert_eq!(read_store(&globals, name).unwrap(), expected);
    }
    // the two oldest deletes were discarded
    assert_eq!(read_store(&globals, '1').unwrap(), "delete-11");
    assert_eq!(read_store(&globals, '9').unwrap(), "delete-3");
}

#[test]
fn multiline_delete_joins_numbered_history() {
    let mut globals = VimGlobals::new();
    let mut clipboard = SystemClipboard::new(false);
    globals.write_registers(
        reg("two\nlines"),
        None,
        false,
        false,
        UseSystemClipboard::Never,
        &mut clipboard,
    );
    assert_eq!(read_store(&globals, '1').unwrap(), "two\nlines");
    // a multi-line delete is not a small delete
    assert!(read_store(&globals, '-').is_none());
}

#[test]
fn yank_spares_delete_registers() {
    let mut globals = VimGlobals::new();
    let mut clipboard = SystemClipboard::new(false);
    globals.write_registers(
        reg("yanked"),
        None,
        true,
        true,
        UseSystemClipboard::Never,
        &mut clipboard,
    );
    assert_eq!(read_store(&globals, '0').unwrap(), "yanked");
    assert!(read_store(&globals, '-').is_none());
    assert!(read_store(&globals, '1').is_none());
}

#[test]
fn small_delete_spares_yank_register() {
    let mut globals = VimGlobals::new();
    let mut clipboard = SystemClipboard::new(false);
    globals.write_registers(
        reg("kept"),
        None,
        true,
        false,
        UseSystemClipboard::Never,
        &mut clipboard,
    );
    globals.write_registers(
        reg("word"),
        None,
        false,
        false,
        UseSystemClipboard::Never,
        &mut clipboard,
    );
    assert_eq!(read_store(&globals, '-').unwrap(), "word");
    assert_eq!(read_store(&globals, '0').unwrap(), "kept");
    assert!(read_store(&globals, '1').is_none());
}

#[test]
fn black_hole_write_discards() {
    let mut globals = VimGlobals::new();
    let mut clipboard = SystemClipboard::new(false);
    globals.write_registers(
        reg("kept"),
        Some('a'),
        false,
        false,
        UseSystemClipboard::Never,
        &mut clipboard,
    );
    globals.write_registers(
        reg("discarded"),
        Some('_'),
        false,
        true,
        UseSystemClipboard::OnYank,
        &mut clipboard,
    );
    assert!(read_store(&globals, '_').is_none());
    assert_eq!(read_store(&globals, 'a').unwrap(), "kept");
    assert!(read_store(&globals, '1').is_none());
    assert!(read_store(&globals, '-').is_none());
    assert!(read_store(&globals, '0').is_none());
    assert!(clipboard.read_item().is_none());
}

#[test]
fn read_only_names_yield_nothing() {
    let globals = VimGlobals::new();
    let clipboard = SystemClipboard::new(false);
    for name in [':', '.', '#', '='] {
        assert!(globals
            .read_register(Some(name), None, UseSystemClipboard::Never, &clipboard)
            .is_none());
    }
}

#[test]
fn plus_register_forwards_to_clipboard() {
    let mut globals = VimGlobals::new();
    let mut clipboard = SystemClipboard::new(false);
    globals.write_registers(
        reg("shared"),
        Some('+'),
        false,
        false,
        UseSystemClipboard::Never,
        &mut clipboard,
    );
    assert_eq!(clipboard.read_item().unwrap().text, "shared");
    let read = globals
        .read_register(Some('+'), None, UseSystemClipboard::Never, &clipboard)
        .unwrap();
    assert_eq!(read.text, "shared");
    assert_eq!(read_store(&globals, '"').unwrap(), "shared");
}

#[test]
fn star_register_uses_primary_when_supported() {
    let mut globals = VimGlobals::new();
    let mut clipboard = SystemClipboard::new(true);
    globals.write_registers(
        reg("primary"),
        Some('*'),
        false,
        false,
        UseSystemClipboard::Never,
        &mut clipboard,
    );
    assert!(clipboard.read_item().is_none());
    assert_eq!(clipboard.read_primary().unwrap().text, "primary");
    let read = globals
        .read_register(Some('*'), None, UseSystemClipboard::Never, &clipboard)
        .unwrap();
    assert_eq!(read.text, "primary");
}

#[test]
fn star_register_falls_back_to_clipboard() {
    let mut globals = VimGlobals::new();
    let mut clipboard = SystemClipboard::new(false);
    globals.write_registers(
        reg("fallback"),
        Some('*'),
        false,
        false,
        UseSystemClipboard::Never,
        &mut clipboard,
    );
    assert_eq!(clipboard.read_item().unwrap().text, "fallback");
    let read = globals
        .read_register(Some('*'), None, UseSystemClipboard::Never, &clipboard)
        .unwrap();
    assert_eq!(read.text, "fallback");
}

#[test]
fn percent_register_derives_from_file_path() {
    let globals = VimGlobals::new();
    let clipboard = SystemClipboard::new(false);
    let read = globals
        .read_register(
            Some('%'),
            Some("src/main.rs".to_string()),
            UseSystemClipboard::Never,
            &clipboard,
        )
        .unwrap();
    assert_eq!(read.text, "src/main.rs");
    assert!(globals
        .read_register(Some('%'), None, UseSystemClipboard::Never, &clipboard)
        .is_none());
}

#[test]
fn always_policy_reads_and_writes_clipboard() {
    let mut globals = VimGlobals::new();
    let mut clipboard = SystemClipboard::new(false);
    globals.write_registers(
        reg("mirrored"),
        None,
        false,
        false,
        UseSystemClipboard::Always,
        &mut clipboard,
    );
    assert_eq!(clipboard.read_item().unwrap().text, "mirrored");
    clipboard.write_item(ClipboardItem {
        text: "external".to_string(),
        metadata: None,
    });
    let read = globals
        .read_register(None, None, UseSystemClipboard::Always, &clipboard)
        .unwrap();
    assert_eq!(read.text, "external");
}

#[test]
fn on_yank_freshness_detects_external_change() {
    let mut globals = VimGlobals::new();
    let mut clipboard = SystemClipboard::new(false);
    globals.write_registers(
        reg("A"),
        None,
        true,
        false,
        UseSystemClipboard::OnYank,
        &mut clipboard,
    );
    assert_eq!(clipboard.read_item().unwrap().text, "A");
    // nothing external changed: the router's own content wins
    let own = globals
        .read_register(None, None, UseSystemClipboard::OnYank, &clipboard)
        .unwrap();
    assert_eq!(own.text, "A");
    // an external actor replaces the clipboard
    clipboard.write_item(ClipboardItem {
        text: "B".to_string(),
        metadata: None,
    });
    let fresh = globals
        .read_register(None, None, UseSystemClipboard::OnYank, &clipboard)
        .unwrap();
    assert_eq!(fresh.text, "B");
}

#[test]
fn on_yank_delete_reads_clipboard_back() {
    let mut globals = VimGlobals::new();
    let mut clipboard = SystemClipboard::new(false);
    clipboard.write_item(ClipboardItem {
        text: "ambient".to_string(),
        metadata: None,
    });
    // a delete under OnYank does not mirror; it refreshes the memo instead
    globals.write_registers(
        reg("gone"),
        None,
        false,
        false,
        UseSystemClipboard::OnYank,
        &mut clipboard,
    );
    assert_eq!(clipboard.read_item().unwrap().text, "ambient");
    // the clipboard text equals the memo, so the stored register wins
    let read = globals
        .read_register(None, None, UseSystemClipboard::OnYank, &clipboard)
        .unwrap();
    assert_eq!(read.text, "gone");
}

#[test]
fn empty_content_round_trips() {
    let mut globals = VimGlobals::new();
    let mut clipboard = SystemClipboard::new(false);
    globals.write_registers(
        reg(""),
        Some('e'),
        false,
        false,
        UseSystemClipboard::Never,
        &mut clipboard,
    );
    assert_eq!(read_store(&globals, 'e').unwrap(), "");
}

#[test]
fn explicit_digit_register_is_a_plain_store_write() {
    let mut globals = VimGlobals::new();
    let mut clipboard = SystemClipboard::new(false);
    globals.write_registers(
        reg("pinned"),
        Some('5'),
        false,
        false,
        UseSystemClipboard::Never,
        &mut clipboard,
    );
    assert_eq!(read_store(&globals, '5').unwrap(), "pinned");
    // an explicit write does not shift the numbered history
    assert!(read_store(&globals, '1').is_none());
    assert!(read_store(&globals, '6').is_none());
}

#[test]
fn search_register_write_is_ignored_but_read_consults_store() {
    let mut globals = VimGlobals::new();
    let mut clipboard = SystemClipboard::new(false);
    globals.write_registers(
        reg("query"),
        Some('/'),
        false,
        false,
        UseSystemClipboard::Never,
        &mut clipboard,
    );
    // the write dispatched to a read-only name: nothing was stored there
    assert!(read_store(&globals, '/').is_none());
    assert_eq!(read_store(&globals, '"').unwrap(), "query");
}

#[test]
fn clipboard_item_conversions_preserve_content() {
    let register = Register {
        text: "multi".to_string(),
        clipboard_selections: Some(vec![ClipboardSelection {
            len: 5,
            is_entire_line: true,
            first_line_indent: 4,
        }]),
    };
    let item = ClipboardItem::from(register);
    assert_eq!(item.text, "multi");
    let back = Register::from(item);
    assert_eq!(back.text, "multi");
    let shapes = back.clipboard_selections.unwrap();
    assert_eq!(shapes.len(), 1);
    assert_eq!(shapes[0].len, 5);
    assert!(shapes[0].is_entire_line);
    assert_eq!(shapes[0].first_line_indent, 4);
}
