use vim::CharMap;
use vim::Register;

fn reg(text: &str) -> Register {
    Register::from(text.to_string())
}

#[test]
fn get_of_unset_name_is_none() {
    let store: CharMap<Register> = CharMap::new();
    assert!(store.get('a').is_none());
}

#[test]
fn set_returns_previous_value_for_chaining() {
    let mut store: CharMap<Register> = CharMap::new();
    assert!(store.set('a', reg("first")).is_none());
    let previous = store.set('a', reg("second")).unwrap();
    assert_eq!(previous.text, "first");
    assert_eq!(store.get('a').unwrap().text, "second");
}

#[test]
fn writes_replace_never_merge() {
    let mut store: CharMap<Register> = CharMap::new();
    store.set('x', reg("one"));
    store.set('x', reg("two"));
    store.set('y', reg("other"));
    assert_eq!(store.get('x').unwrap().text, "two");
    assert_eq!(store.get('y').unwrap().text, "other");
}

#[test]
fn remove_takes_the_binding_out() {
    let mut store: CharMap<Register> = CharMap::new();
    store.set('m', reg("kept"));
    let removed = store.remove('m').unwrap();
    assert_eq!(removed.text, "kept");
    assert!(store.get('m').is_none());
    assert!(store.remove('m').is_none());
}
