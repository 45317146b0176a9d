use std::cell::Cell;

use pinion::OptionExt;

#[test]
fn populate_fills_none() {
    let mut o: Option<u32> = None;
    o.populate(7);
    assert_eq!(o, Some(7));
}

#[test]
fn populate_keeps_some() {
    let mut o = Some(3u32);
    o.populate(7);
    assert_eq!(o, Some(3));
}

#[test]
fn populate_with_calls_once_on_none() {
    let calls = Cell::new(0u32);
    let mut o: Option<String> = None;
    o.populate_with(|| {
        calls.set(calls.get() + 1);
        String::from("made")
    });
    assert_eq!(o.as_deref(), Some("made"));
    assert_eq!(calls.get(), 1);
}

#[test]
fn populate_with_never_calls_on_some() {
    let calls = Cell::new(0u32);
    let mut o = Some(String::from("kept"));
    o.populate_with(|| {
        calls.set(calls.get() + 1);
        String::from("made")
    });
    assert_eq!(o.as_deref(), Some("kept"));
    assert_eq!(calls.get(), 0);
}

#[test]
fn populate_default_fills_none() {
    let mut o: Option<u64> = None;
    o.populate_default();
    assert_eq!(o, Some(0));
    let mut s: Option<String> = None;
    s.populate_default();
    assert_eq!(s.as_deref(), Some(""));
}

#[test]
fn populate_default_keeps_some() {
    let mut o = Some(9u64);
    o.populate_default();
    assert_eq!(o, Some(9));
}

#[test]
fn option_map_into_converts() {
    let o = Some(200u8);
    let r: Option<u32> = o.map_into();
    assert_eq!(r, Some(200u32));
    let n: Option<u8> = None;
    let r: Option<u32> = n.map_into();
    assert_eq!(r, None);
}

#[test]
fn option_map_to_string_formats() {
    assert_eq!(Some(42i32).map_to_string(), Some(String::from("42")));
    assert_eq!(Some(-5i64).map_to_string(), Some(String::from("-5")));
    assert_eq!(None::<i32>.map_to_string(), None);
}

#[test]
fn option_update_changes_value() {
    let mut o = Some(10u32);
    let r = o.update(|v| {
        *v += 5;
        *v * 2
    });
    assert_eq!(r, Some(30));
    assert_eq!(o, Some(15));
}

#[test]
fn option_update_skips_none() {
    let calls = Cell::new(0u32);
    let mut o: Option<u32> = None;
    let r = o.update(|v| {
        calls.set(calls.get() + 1);
        *v += 1;
    });
    assert_eq!(r, None);
    assert_eq!(o, None);
    assert_eq!(calls.get(), 0);
}

#[test]
fn try_filter_none_never_calls() {
    let calls = Cell::new(0u32);
    let o: Option<u32> = None;
    let r: Result<Option<u32>, String> = o.try_filter(|_| {
        calls.set(calls.get() + 1);
        Err(String::from("boom"))
    });
    assert_eq!(r, Ok(None));
    assert_eq!(calls.get(), 0);
}

#[test]
fn try_filter_keeps_on_true() {
    let r: Result<Option<u32>, String> = Some(4u32).try_filter(|v| Ok(*v % 2 == 0));
    assert_eq!(r, Ok(Some(4)));
}

#[test]
fn try_filter_drops_on_false() {
    let r: Result<Option<u32>, String> = Some(5u32).try_filter(|v| Ok(*v % 2 == 0));
    assert_eq!(r, Ok(None));
}

#[test]
fn try_filter_passes_error() {
    let r: Result<Option<u32>, String> = Some(5u32).try_filter(|_| Err(String::from("bad")));
    assert_eq!(r, Err(String::from("bad")));
}
