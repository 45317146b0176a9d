use std::cell::Cell;

use pinion::ResultExt;

#[test]
fn flick_ok_gives_unit() {
    let r: Result<bool, String> = Ok(true);
    assert_eq!(r.flick(), Ok(()));
    let r: Result<Vec<u8>, String> = Ok(vec![1, 2, 3]);
    assert_eq!(r.flick(), Ok(()));
}

#[test]
fn flick_err_unchanged() {
    let r: Result<bool, String> = Err(String::from("fail"));
    assert_eq!(r.flick(), Err(String::from("fail")));
}

#[test]
fn supersede_with_replaces_ok() {
    let r: Result<u8, String> = Ok(1);
    assert_eq!(r.supersede_with("new"), Ok("new"));
}

#[test]
fn supersede_with_passes_err() {
    let r: Result<u8, i32> = Err(-3);
    assert_eq!(r.supersede_with(String::from("new")), Err(-3));
}

#[test]
fn result_map_into_converts() {
    let r: Result<u16, String> = Ok(65535);
    let m: Result<u64, String> = r.map_into();
    assert_eq!(m, Ok(65535u64));
    let e: Result<u16, String> = Err(String::from("x"));
    let m: Result<u64, String> = e.map_into();
    assert_eq!(m, Err(String::from("x")));
}

#[test]
fn result_map_to_string_formats() {
    let r: Result<u32, bool> = Ok(17);
    assert_eq!(r.map_to_string(), Ok(String::from("17")));
    let e: Result<u32, bool> = Err(false);
    assert_eq!(e.map_to_string(), Err(false));
}

#[test]
fn result_update_changes_ok() {
    let mut r: Result<u32, String> = Ok(2);
    let out = r.update(|v| {
        *v *= 10;
        *v + 1
    });
    assert_eq!(out, Some(21));
    assert_eq!(r, Ok(20));
}

#[test]
fn result_update_skips_err() {
    let calls = Cell::new(0u32);
    let mut r: Result<u32, String> = Err(String::from("e"));
    let out = r.update(|v| {
        calls.set(calls.get() + 1);
        *v += 1;
    });
    assert_eq!(out, None);
    assert_eq!(r, Err(String::from("e")));
    assert_eq!(calls.get(), 0);
}

#[test]
fn result_update_err_changes_err() {
    let mut r: Result<u32, String> = Err(String::from("e"));
    let out = r.update_err(|e| {
        e.push('!');
        e.len()
    });
    assert_eq!(out, Some(2));
    assert_eq!(r, Err(String::from("e!")));
}

#[test]
fn result_update_err_skips_ok() {
    let calls = Cell::new(0u32);
    let mut r: Result<u32, String> = Ok(4);
    let out = r.update_err(|e| {
        calls.set(calls.get() + 1);
        e.push('!');
    });
    assert_eq!(out, None);
    assert_eq!(r, Ok(4));
    assert_eq!(calls.get(), 0);
}
