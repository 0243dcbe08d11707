use futures_glib::rt::{
    check_initialized_main_thread, init, is_initialized, is_initialized_main_thread,
    set_initialized, InitState, RuntimeError,
};

fn fresh() -> InitState {
    InitState::new(false, false)
}

#[test]
fn fresh_thread_is_not_initialized() {
    let s = fresh();
    assert!(!is_initialized(&s));
    assert!(!is_initialized_main_thread(&s));
    assert_eq!(check_initialized_main_thread(&s), Err(RuntimeError::NotInitialized));
}

#[test]
fn init_makes_main_thread() {
    let mut s = fresh();
    init(&mut s);
    assert!(is_initialized(&s));
    assert!(is_initialized_main_thread(&s));
    assert_eq!(check_initialized_main_thread(&s), Ok(()));
}

#[test]
fn init_twice_is_init_once() {
    let mut once = fresh();
    init(&mut once);
    let mut twice = fresh();
    init(&mut twice);
    init(&mut twice);
    assert_eq!(once, twice);
}

#[test]
fn set_initialized_from_main_thread_changes_nothing() {
    let mut s = InitState::new(true, true);
    set_initialized(&mut s);
    assert_eq!(s, InitState::new(true, true));
}

#[test]
fn other_thread_is_refused() {
    let s = InitState::new(true, false);
    assert!(is_initialized(&s));
    assert!(!is_initialized_main_thread(&s));
    assert_eq!(check_initialized_main_thread(&s), Err(RuntimeError::NotMainThread));
}

#[test]
fn main_thread_implies_initialized() {
    for (i, m) in [(false, false), (true, false), (true, true)] {
        let s = InitState::new(i, m);
        assert!(!is_initialized_main_thread(&s) || is_initialized(&s));
    }
}
