use ariel_core::ensure_once::{EnsureOnce, InUse};

#[test]
fn with_runs_the_closure_on_the_value() {
    let mut guard = EnsureOnce::new(41u32);
    let seen = guard.with(|value| {
        let before = *value;
        *value += 1;
        before * 2
    });
    assert_eq!(seen, 82);
    assert_eq!(*guard.get_unchecked(), 42);
    assert!(!guard.is_in_use());
}

#[test]
fn with_succeeds_again_after_it_completed() {
    let mut guard = EnsureOnce::new(0u8);
    guard.with(|value| *value += 1);
    guard.with(|value| *value += 1);
    assert_eq!(guard.try_with(|value| *value), Ok(2));
}

#[test]
fn with_cs_runs_inside_an_existing_critical_section() {
    let mut guard = EnsureOnce::new(vec![1, 2]);
    let len = critical_section::with(|cs| {
        guard.with_cs(cs, |list| {
            list.push(3);
            list.len()
        })
    });
    assert_eq!(len, 3);
    assert!(!guard.is_in_use());
    assert_eq!(guard.with(|list| list.clone()), vec![1, 2, 3]);
}

#[test]
fn a_second_user_is_turned_away() {
    let mut guard = EnsureOnce::new(5i32);
    assert!(guard.try_acquire());
    assert!(guard.is_in_use());
    assert!(!guard.try_acquire());
    assert_eq!(guard.try_with(|value| *value += 1), Err(InUse));
    assert_eq!(*guard.get_unchecked(), 5);
    assert!(guard.is_in_use());
    guard.release();
    assert!(!guard.is_in_use());
    assert_eq!(guard.try_with(|value| {
        *value += 1;
        *value
    }), Ok(6));
    assert!(guard.try_acquire());
}

#[test]
fn get_unchecked_ignores_the_mark() {
    let mut guard = EnsureOnce::new(String::from("a"));
    assert!(guard.try_acquire());
    guard.get_unchecked().push('b');
    assert!(guard.is_in_use());
    guard.release();
    assert_eq!(guard.with(|text| text.clone()), "ab");
}
