use krypto::live::bot::{entry_allowed, hold_one_bar, push_bar, trailing_window, BAR_HISTORY_CAP};

#[test]
fn history_keeps_the_newest_bars() {
    let mut h: Vec<usize> = (0..BAR_HISTORY_CAP).collect();
    push_bar(&mut h, 999);
    assert_eq!(h.len(), BAR_HISTORY_CAP);
    assert_eq!(h[0], 1);
    assert_eq!(*h.last().unwrap(), 999);
    let mut short = vec![1, 2];
    push_bar(&mut short, 3);
    assert_eq!(short, vec![1, 2, 3]);
}

#[test]
fn entry_gates() {
    // a free slot and 22 bars for a 21-bar lookback
    assert!(entry_allowed(0, 3, 22, 21, None, 0));
    // every slot taken
    assert!(!entry_allowed(3, 3, 22, 21, None, 0));
    // not enough history
    assert!(!entry_allowed(0, 3, 21, 21, None, 0));
    // cooldown since the last exit
    assert!(!entry_allowed(0, 3, 30, 21, Some(28), 5));
    assert!(entry_allowed(0, 3, 30, 21, Some(25), 5));
    assert!(entry_allowed(0, 3, 30, 21, Some(30), 0));
}

#[test]
fn test_position_cap_enforced() {
    assert!(!entry_allowed(2, 2, 25, 21, None, 0));
}

#[test]
fn trailing_window_and_hold_limit() {
    assert_eq!(trailing_window(25, 7), (18, 7));
    assert_eq!(trailing_window(4, 7), (0, 4));
    let mut held = 13;
    assert!(!hold_one_bar(&mut held, 15));
    assert!(hold_one_bar(&mut held, 15));
    assert_eq!(held, 15);
}
