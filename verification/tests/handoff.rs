use verification_relay::handoff::Handoff;
use verification_relay::handoff::HANDOFF_CAPACITY;
use verification_relay::message::VerificationMessage;

fn message(n: usize) -> VerificationMessage {
    VerificationMessage { email: format!("user{}@x.com", n), hash: format!("h{}", n) }
}

#[test]
fn capacity_is_five() {
    assert_eq!(HANDOFF_CAPACITY, 5);
}

#[test]
fn new_hand_off_is_empty() {
    let mut h = Handoff::new();
    assert_eq!(h.len(), 0);
    assert!(!h.is_full());
    assert_eq!(h.draw(), None);
    assert_eq!(h.len(), 0);
}

#[test]
fn hand_off_takes_five_and_no_more() {
    let mut h = Handoff::new();
    for n in 0..5 {
        assert!(!h.is_full());
        assert_eq!(h.offer(message(n)), None);
        assert_eq!(h.len(), n + 1);
    }
    assert!(h.is_full());
    assert_eq!(h.offer(message(5)), Some(message(5)));
    assert_eq!(h.offer(message(6)), Some(message(6)));
    assert_eq!(h.len(), 5);
}

#[test]
fn full_hand_off_takes_again_after_one_draw() {
    let mut h = Handoff::new();
    for n in 0..5 {
        h.offer(message(n));
    }
    assert_eq!(h.offer(message(5)), Some(message(5)));
    assert_eq!(h.draw(), Some(message(0)));
    assert_eq!(h.len(), 4);
    assert_eq!(h.offer(message(5)), None);
    assert!(h.is_full());
    assert_eq!(h.offer(message(6)), Some(message(6)));
}

#[test]
fn messages_come_out_in_the_order_they_went_in() {
    let mut h = Handoff::new();
    h.offer(message(1));
    h.offer(message(2));
    assert_eq!(h.draw(), Some(message(1)));
    h.offer(message(3));
    assert_eq!(h.draw(), Some(message(2)));
    assert_eq!(h.draw(), Some(message(3)));
    assert_eq!(h.draw(), None);
}

#[test]
fn bound_holds_over_a_long_run() {
    let mut h = Handoff::new();
    let mut offered: usize = 0;
    let mut next_out: usize = 0;
    let mut seed: u32 = 7;
    for _ in 0..2000 {
        seed = seed.wrapping_mul(1_103_515_245).wrapping_add(12_345);
        if (seed >> 16) % 3 != 0 {
            let was_full = h.is_full();
            let back = h.offer(message(offered));
            assert_eq!(back.is_some(), was_full);
            if back.is_none() {
                offered += 1;
            }
        } else {
            match h.draw() {
                Some(msg) => {
                    assert_eq!(msg, message(next_out));
                    next_out += 1;
                }
                None => assert_eq!(offered, next_out),
            }
        }
        assert!(h.len() <= 5);
        assert_eq!(h.len(), offered - next_out);
    }
}
