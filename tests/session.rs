use ping_pong::{get_token_identifier, Address, PingPong, PingPongError, UserStatus};

fn user(b: u8) -> Address {
    Address::new([b; 32])
}

#[test]
fn test_ping_pong_cs() {
    let now: u64 = 1_000;
    let time = 15u64;
    let egld = get_token_identifier(&"EGLD".to_string());
    let mut c = PingPong::init(egld.clone(), 1, time, Some(now), None, now).unwrap();
    let alice = user(1);
    let mike = user(2);

    assert_eq!(c.ping(&alice, &egld, 2, now, 2), Err(PingPongError::WrongAmount));
    assert_eq!(c.ping(&alice, &egld, 1, now, 1), Ok(()));
    assert!(c.did_user_ping(&alice));
    assert!(!c.did_user_ping(&mike));
    assert_eq!(c.ping(&mike, &egld, 1, now, 2), Ok(()));
    assert_eq!(c.user_status(&mike), UserStatus::Deposited);

    assert_eq!(Some(15), c.get_time_to_pong(&mike, now));
    assert!(c.accepted_payment_token_id().same_as(&egld));
    assert_eq!(1u128, c.ping_amount());
    assert_eq!(time, c.duration_in_seconds());

    let t = c.pong(&alice, now + 15).unwrap();
    assert!(t.to.same_as(&alice));
    assert_eq!(t.amount, 1);
    assert_eq!(c.pong(&alice, now + 15).err(), Some(PingPongError::AlreadyWithdrawn));
    assert_eq!(c.pong(&user(3), now + 15).err(), Some(PingPongError::NeverDeposited));
}

#[test]
fn cap_refuses_sixth_deposit() {
    let egld = get_token_identifier(&"EGLD".to_string());
    let mut c = PingPong::init(egld.clone(), 1, 100, Some(0), Some(5), 0).unwrap();
    for i in 1..=5u8 {
        assert_eq!(c.ping(&user(i), &egld, 1, 10, i as u128), Ok(()));
    }
    assert_eq!(c.ping(&user(6), &egld, 1, 10, 6), Err(PingPongError::CapExceeded));
    assert_eq!(c.user_status(&user(6)), UserStatus::Unregistered);
    assert_eq!(c.user_count(), 5);
}
