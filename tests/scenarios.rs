use ping_pong::{Address, AssetId, PingPong, PingPongError, UserStatus};

const PING_AMOUNT: u128 = 500_000_000_000;
const DURATION: u64 = 123_000;
const DEPLOY_TIME: u64 = 780;
const PING_TIME: u64 = 781;
const PONG_TIME: u64 = DEPLOY_TIME + DURATION;

fn user(b: u8) -> Address {
    Address::new([b; 32])
}

fn deployed() -> PingPong {
    PingPong::init(AssetId::Native, PING_AMOUNT, DURATION, None, None, DEPLOY_TIME).unwrap()
}

fn init_scenario() {
    let c = deployed();
    assert!(c.accepted_payment_token_id().same_as(&AssetId::Native));
    assert_eq!(c.ping_amount(), PING_AMOUNT);
    assert_eq!(c.duration_in_seconds(), DURATION);
    assert_eq!(c.deadline(), DEPLOY_TIME + DURATION);
    assert_eq!(c.user_count(), 0);
}

fn call_ping_scenario() {
    let mut c = deployed();
    assert_eq!(c.ping(&user(1), &AssetId::Native, PING_AMOUNT, PING_TIME, PING_AMOUNT), Ok(()));
    assert_eq!(c.user_status(&user(1)), UserStatus::Deposited);
    assert!(c.did_user_ping(&user(1)));
}

fn call_ping_second_user_scenario() {
    let mut c = deployed();
    assert_eq!(c.ping(&user(1), &AssetId::Native, PING_AMOUNT, PING_TIME, PING_AMOUNT), Ok(()));
    assert_eq!(c.ping(&user(2), &AssetId::Native, PING_AMOUNT, PING_TIME + 1, 2 * PING_AMOUNT), Ok(()));
    assert!(c.did_user_ping(&user(1)));
    assert!(c.did_user_ping(&user(2)));
    assert_eq!(c.user_count(), 2);
}

fn call_ping_twice_scenario() {
    let mut c = deployed();
    assert_eq!(c.ping(&user(1), &AssetId::Native, PING_AMOUNT, PING_TIME, PING_AMOUNT), Ok(()));
    assert_eq!(
        c.ping(&user(1), &AssetId::Native, PING_AMOUNT, PING_TIME + 1, 2 * PING_AMOUNT),
        Err(PingPongError::AlreadyDeposited)
    );
    assert_eq!(c.user_count(), 1);
}

fn call_ping_wrong_amount_scenario() {
    let mut c = deployed();
    assert_eq!(
        c.ping(&user(1), &AssetId::Native, 450_000_000_000, PING_TIME, 450_000_000_000),
        Err(PingPongError::WrongAmount)
    );
    assert!(!c.did_user_ping(&user(1)));
}

fn call_pong_scenario() {
    let mut c = deployed();
    assert_eq!(c.ping(&user(1), &AssetId::Native, PING_AMOUNT, PING_TIME, PING_AMOUNT), Ok(()));
    let t = c.pong(&user(1), PONG_TIME).unwrap();
    assert!(t.to.same_as(&user(1)));
    assert!(t.asset.same_as(&AssetId::Native));
    assert_eq!(t.amount, PING_AMOUNT);
    assert_eq!(c.user_status(&user(1)), UserStatus::Refunded);
}

fn call_pong_before_deadline_scenario() {
    let mut c = deployed();
    assert_eq!(c.ping(&user(1), &AssetId::Native, PING_AMOUNT, PING_TIME, PING_AMOUNT), Ok(()));
    assert_eq!(c.pong(&user(1), PING_TIME).err(), Some(PingPongError::BeforeDeadline));
    assert_eq!(c.user_status(&user(1)), UserStatus::Deposited);
}

fn call_pong_twice_scenario() {
    let mut c = deployed();
    assert_eq!(c.ping(&user(1), &AssetId::Native, PING_AMOUNT, PING_TIME, PING_AMOUNT), Ok(()));
    assert!(c.pong(&user(1), PONG_TIME).is_ok());
    assert_eq!(c.pong(&user(1), PONG_TIME + 1).err(), Some(PingPongError::AlreadyWithdrawn));
}

fn call_pong_without_ping_scenario() {
    let mut c = deployed();
    assert_eq!(c.pong(&user(1), PONG_TIME).err(), Some(PingPongError::NeverDeposited));
}

#[test]
fn ping_pong_egld_mandos_go_test_ping_pong_call_ping_go() {
    call_ping_scenario();
}

#[test]
fn ping_pong_egld_mandos_go_test_ping_pong_call_ping_second_user_go() {
    call_ping_second_user_scenario();
}

#[test]
fn ping_pong_egld_mandos_go_test_ping_pong_call_ping_twice_go() {
    call_ping_twice_scenario();
}

#[test]
fn ping_pong_egld_mandos_go_test_ping_pong_call_ping_wrong_amount_go() {
    call_ping_wrong_amount_scenario();
}

#[test]
fn ping_pong_egld_mandos_go_test_ping_pong_call_pong_go() {
    call_pong_scenario();
}

#[test]
fn ping_pong_egld_mandos_go_test_ping_pong_call_pong_before_deadline_go() {
    call_pong_before_deadline_scenario();
}

#[test]
fn ping_pong_egld_mandos_go_test_ping_pong_call_pong_twice_go() {
    call_pong_twice_scenario();
}

#[test]
fn ping_pong_egld_mandos_go_test_ping_pong_call_pong_without_ping_go() {
    call_pong_without_ping_scenario();
}

#[test]
fn ping_pong_egld_mandos_go_test_ping_pong_init_go() {
    init_scenario();
}

#[test]
fn ping_pong_egld_mandos_rs_test_ping_pong_call_ping_rs() {
    call_ping_scenario();
}

#[test]
fn ping_pong_egld_mandos_rs_test_ping_pong_call_ping_second_user_rs() {
    call_ping_second_user_scenario();
}

#[test]
fn ping_pong_egld_mandos_rs_test_ping_pong_call_ping_twice_rs() {
    call_ping_twice_scenario();
}

#[test]
fn ping_pong_egld_mandos_rs_test_ping_pong_call_ping_wrong_amount_rs() {
    call_ping_wrong_amount_scenario();
}

#[test]
fn ping_pong_egld_mandos_rs_test_ping_pong_call_pong_rs() {
    call_pong_scenario();
}

#[test]
fn ping_pong_egld_mandos_rs_test_ping_pong_call_pong_before_deadline_rs() {
    call_pong_before_deadline_scenario();
}

#[test]
fn ping_pong_egld_mandos_rs_test_ping_pong_call_pong_twice_rs() {
    call_pong_twice_scenario();
}

#[test]
fn ping_pong_egld_mandos_rs_test_ping_pong_call_pong_without_ping_rs() {
    call_pong_without_ping_scenario();
}

#[test]
fn ping_pong_egld_mandos_rs_test_ping_pong_init_rs() {
    init_scenario();
}

#[test]
fn ping_pong_egld_scenario_go_test_ping_pong_call_ping_go() {
    call_ping_scenario();
}

#[test]
fn ping_pong_egld_scenario_go_test_ping_pong_call_ping_second_user_go() {
    call_ping_second_user_scenario();
}

#[test]
fn ping_pong_egld_scenario_go_test_ping_pong_call_ping_twice_go() {
    call_ping_twice_scenario();
}

#[test]
fn ping_pong_egld_scenario_go_test_ping_pong_call_ping_wrong_amount_go() {
    call_ping_wrong_amount_scenario();
}

#[test]
fn ping_pong_egld_scenario_go_test_ping_pong_call_pong_go() {
    call_pong_scenario();
}

#[test]
fn ping_pong_egld_scenario_go_test_ping_pong_call_pong_before_deadline_go() {
    call_pong_before_deadline_scenario();
}

#[test]
fn ping_pong_egld_scenario_go_test_ping_pong_call_pong_twice_go() {
    call_pong_twice_scenario();
}

#[test]
fn ping_pong_egld_scenario_go_test_ping_pong_call_pong_without_ping_go() {
    call_pong_without_ping_scenario();
}

#[test]
fn ping_pong_egld_scenario_go_test_ping_pong_init_go() {
    init_scenario();
}

#[test]
fn ping_pong_egld_scenario_rs_test_ping_pong_call_ping_rs() {
    call_ping_scenario();
}

#[test]
fn ping_pong_egld_scenario_rs_test_ping_pong_call_ping_second_user_rs() {
    call_ping_second_user_scenario();
}

#[test]
fn ping_pong_egld_scenario_rs_test_ping_pong_call_ping_twice_rs() {
    call_ping_twice_scenario();
}

#[test]
fn ping_pong_egld_scenario_rs_test_ping_pong_call_ping_wrong_amount_rs() {
    call_ping_wrong_amount_scenario();
}

#[test]
fn ping_pong_egld_scenario_rs_test_ping_pong_call_pong_rs() {
    call_pong_scenario();
}

#[test]
fn ping_pong_egld_scenario_rs_test_ping_pong_call_pong_before_deadline_rs() {
    call_pong_before_deadline_scenario();
}

#[test]
fn ping_pong_egld_scenario_rs_test_ping_pong_call_pong_twice_rs() {
    call_pong_twice_scenario();
}

#[test]
fn ping_pong_egld_scenario_rs_test_ping_pong_call_pong_without_ping_rs() {
    call_pong_without_ping_scenario();
}

#[test]
fn ping_pong_egld_scenario_rs_test_ping_pong_init_rs() {
    init_scenario();
}
