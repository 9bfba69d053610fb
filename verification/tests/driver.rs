use machine_timer::CountingClient;
use machine_timer::MachineTimer;
use machine_timer::MachineTimerRegisters;
use machine_timer::ReturnCode;
use machine_timer::DISABLED_SENTINEL;

fn fresh_timer() -> MachineTimer<CountingClient> {
    MachineTimer::new(MachineTimerRegisters::new())
}

#[test]
fn new_timer_starts_disabled_with_no_client() {
    let timer = fresh_timer();
    assert!(!timer.is_enabled());
    assert_eq!(timer.get_alarm(), 0xFFFF_FFFF);
    assert!(timer.client().is_none());
    assert_eq!(timer.now(), 0);
}

#[test]
fn set_alarm_enables_and_reads_back_exactly() {
    let mut timer = fresh_timer();
    timer.set_alarm(1234);
    assert!(timer.is_enabled());
    assert_eq!(timer.get_alarm(), 1234);
}

#[test]
fn set_alarm_zero_is_armed() {
    let mut timer = fresh_timer();
    timer.set_alarm(0);
    assert!(timer.is_enabled());
    assert_eq!(timer.get_alarm(), 0);
}

#[test]
fn set_alarm_max_target_is_armed_and_distinct_from_disabled() {
    let mut timer = fresh_timer();
    timer.set_alarm(u32::MAX);
    // The low half matches the sentinel's low half, but the high half is
    // zero, so the timer is still armed.
    assert!(timer.is_enabled());
    assert_eq!(timer.get_alarm(), 0xFFFF_FFFF);
}

#[test]
fn rearming_replaces_the_pending_target() {
    let mut timer = fresh_timer();
    timer.set_alarm(10);
    timer.set_alarm(99);
    assert!(timer.is_enabled());
    assert_eq!(timer.get_alarm(), 99);
}

#[test]
fn disable_reports_success_and_disables() {
    let mut timer = fresh_timer();
    timer.set_alarm(10);
    assert_eq!(timer.disable(), ReturnCode::Success);
    assert!(!timer.is_enabled());
    assert_eq!(timer.get_alarm(), 0xFFFF_FFFF);
}

#[test]
fn handle_interrupt_disables_whatever_the_prior_state() {
    let mut armed = fresh_timer();
    armed.set_alarm(3);
    armed.handle_interrupt();
    assert!(!armed.is_enabled());

    let mut disabled = fresh_timer();
    disabled.handle_interrupt();
    assert!(!disabled.is_enabled());

    let mut with_client = fresh_timer();
    with_client.set_client(CountingClient::new(1));
    with_client.set_alarm(3);
    with_client.handle_interrupt();
    assert!(!with_client.is_enabled());
}

#[test]
fn handle_interrupt_notifies_exactly_once_per_call() {
    let mut timer = fresh_timer();
    timer.set_client(CountingClient::new(1));
    assert_eq!(timer.client().unwrap().fires, 0);
    timer.handle_interrupt();
    assert_eq!(timer.client().unwrap().fires, 1);
    timer.handle_interrupt();
    assert_eq!(timer.client().unwrap().fires, 2);
}

#[test]
fn handle_interrupt_without_client_is_a_silent_no_op() {
    let mut timer = fresh_timer();
    timer.set_alarm(5);
    timer.handle_interrupt();
    assert!(timer.client().is_none());
    assert!(!timer.is_enabled());
}

#[test]
fn now_is_stable_across_reads_and_follows_ticks() {
    let mut timer = fresh_timer();
    assert_eq!(timer.now(), timer.now());
    timer.tick();
    timer.tick();
    assert_eq!(timer.now(), 2);
    let before = timer.now();
    timer.tick();
    assert!(timer.now() >= before);
}

#[test]
fn counter_wraps_to_zero_past_max_tics() {
    let registers = MachineTimerRegisters::with_values(u64::MAX, DISABLED_SENTINEL);
    let mut timer: MachineTimer<CountingClient> = MachineTimer::new(registers);
    assert_eq!(timer.now(), timer.max_tics());
    timer.tick();
    assert_eq!(timer.now(), 0);
}

#[test]
fn max_tics_is_the_counter_ceiling() {
    let timer = fresh_timer();
    assert_eq!(timer.max_tics(), u64::MAX);
}

#[test]
fn get_alarm_truncates_a_wide_comparator() {
    // A comparator set outside the 32-bit range by other means is visible
    // only through its low half, and counts as armed.
    let registers = MachineTimerRegisters::with_values(0, 0x1_0000_0005);
    let timer: MachineTimer<CountingClient> = MachineTimer::new(registers);
    assert!(timer.is_enabled());
    assert_eq!(timer.get_alarm(), 5);
}

#[test]
fn interrupt_pending_exactly_when_counter_reaches_compare() {
    let mut timer = fresh_timer();
    timer.set_alarm(2);
    assert!(!timer.is_interrupt_pending());
    timer.tick();
    assert!(!timer.is_interrupt_pending());
    timer.tick();
    assert!(timer.is_interrupt_pending());
    timer.tick();
    assert!(timer.is_interrupt_pending());
}

#[test]
fn scenario_arm_reach_target_and_fire() {
    let mut timer = fresh_timer();
    assert!(!timer.is_enabled());
    timer.set_client(CountingClient::new(1));
    timer.set_alarm(5000);
    assert!(timer.is_enabled());
    assert_eq!(timer.get_alarm(), 5000);
    while !timer.is_interrupt_pending() {
        timer.tick();
    }
    assert_eq!(timer.now(), 5000);
    timer.handle_interrupt();
    assert_eq!(timer.client().unwrap().fires, 1);
    assert!(!timer.is_enabled());
}

#[test]
fn scenario_disable_on_disabled_timer_is_idempotent() {
    let mut timer = fresh_timer();
    timer.set_client(CountingClient::new(1));
    assert!(!timer.is_enabled());
    assert_eq!(timer.disable(), ReturnCode::Success);
    assert!(!timer.is_enabled());
    assert_eq!(timer.disable(), ReturnCode::Success);
    assert!(!timer.is_enabled());
    assert_eq!(timer.client().unwrap().fires, 0);
}

#[test]
fn scenario_later_registration_wins() {
    let mut timer = fresh_timer();
    timer.set_client(CountingClient::new(1));
    timer.set_client(CountingClient::new(2));
    timer.set_alarm(7);
    timer.handle_interrupt();
    let client = timer.client().unwrap();
    assert_eq!(client.id, 2);
    assert_eq!(client.fires, 1);
}
