use pdk_emu::clock::{ClockAction, ClockState};
use pdk_emu::default_cpu;

#[test]
fn clock_speed_budget_is_rounded_period() {
    let mut cpu = default_cpu();
    assert_eq!(cpu.freq_pause_nanos, 1000);
    assert_eq!(cpu.freq_hz, 1_000_000);

    cpu.set_clock_speed(1_000_000);
    assert_eq!(cpu.freq_pause_nanos, 1000);

    cpu.set_clock_speed(1);
    assert_eq!(cpu.freq_pause_nanos, 1_000_000_000);

    // 1e9 / 3 = 333333333.33... rounds down.
    cpu.set_clock_speed(3);
    assert_eq!(cpu.freq_pause_nanos, 333_333_333);

    // 1e9 / 6 = 166666666.66... rounds up.
    cpu.set_clock_speed(6);
    assert_eq!(cpu.freq_pause_nanos, 166_666_667);
    assert_eq!(cpu.freq_hz, 6);
}

#[test]
fn poll_within_budget_is_idle() {
    let mut state = ClockState::new(100);

    assert_eq!(state.poll(100, 1000), ClockAction::Idle);
    assert_eq!(state.poll(1100, 1000), ClockAction::Idle);
    assert_eq!(state.ticks, 0);
    assert_eq!(state.start_nanos, 100);
}

#[test]
fn poll_dispatches_once_budget_elapses() {
    let mut state = ClockState::new(100);

    assert_eq!(state.poll(1101, 1000), ClockAction::Dispatch);
    assert_eq!(state.ticks, 1);
    assert_eq!(state.start_nanos, 1101);
}

#[test]
fn multi_cycle_instruction_suppresses_following_ticks() {
    let mut state = ClockState::new(0);

    assert_eq!(state.poll(1001, 1000), ClockAction::Dispatch);
    // The dispatched instruction costs three cycles: the dispatching
    // tick was cycle one, so two further ticks are consumed.
    state.record_dispatch(3);
    assert_eq!(state.skip_cycles, 2);

    assert_eq!(state.poll(2002, 1000), ClockAction::SkipCycle);
    assert_eq!(state.poll(3003, 1000), ClockAction::SkipCycle);
    assert_eq!(state.poll(4004, 1000), ClockAction::Dispatch);
    assert_eq!(state.ticks, 4);
}

#[test]
fn single_cycle_instruction_leaves_no_suppression() {
    let mut state = ClockState::new(0);

    assert_eq!(state.poll(2000, 1000), ClockAction::Dispatch);
    state.record_dispatch(1);
    assert_eq!(state.skip_cycles, 0);
    assert_eq!(state.poll(4000, 1000), ClockAction::Dispatch);
}

#[test]
fn time_source_reads_the_host_clock() {
    // Nothing is promised of the reading; it only has to be available.
    let reading = pdk_emu::time::sys_nanos();
    assert!(reading.is_ok());
}
