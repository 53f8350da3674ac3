use rust_stm32f4_discovery::lis302dl::{EXPECTED_DEVICE_ID, ON, REG_CTRL_REG1, REG_OUT_X, REG_OUT_Y, REG_OUT_Z, REG_WHO_AM_I};
use rust_stm32f4_discovery::sensor::SensorModel;
use rust_stm32f4_discovery::spi;
use rust_stm32f4_discovery::spi::{BusAction, BusEvent, Phase, Transfer, DUMMY, READ_FLAG};

/// Runs a transfer against the sensor model on a peripheral that is always
/// ready, the way the firmware drives the real one.
fn run_on(sensor: &mut SensorModel, mut t: Transfer) -> Option<u32> {
    let mut action = t.action();
    let mut received: u32 = 0;
    loop {
        let event = match action {
            BusAction::PollTx => BusEvent::TxEmpty(true),
            BusAction::Load(frame) => {
                received = sensor.exchange(frame);
                BusEvent::RxNotEmpty(true)
            }
            BusAction::PollRx => BusEvent::RxNotEmpty(true),
            BusAction::ReadData => BusEvent::Data(received),
            BusAction::Complete(w) => return Some(w),
            BusAction::Abort => return None,
        };
        action = t.step(event);
    }
}

#[test]
fn power_on_pattern_value() {
    assert_eq!(ON, 0x67);
}

#[test]
fn write_frames_are_address_then_data() {
    let t = spi::write(REG_CTRL_REG1, ON, 10);
    assert_eq!((t.first, t.second), (0x20, 0x67));
    assert_eq!(t.phase, Phase::AwaitTx);
}

#[test]
fn read_frames_set_read_flag_then_dummy() {
    let t = spi::read(REG_WHO_AM_I, 10);
    assert_eq!(t.first, 0x8F);
    assert_eq!(t.first, REG_WHO_AM_I | READ_FLAG);
    assert_eq!(t.second, DUMMY);
}

#[test]
fn ready_bus_completes_with_second_reply() {
    let mut t = spi::read(REG_OUT_X, 3);
    assert_eq!(t.action(), BusAction::PollTx);
    assert_eq!(t.step(BusEvent::TxEmpty(true)), BusAction::Load(0xA9));
    assert_eq!(t.step(BusEvent::RxNotEmpty(true)), BusAction::ReadData);
    assert_eq!(t.step(BusEvent::Data(0x11)), BusAction::PollTx);
    assert_eq!(t.result(), None);
    assert_eq!(t.step(BusEvent::TxEmpty(true)), BusAction::Load(0x00));
    assert_eq!(t.step(BusEvent::RxNotEmpty(true)), BusAction::ReadData);
    assert_eq!(t.step(BusEvent::Data(0x42)), BusAction::Complete(0x42));
    assert_eq!(t.result(), Some(0x42));
}

#[test]
fn busy_bus_is_polled_again() {
    let mut t = spi::write(REG_CTRL_REG1, ON, 2);
    assert_eq!(t.step(BusEvent::TxEmpty(false)), BusAction::PollTx);
    assert_eq!(t.step(BusEvent::TxEmpty(false)), BusAction::PollTx);
    assert_eq!(t.step(BusEvent::TxEmpty(true)), BusAction::Load(0x20));
    assert_eq!(t.spins, 0);
    assert_eq!(t.step(BusEvent::RxNotEmpty(false)), BusAction::PollRx);
    assert_eq!(t.step(BusEvent::RxNotEmpty(true)), BusAction::ReadData);
}

#[test]
fn stalled_bus_gives_up_after_max_spins() {
    let mut t = spi::read(REG_OUT_Y, 2);
    assert_eq!(t.step(BusEvent::TxEmpty(false)), BusAction::PollTx);
    assert_eq!(t.step(BusEvent::TxEmpty(false)), BusAction::PollTx);
    assert_eq!(t.step(BusEvent::TxEmpty(false)), BusAction::Abort);
    assert_eq!(t.phase, Phase::Stalled);
    assert_eq!(t.step(BusEvent::TxEmpty(true)), BusAction::Abort);
    assert_eq!(t.result(), None);
}

#[test]
fn zero_spins_gives_up_on_first_miss() {
    let mut t = spi::read(REG_OUT_Y, 0);
    assert_eq!(t.step(BusEvent::TxEmpty(true)), BusAction::Load(0xAB));
    assert_eq!(t.step(BusEvent::RxNotEmpty(false)), BusAction::Abort);
}

#[test]
fn unexpected_event_repeats_pending_action() {
    let mut t = spi::read(REG_OUT_Z, 5);
    assert_eq!(t.step(BusEvent::Data(7)), BusAction::PollTx);
    assert_eq!(t.step(BusEvent::TxEmpty(true)), BusAction::Load(0xAD));
    assert_eq!(t.step(BusEvent::TxEmpty(true)), BusAction::PollRx);
    assert_eq!(t.phase, Phase::AwaitRx);
}

#[test]
fn power_on_write_then_identification_read() {
    let mut sensor = SensorModel::new();
    assert_eq!(run_on(&mut sensor, spi::write(REG_CTRL_REG1, ON, 10)), Some(0));
    assert_eq!(run_on(&mut sensor, spi::read(REG_WHO_AM_I, 10)), Some(EXPECTED_DEVICE_ID as u32));
}

#[test]
fn control_register_round_trip() {
    let mut sensor = SensorModel::new();
    assert_eq!(run_on(&mut sensor, spi::read(REG_CTRL_REG1, 10)), Some(0x07));
    run_on(&mut sensor, spi::write(REG_CTRL_REG1, ON, 10));
    assert_eq!(run_on(&mut sensor, spi::read(REG_CTRL_REG1, 10)), Some(0x67));
    run_on(&mut sensor, spi::write(REG_CTRL_REG1, 0xC7, 10));
    assert_eq!(run_on(&mut sensor, spi::read(REG_CTRL_REG1, 10)), Some(0xC7));
}

#[test]
fn identification_register_ignores_writes() {
    let mut sensor = SensorModel::new();
    run_on(&mut sensor, spi::write(REG_WHO_AM_I, 0x12, 10));
    assert_eq!(run_on(&mut sensor, spi::read(REG_WHO_AM_I, 10)), Some(0x3B));
}

#[test]
fn axis_registers_read_in_order() {
    let mut sensor = SensorModel::new();
    sensor.set_axes(0x05, 0xF0, 0x40);
    assert_eq!(run_on(&mut sensor, spi::read(REG_OUT_X, 10)), Some(0x05));
    assert_eq!(run_on(&mut sensor, spi::read(REG_OUT_Y, 10)), Some(0xF0));
    assert_eq!(run_on(&mut sensor, spi::read(REG_OUT_Z, 10)), Some(0x40));
}
