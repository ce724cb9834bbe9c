use weather_station::errors::{I2cError, Tsl2591DriverError, Tsl2591Error};
use weather_station::light::{ChannelReading, Gain, GainSearch, GainSearchStep, LightCommand};
use weather_station::payloads::Tsl2591Data;

fn counts(visible: u16, infrared: u16, overflow: bool, nano_lux: Option<i64>) -> ChannelReading {
    ChannelReading::Counts { visible, infrared, overflow, nano_lux }
}

/// Runs a search over the given answers; returns the gains it set and its result.
fn run(answers: &[ChannelReading]) -> (Vec<Gain>, Option<Result<Tsl2591Data, Tsl2591Error>>) {
    let mut gains = Vec::new();
    let search = GainSearch::new();
    assert_eq!(search.command(), LightCommand::Enable);
    let mut search = match search.enable(None) {
        GainSearchStep::Retry(s) => s,
        GainSearchStep::Done(r) => return (gains, Some(r)),
    };
    for a in answers {
        assert_eq!(search.command(), LightCommand::SetGainAndRead(search.gain()));
        gains.push(search.gain());
        match search.step(*a) {
            GainSearchStep::Retry(next) => search = next,
            GainSearchStep::Done(r) => return (gains, Some(r)),
        }
    }
    (gains, None)
}

#[test]
fn search_starts_at_max_gain() {
    assert_eq!(GainSearch::new().gain(), Gain::Max);
}

#[test]
fn first_good_reading_wins() {
    let (gains, r) = run(&[counts(100, 20, false, Some(5_000))]);
    assert_eq!(gains, vec![Gain::Max]);
    assert_eq!(r, Some(Ok(Tsl2591Data { nano_lux: 5_000, visible: 100, infrared: 20 })));
}

#[test]
fn overflow_lowers_the_gain_in_order() {
    let (gains, r) = run(&[
        counts(65535, 65535, true, None),
        ChannelReading::ReadFailed(Tsl2591DriverError::SignalOverflow),
        counts(3000, 500, false, Some(0)),
        counts(1200, 300, false, Some(42)),
    ]);
    assert_eq!(gains, vec![Gain::Max, Gain::High, Gain::Med, Gain::Low]);
    assert_eq!(r, Some(Ok(Tsl2591Data { nano_lux: 42, visible: 1200, infrared: 300 })));
}

#[test]
fn four_overflows_give_total_overflow() {
    let (gains, r) = run(&[
        counts(65535, 65535, true, None),
        ChannelReading::ReadFailed(Tsl2591DriverError::InfraredOverflow),
        counts(1, 1, false, None),
        counts(5, 1, false, Some(-3)),
        counts(5, 1, false, Some(10)),
    ]);
    assert_eq!(gains.len(), 4);
    assert_eq!(r, Some(Err(Tsl2591Error::TotalOverflow)));
}

#[test]
fn bus_errors_end_the_search() {
    let bus = I2cError::AddressOutOfRange(0x200);
    let (gains, r) = run(&[
        counts(65535, 65535, true, None),
        ChannelReading::ReadFailed(Tsl2591DriverError::I2c(bus)),
    ]);
    assert_eq!(gains, vec![Gain::Max, Gain::High]);
    assert_eq!(r, Some(Err(Tsl2591Error::I2c(bus))));
    let (_, r) = run(&[ChannelReading::ReadFailed(Tsl2591DriverError::IdMismatch(0x40))]);
    assert_eq!(r, Some(Err(Tsl2591Error::IdMismatch(0x40))));
}

#[test]
fn failing_to_set_a_gain_ends_the_search() {
    let (_, r) = run(&[ChannelReading::GainNotSet(Tsl2591DriverError::SignalOverflow)]);
    assert_eq!(r, Some(Err(Tsl2591Error::SignalOverflow)));
    let bus = I2cError::InvalidWriteBufferLength;
    let (_, r) = run(&[
        counts(1, 1, true, None),
        ChannelReading::GainNotSet(Tsl2591DriverError::I2c(bus)),
    ]);
    assert_eq!(r, Some(Err(Tsl2591Error::I2c(bus))));
}

#[test]
fn failing_to_enable_ends_the_measurement_before_any_gain() {
    let bus = I2cError::InvalidReadBufferLength;
    match GainSearch::new().enable(Some(Tsl2591DriverError::I2c(bus))) {
        GainSearchStep::Done(r) => assert_eq!(r, Err(Tsl2591Error::I2c(bus))),
        GainSearchStep::Retry(_) => panic!("the measurement must end"),
    }
}

#[test]
fn commands_follow_the_plan() {
    let mut commands = Vec::new();
    let mut search = GainSearch::new();
    commands.push(search.command());
    search = match search.enable(None) {
        GainSearchStep::Retry(s) => s,
        GainSearchStep::Done(_) => panic!("enabling succeeded"),
    };
    loop {
        commands.push(search.command());
        match search.step(ChannelReading::ReadFailed(Tsl2591DriverError::SignalOverflow)) {
            GainSearchStep::Retry(s) => search = s,
            GainSearchStep::Done(r) => {
                assert_eq!(r, Err(Tsl2591Error::TotalOverflow));
                break;
            }
        }
    }
    assert_eq!(
        commands,
        vec![
            LightCommand::Enable,
            LightCommand::SetGainAndRead(Gain::Max),
            LightCommand::SetGainAndRead(Gain::High),
            LightCommand::SetGainAndRead(Gain::Med),
            LightCommand::SetGainAndRead(Gain::Low),
        ]
    );
}
