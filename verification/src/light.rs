//! Choosing the gain of the TSL2591 light sensor.
//!
//! The sensor saturates in bright light at high gain. A measurement therefore
//! enables the sensor once, then tries the gains from the most to the least sensitive and keeps the first
//! reading that neither overflows nor gives a non-positive lux value. The
//! firmware performs each step on the sensor; this module decides what comes
//! next.

use vstd::prelude::*;

use crate::errors::{Tsl2591DriverError, Tsl2591Error};
use crate::payloads::Tsl2591Data;

verus! {

/// Analog gain of the TSL2591.
#[derive(Clone, Copy, Debug, PartialEq, Eq, Structural)]
pub enum Gain {
    Low,
    Med,
    High,
    Max,
}

/// How many gains the search tries.
pub const GAIN_STEPS: usize = 4;

/// The gain that the search tries at a given attempt: Max, High, Med, then Low.
pub open spec fn gain_at(attempt: int) -> Gain {
    if attempt == 0 {
        Gain::Max
    } else if attempt == 1 {
        Gain::High
    } else if attempt == 2 {
        Gain::Med
    } else {
        Gain::Low
    }
}

/// What the sensor answered to one read at the current gain.
#[derive(Clone, Copy, Debug, PartialEq, Eq, Structural)]
pub enum ChannelReading {
    /// Raw channel counts; whether they overflow at the 200 ms integration
    /// time; and the lux value (in nano-lux) computed from them, `None` where
    /// the computation failed.
    Counts { visible: u16, infrared: u16, overflow: bool, nano_lux: Option<i64> },
    /// The driver failed to set the gain.
    GainNotSet(Tsl2591DriverError),
    /// The driver failed to read the channels.
    ReadFailed(Tsl2591DriverError),
}

/// What one reading settles: `Some` of the search's result, or `None` when
/// the search moves on to the next gain.
pub open spec fn reading_verdict(reading: ChannelReading) -> Option<Result<Tsl2591Data, Tsl2591Error>> {
    match reading {
        ChannelReading::Counts { visible, infrared, overflow, nano_lux } => {
            if overflow {
                None
            } else {
                match nano_lux {
                    Some(n) => if n > 0 {
                        Some(Ok(Tsl2591Data { nano_lux: n, visible, infrared }))
                    } else {
                        None
                    },
                    None => None,
                }
            }
        },
        ChannelReading::GainNotSet(e) => Some(Err(crate::errors::tsl2591_error_of(e))),
        ChannelReading::ReadFailed(e) => match e {
            Tsl2591DriverError::I2c(i) => Some(Err(Tsl2591Error::I2c(i))),
            Tsl2591DriverError::IdMismatch(id) => Some(Err(Tsl2591Error::IdMismatch(id))),
            Tsl2591DriverError::SignalOverflow => None,
            Tsl2591DriverError::InfraredOverflow => None,
        },
    }
}

/// The result of a whole search that starts at `attempt` and receives `readings`
/// in turn; `None` while it still waits for a reading.
pub open spec fn search_outcome(attempt: int, readings: Seq<ChannelReading>) -> Option<
    Result<Tsl2591Data, Tsl2591Error>,
>
    decreases readings.len(),
{
    if readings.len() == 0 {
        None
    } else {
        match reading_verdict(readings[0]) {
            Some(r) => Some(r),
            None => if attempt + 1 < GAIN_STEPS {
                search_outcome(attempt + 1, readings.drop_first())
            } else {
                Some(Err(Tsl2591Error::TotalOverflow))
            },
        }
    }
}

/// What the firmware does next on the sensor.
#[derive(Clone, Copy, Debug, PartialEq, Eq, Structural)]
pub enum LightCommand {
    /// Enable the sensor.
    Enable,
    /// Set this gain, then read the channels.
    SetGainAndRead(Gain),
}

/// The commands of a whole measurement, in order: enabling the sensor, then
/// each gain from the most to the least sensitive.
pub open spec fn light_plan() -> Seq<LightCommand> {
    seq![
        LightCommand::Enable,
        LightCommand::SetGainAndRead(Gain::Max),
        LightCommand::SetGainAndRead(Gain::High),
        LightCommand::SetGainAndRead(Gain::Med),
        LightCommand::SetGainAndRead(Gain::Low),
    ]
}

/// A gain search in progress.
pub struct GainSearch {
    enabled: bool,
    attempt: usize,
}

/// What the firmware does after a reading.
pub enum GainSearchStep {
    /// Set the next gain and read again.
    Retry(GainSearch),
    /// The measurement is over.
    Done(Result<Tsl2591Data, Tsl2591Error>),
}

impl GainSearch {
    #[verifier::type_invariant]
    spec fn attempts_in_range(self) -> bool {
        self.attempt < GAIN_STEPS
    }

    /// The number of gains tried before the current one.
    pub closed spec fn attempt(self) -> int {
        self.attempt as int
    }

    /// Whether the sensor was enabled.
    pub closed spec fn is_enabled(self) -> bool {
        self.enabled
    }

    /// The command that the search calls for next.
    pub open spec fn next_command(self) -> LightCommand {
        if self.is_enabled() {
            LightCommand::SetGainAndRead(gain_at(self.attempt()))
        } else {
            LightCommand::Enable
        }
    }

    /// Whether `next` is the search that `self` moves on to: the one with
    /// the sensor enabled that tries the first gain after enabling, or the
    /// next gain after a reading.
    pub open spec fn moves_to(self, next: GainSearch) -> bool {
        &&& next.is_enabled()
        &&& if self.is_enabled() {
            next.attempt() == self.attempt() + 1 && next.attempt() < GAIN_STEPS
        } else {
            next.attempt() == 0
        }
    }

    /// A measurement about to enable the sensor, before its first gain.
    pub fn new() -> (s: GainSearch)
        ensures
            s.attempt() == 0,
            !s.is_enabled(),
    {
        GainSearch { enabled: false, attempt: 0 }
    }

    /// The command that the search calls for next.
    pub fn command(&self) -> (c: LightCommand)
        ensures
            c == self.next_command(),
    {
        if self.enabled {
            LightCommand::SetGainAndRead(self.gain())
        } else {
            LightCommand::Enable
        }
    }

    /// Takes how enabling the sensor went: `None` when it was enabled, the
    /// driver's error otherwise, which ends the measurement.
    pub fn enable(self, failure: Option<Tsl2591DriverError>) -> (next: GainSearchStep)
        requires
            !self.is_enabled(),
        ensures
            match failure {
                Some(e) => next == GainSearchStep::Done(Err(crate::errors::tsl2591_error_of(e))),
                None => next matches GainSearchStep::Retry(s) && self.moves_to(s),
            },
    {
        match failure {
            Some(e) => GainSearchStep::Done(Err(Tsl2591Error::from(e))),
            None => GainSearchStep::Retry(GainSearch { enabled: true, attempt: 0 }),
        }
    }

    /// The gain to set before the next read.
    pub fn gain(&self) -> (g: Gain)
        ensures
            g == gain_at(self.attempt()),
            0 <= self.attempt() < GAIN_STEPS,
    {
        proof {
            use_type_invariant(self);
        }
        if self.attempt == 0 {
            Gain::Max
        } else if self.attempt == 1 {
            Gain::High
        } else if self.attempt == 2 {
            Gain::Med
        } else {
            Gain::Low
        }
    }

    /// Takes the sensor's answer at the current gain and decides what comes next.
    pub fn step(self, reading: ChannelReading) -> (next: GainSearchStep)
        requires
            self.is_enabled(),
        ensures
            0 <= self.attempt() < GAIN_STEPS,
            reading matches ChannelReading::Counts { visible, infrared, overflow, nano_lux } ==> (
            !overflow && nano_lux is Some && nano_lux->Some_0 > 0 ==> next == GainSearchStep::Done(
                Ok(Tsl2591Data { nano_lux: nano_lux->Some_0, visible, infrared }),
            )),
            match reading_verdict(reading) {
                Some(r) => next == GainSearchStep::Done(r),
                None => if self.attempt() + 1 < GAIN_STEPS {
                    next matches GainSearchStep::Retry(s) && self.moves_to(s)
                } else {
                    next == GainSearchStep::Done(Err(Tsl2591Error::TotalOverflow))
                },
            },
    {
        proof {
            use_type_invariant(&self);
        }
        let verdict: Option<Result<Tsl2591Data, Tsl2591Error>> = match reading {
            ChannelReading::Counts { visible, infrared, overflow, nano_lux } => {
                if overflow {
                    None
                } else {
                    match nano_lux {
                        Some(n) => if n > 0 {
                            Some(Ok(Tsl2591Data { nano_lux: n, visible, infrared }))
                        } else {
                            None
                        },
                        None => None,
                    }
                }
            },
            ChannelReading::GainNotSet(e) => Some(Err(Tsl2591Error::from(e))),
            ChannelReading::ReadFailed(e) => match e {
                Tsl2591DriverError::I2c(i) => Some(Err(Tsl2591Error::I2c(i))),
                Tsl2591DriverError::IdMismatch(id) => Some(Err(Tsl2591Error::IdMismatch(id))),
                Tsl2591DriverError::SignalOverflow => None,
                Tsl2591DriverError::InfraredOverflow => None,
            },
        };
        match verdict {
            Some(r) => GainSearchStep::Done(r),
            None => if self.attempt + 1 < GAIN_STEPS {
                GainSearchStep::Retry(GainSearch { enabled: true, attempt: self.attempt + 1 })
            } else {
                GainSearchStep::Done(Err(Tsl2591Error::TotalOverflow))
            },
        }
    }
}

/// A step of the search is a step of `search_outcome`: what `step` decides
/// on one reading is what the whole search over that reading and the ones
/// after it gives.
pub proof fn lemma_step_follows_search(attempt: int, reading: ChannelReading, rest: Seq<ChannelReading>)
    ensures
        search_outcome(attempt, seq![reading] + rest) == match reading_verdict(reading) {
            Some(r) => Some(r),
            None => if attempt + 1 < GAIN_STEPS {
                search_outcome(attempt + 1, rest)
            } else {
                Some(Err(Tsl2591Error::TotalOverflow))
            },
        },
{
    assert((seq![reading] + rest).drop_first() =~= rest);
}

/// Every search is decided by its fourth reading at the latest, and what the
/// readings after the fourth say does not matter.
pub proof fn lemma_search_decided_within_four_readings(readings: Seq<ChannelReading>)
    requires
        readings.len() >= GAIN_STEPS,
    ensures
        search_outcome(0, readings) is Some,
        search_outcome(0, readings) == search_outcome(0, readings.take(GAIN_STEPS as int)),
{
    let r1 = readings.drop_first();
    let r2 = r1.drop_first();
    let r3 = r2.drop_first();
    let t = readings.take(4);
    let t1 = t.drop_first();
    let t2 = t1.drop_first();
    let t3 = t2.drop_first();
    assert(t1 =~= r1.take(3));
    assert(t2 =~= r2.take(2));
    assert(t3 =~= r3.take(1));
    assert(t3.len() == 1 && t3[0] == r3[0]);
    assert(search_outcome(3, r3) == search_outcome(3, t3));
    assert(search_outcome(2, r2) == search_outcome(2, t2));
    assert(search_outcome(1, r1) == search_outcome(1, t1));
}

/// A light reading that a search returns was read, without overflow, in one
/// of the answers it received, and has a positive lux value.
pub proof fn lemma_search_result_is_valid(
    attempt: int,
    readings: Seq<ChannelReading>,
    data: Tsl2591Data,
)
    requires
        search_outcome(attempt, readings) == Some(Ok::<Tsl2591Data, Tsl2591Error>(data)),
    ensures
        data.nano_lux > 0,
        exists|i: int|
            0 <= i < readings.len() && #[trigger] readings[i] == (ChannelReading::Counts {
                visible: data.visible,
                infrared: data.infrared,
                overflow: false,
                nano_lux: Some(data.nano_lux),
            }),
    decreases readings.len(),
{
    match reading_verdict(readings[0]) {
        Some(r) => {
            assert(readings[0] == (ChannelReading::Counts {
                visible: data.visible,
                infrared: data.infrared,
                overflow: false,
                nano_lux: Some(data.nano_lux),
            }));
        },
        None => {
            let rest = readings.drop_first();
            lemma_search_result_is_valid(attempt + 1, rest, data);
            let i = choose|i: int|
                0 <= i < rest.len() && #[trigger] rest[i] == (ChannelReading::Counts {
                    visible: data.visible,
                    infrared: data.infrared,
                    overflow: false,
                    nano_lux: Some(data.nano_lux),
                });
            assert(readings[i + 1] == rest[i]);
        },
    }
}

/// A measurement enables the sensor exactly once, before any gain is set,
/// then sets the gains in order, at most four of them: along any sequence of
/// searches that starts with a new one and where each moves to the next, the
/// commands are the first ones of `light_plan`.
pub proof fn lemma_enable_once_before_any_gain(searches: Seq<GainSearch>)
    requires
        searches.len() > 0,
        !searches[0].is_enabled(),
        searches[0].attempt() == 0,
        forall|i: int| 0 <= i < searches.len() - 1 ==> #[trigger] searches[i].moves_to(searches[i + 1]),
    ensures
        searches.len() <= light_plan().len(),
        forall|i: int| 0 <= i < searches.len() ==> #[trigger] searches[i].next_command() == light_plan()[i],
{
    lemma_searches_count_up(searches);
    if searches.len() > light_plan().len() {
        let j = 4int;
        assert(searches[j].moves_to(searches[j + 1]));
        assert(searches[j + 1].attempt() == 4);
    }
    let plan = light_plan();
    assert(plan[0] == LightCommand::Enable);
    assert(plan[1] == LightCommand::SetGainAndRead(Gain::Max));
    assert(plan[2] == LightCommand::SetGainAndRead(Gain::High));
    assert(plan[3] == LightCommand::SetGainAndRead(Gain::Med));
    assert(plan[4] == LightCommand::SetGainAndRead(Gain::Low));
    assert forall|i: int| 0 <= i < searches.len() implies #[trigger] searches[i].next_command() == light_plan()[i] by {
        if i > 0 {
            assert(searches[i].is_enabled() && searches[i].attempt() == i - 1);
        }
    }
}

proof fn lemma_searches_count_up(searches: Seq<GainSearch>)
    requires
        searches.len() > 0,
        !searches[0].is_enabled(),
        searches[0].attempt() == 0,
        forall|i: int| 0 <= i < searches.len() - 1 ==> #[trigger] searches[i].moves_to(searches[i + 1]),
    ensures
        forall|i: int| 1 <= i < searches.len() ==> #[trigger] searches[i].is_enabled() && searches[i].attempt() == i - 1,
    decreases searches.len(),
{
    if searches.len() > 1 {
        let pre = searches.drop_last();
        assert forall|i: int| 0 <= i < pre.len() - 1 implies #[trigger] pre[i].moves_to(pre[i + 1]) by {
            assert(pre[i] == searches[i] && pre[i + 1] == searches[i + 1]);
            assert(searches[i].moves_to(searches[i + 1]));
        }
        lemma_searches_count_up(pre);
        let j = searches.len() - 2;
        assert(searches[j].moves_to(searches[j + 1]));
        assert forall|i: int| 1 <= i < searches.len() implies #[trigger] searches[i].is_enabled() && searches[i].attempt() == i - 1 by {
            if i < searches.len() - 1 {
                assert(searches[i] == pre[i]);
            } else if j > 0 {
                assert(searches[j] == pre[j]);
            }
        }
    }
}

/// Every usable reading is taken, whatever its brightness: at any gain, a
/// reading whose counts do not overflow and whose lux value is positive ends
/// the search with exactly that reading, and a reading that overflows, or
/// whose lux value is missing or not positive, never ends it with a reading.
pub proof fn lemma_usable_reading_ends_search(
    attempt: int,
    visible: u16,
    infrared: u16,
    overflow: bool,
    nano_lux: Option<i64>,
    rest: Seq<ChannelReading>,
)
    ensures
        !overflow && nano_lux is Some && nano_lux->Some_0 > 0 ==> search_outcome(
            attempt,
            seq![ChannelReading::Counts { visible, infrared, overflow, nano_lux }] + rest,
        ) == Some(Ok::<Tsl2591Data, Tsl2591Error>(Tsl2591Data { nano_lux: nano_lux->Some_0, visible, infrared })),
        !(!overflow && nano_lux is Some && nano_lux->Some_0 > 0) ==> !(reading_verdict(
            ChannelReading::Counts { visible, infrared, overflow, nano_lux },
        ) matches Some(Ok(_))),
{
    lemma_step_follows_search(
        attempt,
        ChannelReading::Counts { visible, infrared, overflow, nano_lux },
        rest,
    );
}

} // verus!
