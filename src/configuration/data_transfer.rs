//! Data transfer configuration: FIFO clock, FIFO mode and channel layout.
use vstd::prelude::*;

use crate::error::D3xxError;

verus! {

/// FIFO mode.
#[derive(Debug, Clone, Copy, Eq, PartialEq, Hash, Structural)]
pub enum FifoMode {
    /// 245 FIFO mode (0).
    Mode245,
    /// 600 FIFO mode (1), the default.
    Mode600,
}

/// Clock speed of the FIFOs.
#[derive(Debug, Clone, Copy, Eq, PartialEq, Hash, Structural)]
pub enum FifoClock {
    /// 100 MHz clock speed (0).
    Clock100Mhz,
    /// 66 MHz clock speed (1).
    Clock66Mhz,
}

/// Channel configuration: how many pairs of pipes the chip offers.
#[derive(Debug, Clone, Copy, Eq, PartialEq, Hash, Structural)]
pub enum ChannelConfiguration {
    /// Four OUT and four IN pipes (0).
    Four,
    /// Two OUT and two IN pipes (1).
    Two,
    /// One OUT and one IN pipe (2).
    One,
    /// One OUT pipe only (3).
    OneOutPipe,
    /// One IN pipe only (4).
    OneInPipe,
}

/// The FIFO mode encoded as `v`.
pub open spec fn fifo_mode_of(v: u8) -> Option<FifoMode> {
    match v {
        0 => Some(FifoMode::Mode245),
        1 => Some(FifoMode::Mode600),
        _ => None,
    }
}

/// The FIFO clock encoded as `v`.
pub open spec fn fifo_clock_of(v: u8) -> Option<FifoClock> {
    match v {
        0 => Some(FifoClock::Clock100Mhz),
        1 => Some(FifoClock::Clock66Mhz),
        _ => None,
    }
}

/// The channel configuration encoded as `v`.
pub open spec fn channel_configuration_of(v: u8) -> Option<ChannelConfiguration> {
    match v {
        0 => Some(ChannelConfiguration::Four),
        1 => Some(ChannelConfiguration::Two),
        2 => Some(ChannelConfiguration::One),
        3 => Some(ChannelConfiguration::OneOutPipe),
        4 => Some(ChannelConfiguration::OneInPipe),
        _ => None,
    }
}

impl FifoMode {
    /// The FIFO mode encoded as `v`.
    pub fn from_raw(v: u8) -> (r: Option<FifoMode>)
        ensures
            r == fifo_mode_of(v),
    {
        match v {
            0 => Some(FifoMode::Mode245),
            1 => Some(FifoMode::Mode600),
            _ => None,
        }
    }
}

impl FifoClock {
    /// The FIFO clock encoded as `v`.
    pub fn from_raw(v: u8) -> (r: Option<FifoClock>)
        ensures
            r == fifo_clock_of(v),
    {
        match v {
            0 => Some(FifoClock::Clock100Mhz),
            1 => Some(FifoClock::Clock66Mhz),
            _ => None,
        }
    }
}

impl ChannelConfiguration {
    /// The channel configuration encoded as `v`.
    pub fn from_raw(v: u8) -> (r: Option<ChannelConfiguration>)
        ensures
            r == channel_configuration_of(v),
    {
        match v {
            0 => Some(ChannelConfiguration::Four),
            1 => Some(ChannelConfiguration::Two),
            2 => Some(ChannelConfiguration::One),
            3 => Some(ChannelConfiguration::OneOutPipe),
            4 => Some(ChannelConfiguration::OneInPipe),
            _ => None,
        }
    }
}

/// Configuration of data transfer through the FIFOs.
pub struct DataTransferConfig {
    fifo_clock: FifoClock,
    fifo_mode: FifoMode,
    channel_config: ChannelConfiguration,
}

impl DataTransferConfig {
    /// The FIFO clock.
    pub closed spec fn spec_fifo_clock(&self) -> FifoClock {
        self.fifo_clock
    }

    /// The FIFO mode.
    pub closed spec fn spec_fifo_mode(&self) -> FifoMode {
        self.fifo_mode
    }

    /// The channel configuration.
    pub closed spec fn spec_channel_config(&self) -> ChannelConfiguration {
        self.channel_config
    }

    /// The configuration encoded by the three bytes; fails with `OtherError`
    /// if any of them encodes nothing known.
    pub fn new(fifo_clock: u8, fifo_mode: u8, channel_config: u8) -> (r: Result<
        DataTransferConfig,
        D3xxError,
    >)
        ensures
            r is Ok <==> fifo_clock_of(fifo_clock) is Some && fifo_mode_of(fifo_mode) is Some
                && channel_configuration_of(channel_config) is Some,
            r matches Err(e) ==> e == D3xxError::OtherError,
            r matches Ok(c) ==> {
                &&& Some(c.spec_fifo_clock()) == fifo_clock_of(fifo_clock)
                &&& Some(c.spec_fifo_mode()) == fifo_mode_of(fifo_mode)
                &&& Some(c.spec_channel_config()) == channel_configuration_of(channel_config)
            },
    {
        let fifo_clock = match FifoClock::from_raw(fifo_clock) {
            Some(v) => v,
            None => return Err(D3xxError::OtherError),
        };
        let fifo_mode = match FifoMode::from_raw(fifo_mode) {
            Some(v) => v,
            None => return Err(D3xxError::OtherError),
        };
        let channel_config = match ChannelConfiguration::from_raw(channel_config) {
            Some(v) => v,
            None => return Err(D3xxError::OtherError),
        };
        Ok(DataTransferConfig { fifo_clock, fifo_mode, channel_config })
    }

    /// The FIFO clock speed.
    pub fn fifo_clock(&self) -> (r: &FifoClock)
        ensures
            *r == self.spec_fifo_clock(),
    {
        &self.fifo_clock
    }

    /// The FIFO mode.
    pub fn fifo_mode(&self) -> (r: &FifoMode)
        ensures
            *r == self.spec_fifo_mode(),
    {
        &self.fifo_mode
    }

    /// The channel configuration.
    pub fn channel_config(&self) -> (r: &ChannelConfiguration)
        ensures
            *r == self.spec_channel_config(),
    {
        &self.channel_config
    }
}

} // verus!
