//! How the serial trace output is to be clocked and encoded.

use vstd::prelude::*;

verus! {

/// The line encoding of the serial trace output.
#[derive(Clone, Copy, Debug, PartialEq, Eq, Structural)]
pub enum SwoMode {
    /// Asynchronous serial, non-return-to-zero.
    Uart,
    /// Manchester encoding.
    Manchester,
}

impl SwoMode {
    /// The code that selects the encoding in a pin protocol register.
    pub open spec fn pin_protocol(self) -> u32 {
        match self {
            SwoMode::Manchester => 1,
            SwoMode::Uart => 2,
        }
    }
}

/// The configuration of a serial trace output.
#[derive(Clone, Copy, Debug, PartialEq, Eq, Structural)]
pub struct SwoConfig {
    /// The line encoding.
    pub mode: SwoMode,
    /// The baud rate of the output, in Hz.
    pub baud: u32,
    /// The clock that feeds the output, in Hz.
    pub tpiu_clk: u32,
    /// Whether the output keeps the formatter running.
    pub tpiu_continuous_formatting: bool,
}

impl SwoConfig {
    /// A configuration for the clock `tpiu_clk`: UART encoding at 1 MHz
    /// without continuous formatting.
    pub fn new(tpiu_clk: u32) -> (config: Self)
        ensures
            config == (SwoConfig {
                mode: SwoMode::Uart,
                baud: 1_000_000,
                tpiu_clk,
                tpiu_continuous_formatting: false,
            }),
    {
        SwoConfig {
            mode: SwoMode::Uart,
            baud: 1_000_000,
            tpiu_clk,
            tpiu_continuous_formatting: false,
        }
    }

    /// The configuration with the baud rate `baud`.
    pub fn set_baud(self, baud: u32) -> (config: Self)
        ensures
            config == (SwoConfig { baud, ..self }),
    {
        SwoConfig { baud, ..self }
    }

    /// The configuration with UART encoding.
    pub fn set_mode_uart(self) -> (config: Self)
        ensures
            config == (SwoConfig { mode: SwoMode::Uart, ..self }),
    {
        SwoConfig { mode: SwoMode::Uart, ..self }
    }

    /// The configuration with Manchester encoding.
    pub fn set_mode_manchester(self) -> (config: Self)
        ensures
            config == (SwoConfig { mode: SwoMode::Manchester, ..self }),
    {
        SwoConfig { mode: SwoMode::Manchester, ..self }
    }

    /// The configuration with continuous formatting switched on or off.
    pub fn set_continuous_formatting(self, enabled: bool) -> (config: Self)
        ensures
            config == (SwoConfig { tpiu_continuous_formatting: enabled, ..self }),
    {
        SwoConfig { tpiu_continuous_formatting: enabled, ..self }
    }

    /// The line encoding.
    pub fn mode(&self) -> (mode: SwoMode)
        ensures
            mode == self.mode,
    {
        self.mode
    }

    /// The baud rate of the output, in Hz.
    pub fn baud(&self) -> (baud: u32)
        ensures
            baud == self.baud,
    {
        self.baud
    }

    /// The clock that feeds the output, in Hz.
    pub fn tpiu_clk(&self) -> (tpiu_clk: u32)
        ensures
            tpiu_clk == self.tpiu_clk,
    {
        self.tpiu_clk
    }

    /// Whether the output keeps the formatter running.
    pub fn tpiu_continuous_formatting(&self) -> (enabled: bool)
        ensures
            enabled == self.tpiu_continuous_formatting,
    {
        self.tpiu_continuous_formatting
    }

    /// Whether the clock can be divided down to the baud rate: the baud rate
    /// is not zero and not above the clock.
    pub open spec fn spec_has_prescaler(&self) -> bool {
        0 < self.baud <= self.tpiu_clk
    }

    /// Whether the clock can be divided down to the baud rate.
    #[verifier::when_used_as_spec(spec_has_prescaler)]
    pub fn has_prescaler(&self) -> (has: bool)
        ensures
            has == self.spec_has_prescaler(),
    {
        0 < self.baud && self.baud <= self.tpiu_clk
    }

    /// The divider that brings the clock down to the baud rate, less one:
    /// `floor(tpiu_clk / baud) - 1`.
    pub open spec fn spec_prescaler(&self) -> int {
        self.tpiu_clk as int / self.baud as int - 1
    }

    /// The value of the prescaler register for this configuration.
    pub fn prescaler(&self) -> (prescaler: u32)
        requires
            self.has_prescaler(),
        ensures
            prescaler == self.spec_prescaler(),
    {
        let clock: u32 = self.tpiu_clk;
        let baud: u32 = self.baud;
        assert(clock as int / baud as int >= 1) by (nonlinear_arith)
            requires
                0 < baud <= clock,
        ;
        clock / baud - 1
    }

    /// The code of the line encoding in a pin protocol register.
    pub fn pin_protocol(&self) -> (code: u32)
        ensures
            code == self.mode.pin_protocol(),
    {
        match self.mode {
            SwoMode::Manchester => 1,
            SwoMode::Uart => 2,
        }
    }

    /// The formatter control word: trigger input enabled, and continuous
    /// formatting if the configuration asks for it.
    pub open spec fn spec_formatter(&self) -> u32 {
        if self.tpiu_continuous_formatting {
            0x102
        } else {
            0x100
        }
    }

    /// The formatter control word for this configuration.
    #[verifier::when_used_as_spec(spec_formatter)]
    pub fn formatter(&self) -> (word: u32)
        ensures
            word == self.spec_formatter(),
    {
        if self.tpiu_continuous_formatting {
            0x102
        } else {
            0x100
        }
    }
}

} // verus!
