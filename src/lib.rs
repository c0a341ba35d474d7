//! Hardware abstraction logic for PY32 microcontrollers: clock-tree
//! resolution, reference-counted peripheral clocks, flash programming
//! rules, tick-driven time sources and the USB device controller.
use vstd::prelude::*;

pub mod adc;
pub mod external;
pub mod flash;
pub mod flash_sequence;
pub mod mode;
pub mod queue_time_driver;
pub mod rcc;
pub mod systick_time_driver;
pub mod usb;

verus! {

/// Global configuration.
#[derive(Clone, Copy, Debug, PartialEq, Eq, Structural)]
pub struct Config {
    /// Clock tree configuration.
    pub rcc: rcc::Config,
}

impl Default for Config {
    fn default() -> (r: Self)
        ensures
            r.rcc == (rcc::Config {
                hsi: Some(rcc::HsiFs::HSI_8MHZ),
                hsidiv: rcc::Hsidiv::DIV1,
                hse: None,
                sys: rcc::Sysclk::HSI,
                pll: None,
                ahb_pre: rcc::AHBPrescaler::DIV1,
                apb1_pre: rcc::APBPrescaler::DIV1,
            }),
    {
        Config { rcc: rcc::Config::default() }
    }
}

} // verus!
