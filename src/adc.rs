use vstd::prelude::*;

use crate::poll::ReadOutcome;
use crate::types::{Address, Channel};

verus! {

/// The ADS1x1x driver from ads1x1x, held as an opaque value.
#[verifier::external_type_specification]
#[verifier::external_body]
#[verifier::reject_recursive_types(I2C)]
#[verifier::reject_recursive_types(IC)]
#[verifier::reject_recursive_types(CONV)]
#[verifier::reject_recursive_types(MODE)]
pub struct ExAds1x1x<I2C, IC, CONV, MODE>(ads1x1x::Ads1x1x<I2C, IC, CONV, MODE>);

/// The marker types that select the ADS1115 in one-shot mode.
#[verifier::external_type_specification]
#[verifier::external_body]
pub struct ExAds1115(ads1x1x::ic::Ads1115);

#[verifier::external_type_specification]
#[verifier::external_body]
pub struct ExResolution16Bit(ads1x1x::ic::Resolution16Bit);

#[verifier::external_type_specification]
#[verifier::external_body]
pub struct ExOneShot(ads1x1x::mode::OneShot);

/// An ADS1115 driver in one-shot mode over the bus handle `I2C`.
pub type Adc<I2C> = ads1x1x::Ads1x1x<
    I2C,
    ads1x1x::ic::Ads1115,
    ads1x1x::ic::Resolution16Bit,
    ads1x1x::mode::OneShot,
>;

/// Relies on ads1x1x::Ads1x1x::new_ads1115: takes the bus handle and the
/// device's address pin wiring; it performs no bus traffic.
#[verifier::external_body]
pub(crate) fn new_ads1115<I2C>(i2c: I2C, address: Address) -> Adc<I2C> where
    I2C: embedded_hal::i2c::I2c,
 {
    let target = match address {
        Address::X48 => ads1x1x::TargetAddr::Gnd,
        Address::X49 => ads1x1x::TargetAddr::Vdd,
        Address::X4A => ads1x1x::TargetAddr::Sda,
        Address::X4B => ads1x1x::TargetAddr::Scl,
    };
    ads1x1x::Ads1x1x::new_ads1115(i2c, target)
}

/// Relies on ads1x1x::Ads1x1x::set_full_scale_range with the ±4.096 V
/// setting: one configuration write; `false` where the bus refused it.
#[verifier::external_body]
pub(crate) fn set_full_scale_4v<I2C>(adc: &mut Adc<I2C>) -> bool where
    I2C: embedded_hal::i2c::I2c,
 {
    match adc.set_full_scale_range(ads1x1x::FullScaleRange::Within4_096V) {
        Ok(()) => true,
        Err(_) => false,
    }
}

/// Relies on ads1x1x::Ads1x1x::read on the single-ended input of `channel`:
/// `Ok` carries the sample, `WouldBlock` means the conversion is not done
/// yet, `Other` carries the bus error.
#[verifier::external_body]
pub(crate) fn read_once<I2C>(adc: &mut Adc<I2C>, channel: Channel) -> ReadOutcome where
    I2C: embedded_hal::i2c::I2c,
 {
    let r = match channel {
        Channel::A0 => adc.read(ads1x1x::channel::SingleA0),
        Channel::A1 => adc.read(ads1x1x::channel::SingleA1),
        Channel::A2 => adc.read(ads1x1x::channel::SingleA2),
        Channel::A3 => adc.read(ads1x1x::channel::SingleA3),
    };
    match r {
        Ok(v) => ReadOutcome::Sample(v),
        Err(nb::Error::WouldBlock) => ReadOutcome::Busy,
        Err(nb::Error::Other(_)) => ReadOutcome::Failed,
    }
}

/// Relies on ads1x1x::Ads1x1x::destroy_ads1115: hands the bus handle back.
#[verifier::external_body]
pub(crate) fn destroy_ads1115<I2C>(adc: Adc<I2C>) -> I2C {
    adc.destroy_ads1115()
}

} // verus!
