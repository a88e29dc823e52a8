use embedded_hal::i2c::{ErrorKind, ErrorType, I2c, Operation, SevenBitAddress};
use knobz::{Address, Change, Channel, ConfigError, Knobz};

/// A bus with one ADS1115 on it: the configuration register reports a busy
/// converter for the first `busy_reads` reads and an idle one after that,
/// the conversion register holds `conversion`, and only the first
/// `writes_allowed` register writes are accepted.
struct FakeBus {
    conversion: i16,
    busy_reads: usize,
    writes_allowed: usize,
    writes: usize,
    transactions: usize,
    pointer: u8,
    last_address: u8,
}

impl FakeBus {
    fn new(conversion: i16, writes_allowed: usize) -> FakeBus {
        FakeBus { conversion, busy_reads: 0, writes_allowed, writes: 0, transactions: 0, pointer: 0, last_address: 0 }
    }
}

impl ErrorType for FakeBus {
    type Error = ErrorKind;
}

impl I2c<SevenBitAddress> for FakeBus {
    fn transaction(
        &mut self,
        address: SevenBitAddress,
        operations: &mut [Operation<'_>],
    ) -> Result<(), ErrorKind> {
        self.transactions += 1;
        self.last_address = address;
        for op in operations.iter_mut() {
            match op {
                Operation::Write(bytes) => {
                    self.pointer = bytes[0];
                    if bytes.len() > 1 {
                        if self.writes >= self.writes_allowed {
                            return Err(ErrorKind::Other);
                        }
                        self.writes += 1;
                    }
                }
                Operation::Read(buf) => {
                    let word: u16 = if self.pointer == 0 {
                        self.conversion as u16
                    } else if self.busy_reads > 0 {
                        self.busy_reads -= 1;
                        0x0583
                    } else {
                        0x8583
                    };
                    buf[0] = (word >> 8) as u8;
                    buf[1] = word as u8;
                }
            }
        }
        Ok(())
    }
}

#[test]
fn construction_fails_when_bus_refuses_configuration() {
    let r = Knobz::new(FakeBus::new(0, 0), Address::X48);
    assert!(matches!(r, Err(ConfigError::I2C)));
}

#[test]
fn construction_sets_defaults_and_phase() {
    let k = Knobz::new(FakeBus::new(0, 10), Address::X4A).ok().unwrap();
    assert_eq!(k.timer_us(), 500);
    assert_eq!(k.current_channel(), Channel::A0);
    assert_eq!(k.value(Channel::A2), 0);
    let bus = k.destroy();
    assert_eq!(bus.writes, 1);
    assert_eq!(bus.last_address, 0x4A);
}

#[test]
fn no_bus_traffic_below_interval() {
    let mut k = Knobz::new(FakeBus::new(0, 10), Address::X48).ok().unwrap();
    assert!(k.update(400).is_none());
    assert!(k.update(599).is_none());
    assert_eq!(k.timer_us(), 999);
    assert_eq!(k.current_channel(), Channel::A0);
    let bus = k.destroy();
    assert_eq!(bus.transactions, 1);
}

#[test]
fn phase_offset_triggers_first_sample() {
    let mut k = Knobz::new(FakeBus::new(5000, 10), Address::X49).ok().unwrap();
    assert_eq!(k.update(800), Some(Change { channel: Channel::A0, value: 200 }));
    assert_eq!(k.timer_us(), 0);
    assert_eq!(k.current_channel(), Channel::A1);
    let bus = k.destroy();
    assert!(bus.transactions > 1);
    assert_eq!(bus.last_address, 0x49);
}

#[test]
fn cycle_continues_through_failed_reads() {
    let mut k = Knobz::new(FakeBus::new(5000, 1), Address::X48).ok().unwrap();
    let order = [Channel::A1, Channel::A2, Channel::A3, Channel::A0, Channel::A1];
    for ch in order {
        assert!(k.update(1000).is_none());
        assert_eq!(k.current_channel(), ch);
        assert_eq!(k.value(Channel::A0), 0);
    }
}

#[test]
fn same_reading_twice_reports_once() {
    let mut k = Knobz::new(FakeBus::new(5000, 100), Address::X48).ok().unwrap();
    assert_eq!(k.update(1000), Some(Change { channel: Channel::A0, value: 200 }));
    assert_eq!(k.value(Channel::A0), 200);
    for ch in [Channel::A1, Channel::A2, Channel::A3] {
        assert_eq!(k.update(1000), Some(Change { channel: ch, value: 200 }));
    }
    assert!(k.update(1000).is_none());
    assert_eq!(k.value(Channel::A0), 200);
    assert_eq!(k.current_channel(), Channel::A1);
}

#[test]
fn negative_reading_stores_scaled_zero() {
    let mut k = Knobz::new(FakeBus::new(-50, 100), Address::X48).ok().unwrap();
    k.set_invert_channel(Channel::A0, true);
    assert_eq!(k.update(1000), Some(Change { channel: Channel::A0, value: 1023 }));
    assert!(k.update(1000).is_none());
    assert_eq!(k.value(Channel::A1), 0);
}

#[test]
fn inverted_channel_reports_complement() {
    let mut k = Knobz::new(FakeBus::new(5000, 100), Address::X48).ok().unwrap();
    k.set_invert_channel(Channel::A0, true);
    k.set_channel_range(Channel::A0, knobz::Range::Within255);
    assert_eq!(k.update(1000), Some(Change { channel: Channel::A0, value: 207 }));
}

#[test]
fn waits_for_a_busy_conversion() {
    let mut bus = FakeBus::new(5000, 100);
    bus.busy_reads = 5;
    let mut k = Knobz::new(bus, Address::X48).ok().unwrap();
    assert_eq!(k.update(1000), Some(Change { channel: Channel::A0, value: 200 }));
    let bus = k.destroy();
    assert_eq!(bus.busy_reads, 0);
    assert!(bus.transactions > 6);
}

#[test]
fn conversion_that_never_finishes_counts_as_failed() {
    let mut bus = FakeBus::new(5000, 100);
    bus.busy_reads = usize::MAX;
    let mut k = Knobz::new(bus, Address::X48).ok().unwrap();
    assert!(k.update(1000).is_none());
    assert_eq!(k.current_channel(), Channel::A1);
    assert_eq!(k.value(Channel::A0), 0);
}
