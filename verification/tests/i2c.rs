use i2cdev::mock::MockI2CDevice;
use pcf8591::{Pin, Reply, Request, Step, PCF8591};

fn perform<D: i2cdev::core::I2CDevice>(device: &mut D, request: Request) -> Reply<D::Error> {
    match request {
        Request::WriteByte(byte) => Reply::from_write(device.smbus_write_byte(byte)),
        Request::ReadByte => Reply::from_read(device.smbus_read_byte()),
        Request::WriteBuffer(selector, value) => Reply::from_write(device.write(&[selector, value])),
    }
}

fn carry_out<D: i2cdev::core::I2CDevice>(session: &mut PCF8591<D>, first: Request) -> Step<D::Error> {
    let mut request = first;
    loop {
        let reply = perform(session.connection(), request);
        match session.advance(reply) {
            Step::Issue(next) => request = next,
            end => return end,
        }
    }
}

fn read<D: i2cdev::core::I2CDevice>(session: &mut PCF8591<D>, pin: Pin) -> Result<u8, D::Error> {
    let first = session.analog_read_byte(pin);
    match carry_out(session, first) {
        Step::Sampled(byte) => Ok(byte),
        Step::Failed(error) => Err(error),
        other => panic!("a read ended with {:?}", other),
    }
}

fn write<D: i2cdev::core::I2CDevice>(session: &mut PCF8591<D>, value: u8) -> Result<(), D::Error> {
    let first = session.analog_write_byte(value);
    match carry_out(session, first) {
        Step::Written => Ok(()),
        Step::Failed(error) => Err(error),
        other => panic!("a write ended with {:?}", other),
    }
}

/// A register map in which the register that a control byte addresses
/// holds the value of the input that the control byte selects.
fn device_with_inputs(inputs: [u8; 4]) -> MockI2CDevice {
    let mut device = MockI2CDevice::new();
    device.regmap.write_regs(0x40, &inputs);
    device
}

fn session_on(device: MockI2CDevice) -> PCF8591<MockI2CDevice> {
    match PCF8591::new(Ok::<MockI2CDevice, std::io::Error>(device)) {
        Ok(session) => session,
        Err(error) => panic!("{}", error),
    }
}

#[test]
fn register_map_device_is_read_pin_by_pin() {
    let mut session = session_on(device_with_inputs([11, 22, 33, 44]));
    assert_eq!(read(&mut session, Pin::AIN1).ok(), Some(22));
    assert_eq!(read(&mut session, Pin::AIN1).ok(), Some(22));
    assert_eq!(read(&mut session, Pin::AIN3).ok(), Some(44));
    assert_eq!(read(&mut session, Pin::AIN0).ok(), Some(11));
    assert_eq!(read(&mut session, Pin::AIN2).ok(), Some(33));
    assert_eq!(session.selected(), Some(Pin::AIN2));
}

#[test]
fn register_map_device_takes_the_output_at_the_selector() {
    let mut session = session_on(device_with_inputs([11, 22, 33, 44]));
    assert_eq!(read(&mut session, Pin::AIN2).ok(), Some(33));
    assert_eq!(write(&mut session, 0xC3).ok(), Some(()));
    assert_eq!(session.selected(), None);
    // The two-byte write stored its value at register 0x40 and left the
    // read position behind it; the read moves the position back.
    assert_eq!(read(&mut session, Pin::AIN0).ok(), Some(0xC3));
    assert_eq!(read(&mut session, Pin::AIN1).ok(), Some(22));
}

#[test]
fn cached_read_follows_the_device_without_a_new_select() {
    let mut session = session_on(device_with_inputs([1, 2, 3, 4]));
    assert_eq!(read(&mut session, Pin::AIN3).ok(), Some(4));
    session.connection().regmap.write_regs(0x43, &[99]);
    assert_eq!(session.analog_read_byte(Pin::AIN3), Request::ReadByte);
    let reply = perform(session.connection(), Request::ReadByte);
    match session.advance(reply) {
        Step::Sampled(byte) => assert_eq!(byte, 99),
        other => panic!("a read ended with {:?}", other),
    }
}
