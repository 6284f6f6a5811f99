use pcf8591::{Pin, Reply, Request, Step, PCF8591};

/// A chip as the data sheet describes it: a read returns the conversion
/// that the read before it started, and starts one of the input that the
/// control byte names.
struct SimulatedChip {
    inputs: [u8; 4],
    control: u8,
    held: u8,
    output: u8,
    transactions: usize,
}

impl SimulatedChip {
    fn with_inputs(inputs: [u8; 4]) -> SimulatedChip {
        SimulatedChip { inputs, control: 0, held: 0x80, output: 0, transactions: 0 }
    }

    fn perform(&mut self, request: Request) -> Reply<String> {
        self.transactions += 1;
        match request {
            Request::WriteByte(control) => {
                self.control = control;
                Reply::Written
            }
            Request::WriteBuffer(control, value) => {
                self.control = control;
                self.output = value;
                Reply::Written
            }
            Request::ReadByte => {
                let byte = self.held;
                self.held = self.inputs[usize::from(self.control & 0x03)];
                Reply::Byte(byte)
            }
        }
    }
}

fn on_chip(inputs: [u8; 4]) -> PCF8591<SimulatedChip> {
    match PCF8591::new(Ok::<SimulatedChip, String>(SimulatedChip::with_inputs(inputs))) {
        Ok(session) => session,
        Err(error) => panic!("{}", error),
    }
}

fn run(session: &mut PCF8591<SimulatedChip>, first: Request) -> Step<String> {
    let mut request = first;
    loop {
        let reply = session.connection().perform(request);
        match session.advance(reply) {
            Step::Issue(next) => request = next,
            other => return other,
        }
    }
}

fn read(session: &mut PCF8591<SimulatedChip>, pin: Pin) -> u8 {
    let first = session.analog_read_byte(pin);
    match run(session, first) {
        Step::Sampled(byte) => byte,
        other => panic!("a read ended with {:?}", other),
    }
}

fn write(session: &mut PCF8591<SimulatedChip>, value: u8) {
    let first = session.analog_write_byte(value);
    match run(session, first) {
        Step::Written => (),
        other => panic!("a write ended with {:?}", other),
    }
}

#[test]
fn every_read_returns_the_input_asked_for() {
    let inputs = [10, 20, 30, 40];
    let order = [
        Pin::AIN2,
        Pin::AIN2,
        Pin::AIN0,
        Pin::AIN3,
        Pin::AIN3,
        Pin::AIN3,
        Pin::AIN1,
        Pin::AIN0,
        Pin::AIN0,
        Pin::AIN2,
    ];
    let mut session = on_chip(inputs);
    for pin in order {
        let expected = match pin {
            Pin::AIN0 => 10,
            Pin::AIN1 => 20,
            Pin::AIN2 => 30,
            Pin::AIN3 => 40,
        };
        assert_eq!(read(&mut session, pin), expected);
    }
}

#[test]
fn reads_around_writes_return_the_input_asked_for() {
    let mut session = on_chip([1, 2, 3, 4]);
    assert_eq!(read(&mut session, Pin::AIN3), 4);
    write(&mut session, 0xC8);
    assert_eq!(session.connection().output, 0xC8);
    assert_eq!(read(&mut session, Pin::AIN3), 4);
    write(&mut session, 0x01);
    assert_eq!(read(&mut session, Pin::AIN0), 1);
    assert_eq!(read(&mut session, Pin::AIN1), 2);
    assert_eq!(session.connection().output, 0x01);
}

#[test]
fn polling_one_input_costs_one_transaction_a_read() {
    let mut session = on_chip([9, 9, 9, 9]);
    assert_eq!(read(&mut session, Pin::AIN1), 9);
    assert_eq!(session.connection().transactions, 3);
    for _ in 0..100 {
        assert_eq!(read(&mut session, Pin::AIN1), 9);
    }
    assert_eq!(session.connection().transactions, 103);
}

#[test]
fn input_that_changes_is_seen_one_read_later() {
    let mut session = on_chip([0, 0, 0, 0]);
    assert_eq!(read(&mut session, Pin::AIN0), 0);
    session.connection().inputs[0] = 200;
    assert_eq!(read(&mut session, Pin::AIN0), 0);
    assert_eq!(read(&mut session, Pin::AIN0), 200);
}
