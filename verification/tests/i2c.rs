use adi_adxl355::{
    Adxl355, Config, DeviceI2cAddress, Error, HpfCorner, I2cProtocol, Identified, Odr, Outcome,
    Range, Reply, Step, Transfer,
};

/// A simulated device on the 2-wire bus, which answers at one address.
struct Chip {
    address: u8,
    registers: [u8; 0x80],
    log: Vec<Transfer>,
}

impl Chip {
    fn new(address: u8) -> Chip {
        let mut registers = [0u8; 0x80];
        registers[0x02] = 0xED;
        registers[0x2C] = 0x82;
        registers[0x2D] = 0x01;
        registers[0x50..0x55].copy_from_slice(&[9, 8, 7, 6, 5]);
        Chip { address, registers, log: Vec::new() }
    }

    fn perform(&mut self, transfer: &Transfer) -> Reply<()> {
        self.log.push(transfer.clone());
        match transfer {
            Transfer::WriteRead { address, command, len } => {
                assert_eq!(*address, Some(self.address));
                let start = command[0] as usize;
                Reply::Data(self.registers[start..start + len].to_vec())
            }
            Transfer::Write { address, bytes } => {
                assert_eq!(*address, Some(self.address));
                let start = bytes[0] as usize;
                self.registers[start..start + bytes.len() - 1].copy_from_slice(&bytes[1..]);
                Reply::Written
            }
        }
    }
}

fn run(
    device: &mut Adxl355<I2cProtocol>,
    chip: &mut Chip,
    first: Step<()>,
) -> Result<Outcome, Error<()>> {
    let mut step = first;
    loop {
        match step {
            Step::Transfer(transfer) => {
                let reply = chip.perform(&transfer);
                assert!(device.accepts(&reply));
                step = device.resume(reply);
            }
            Step::Done(result) => return result,
        }
    }
}

fn construct(
    chip: &mut Chip,
    address: DeviceI2cAddress,
    config: Option<Config>,
) -> Result<Adxl355<I2cProtocol>, Error<()>> {
    let (mut identification, mut transfer) = match config {
        None => Adxl355::new_i2c(address),
        Some(config) => Adxl355::new_i2c_with_config(address, config),
    };
    loop {
        let reply = chip.perform(&transfer);
        assert!(identification.accepts(&reply));
        match identification.resume(reply) {
            Identified::Transfer(next, t) => {
                identification = next;
                transfer = t;
            }
            Identified::Ready(device, None) => return Ok(device),
            Identified::Ready(mut device, Some(step)) => {
                run(&mut device, chip, step)?;
                return Ok(device);
            }
            Identified::Failed(e) => return Err(e),
        }
    }
}

#[test]
fn i2c_construction_reads_the_part_id_the_shadow_registers_and_the_range() {
    let mut chip = Chip::new(0x53);
    let device = construct(&mut chip, DeviceI2cAddress::AselPinHigh, None).ok().unwrap();
    assert_eq!(device.protocol.address(), 0x53);
    assert_eq!(device.range(), Range::_4G);
    assert_eq!(
        chip.log,
        vec![
            Transfer::WriteRead { address: Some(0x53), command: vec![0x02], len: 1 },
            Transfer::WriteRead { address: Some(0x53), command: vec![0x50], len: 5 },
            Transfer::WriteRead { address: Some(0x53), command: vec![0x2C], len: 1 },
        ]
    );
}

#[test]
fn i2c_construction_fails_with_another_part_id() {
    let mut chip = Chip::new(0x1D);
    chip.registers[0x02] = 0xAD;
    let result = construct(&mut chip, DeviceI2cAddress::AselPinLow, None);
    assert!(matches!(result, Err(Error::BadDeviceId(0xAD))));
    assert_eq!(chip.log.len(), 1);
}

#[test]
fn i2c_construction_with_config_applies_it() {
    let mut chip = Chip::new(0x1D);
    let config = Config::new(Range::_2G, Odr::_2000Hz, HpfCorner::_6_2084);
    let device =
        construct(&mut chip, DeviceI2cAddress::AselPinLow, Some(config)).ok().unwrap();
    assert_eq!(device.protocol.address(), 0x1D);
    assert_eq!(device.range(), Range::_2G);
    assert_eq!(chip.registers[0x28], 0x21);
    assert_eq!(chip.registers[0x2C], 0x81);
    assert_eq!(
        chip.log[3..].to_vec(),
        vec![
            Transfer::Write { address: Some(0x1D), bytes: vec![0x2F, 0x52] },
            Transfer::WriteRead { address: Some(0x1D), command: vec![0x04], len: 1 },
            Transfer::WriteRead { address: Some(0x1D), command: vec![0x50], len: 5 },
            Transfer::WriteRead { address: Some(0x1D), command: vec![0x2D], len: 1 },
            Transfer::Write { address: Some(0x1D), bytes: vec![0x28, 0x21] },
            Transfer::WriteRead { address: Some(0x1D), command: vec![0x2C], len: 1 },
            Transfer::Write { address: Some(0x1D), bytes: vec![0x2C, 0x81] },
        ]
    );
}

#[test]
fn i2c_operations_use_plain_register_addresses() {
    let mut chip = Chip::new(0x1D);
    let mut device = construct(&mut chip, DeviceI2cAddress::AselPinLow, None).ok().unwrap();
    chip.log.clear();
    let step = device.set_offset_trims(-2, 3, 0x0405);
    assert_eq!(run(&mut device, &mut chip, step).ok(), Some(Outcome::Done));
    let step = device.get_offset_trims();
    assert_eq!(
        run(&mut device, &mut chip, step).ok(),
        Some(Outcome::OffsetTrims(-2, 3, 0x0405))
    );
    let step = device.set_standby_mode();
    run(&mut device, &mut chip, step).ok().unwrap();
    assert_eq!(
        chip.log,
        vec![
            Transfer::Write { address: Some(0x1D), bytes: vec![0x1E, 0xFF, 0xFE, 0x00, 0x03, 0x04, 0x05] },
            Transfer::WriteRead { address: Some(0x1D), command: vec![0x1E], len: 6 },
            Transfer::WriteRead { address: Some(0x1D), command: vec![0x2D], len: 1 },
            Transfer::Write { address: Some(0x1D), bytes: vec![0x2D, 0x01] },
        ]
    );
}
