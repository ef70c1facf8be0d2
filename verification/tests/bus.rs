use adi_adxl355::{
    DeviceI2cAddress, I2cProtocol, Protocol, Register, Request, SpiProtocol, Transfer,
};

#[test]
fn spi_read_has_the_address_shifted_and_the_read_bit_set() {
    let spi = SpiProtocol;
    assert_eq!(
        spi.read_register(Register::STATUS),
        Transfer::WriteRead { address: None, command: vec![0x09], len: 1 }
    );
    assert_eq!(
        spi.read_register(Register::PARTID),
        Transfer::WriteRead { address: None, command: vec![0x05], len: 1 }
    );
    assert_eq!(
        spi.read_multiple_registers(Register::XDATA3, 9),
        Transfer::WriteRead { address: None, command: vec![0x11], len: 9 }
    );
    assert_eq!(
        spi.read_multiple_registers(Register::SHADOW_REG1, 5),
        Transfer::WriteRead { address: None, command: vec![0xA1], len: 5 }
    );
}

#[test]
fn spi_write_has_the_address_shifted_and_the_read_bit_clear() {
    let spi = SpiProtocol;
    assert_eq!(
        spi.write_register(Register::RESET, 0x52),
        Transfer::Write { address: None, bytes: vec![0x5E, 0x52] }
    );
    assert_eq!(
        spi.write_register(Register::FILTER, 0x35),
        Transfer::Write { address: None, bytes: vec![0x50, 0x35] }
    );
}

#[test]
fn spi_multiple_write_shifts_the_leading_address_in_place() {
    let spi = SpiProtocol;
    let mut buf = vec![0x1E, 1, 2, 3, 4, 5, 6];
    let transfer = spi.write_multiple_registers(&mut buf);
    assert_eq!(buf, vec![0x3C, 1, 2, 3, 4, 5, 6]);
    assert_eq!(transfer, Transfer::Write { address: None, bytes: vec![0x3C, 1, 2, 3, 4, 5, 6] });

    let mut buf = vec![0x25];
    let transfer = spi.write_multiple_registers(&mut buf);
    assert_eq!(buf, vec![0x4A]);
    assert_eq!(transfer, Transfer::Write { address: None, bytes: vec![0x4A] });

    let mut buf = vec![0xC1, 9];
    spi.write_multiple_registers(&mut buf);
    assert_eq!(buf, vec![0x82, 9]);
}

#[test]
fn i2c_read_writes_the_address_then_reads() {
    let i2c = I2cProtocol::new(DeviceI2cAddress::AselPinLow);
    assert_eq!(i2c.address(), 0x1D);
    assert_eq!(
        i2c.read_register(Register::STATUS),
        Transfer::WriteRead { address: Some(0x1D), command: vec![0x04], len: 1 }
    );
    assert_eq!(
        i2c.read_multiple_registers(Register::FIFO_DATA, 3),
        Transfer::WriteRead { address: Some(0x1D), command: vec![0x11], len: 3 }
    );
    assert_eq!(I2cProtocol::new(DeviceI2cAddress::AselPinHigh).address(), 0x53);
}

#[test]
fn i2c_write_is_the_address_and_the_payload() {
    let i2c = I2cProtocol::new(DeviceI2cAddress::AselPinHigh);
    assert_eq!(
        i2c.write_register(Register::RESET, 0x52),
        Transfer::Write { address: Some(0x53), bytes: vec![0x2F, 0x52] }
    );
    let mut buf = vec![0x1E, 1, 2, 3, 4, 5, 6];
    let transfer = i2c.write_multiple_registers(&mut buf);
    assert_eq!(buf, vec![0x1E, 1, 2, 3, 4, 5, 6]);
    assert_eq!(transfer, Transfer::Write { address: Some(0x53), bytes: vec![0x1E, 1, 2, 3, 4, 5, 6] });
}

#[test]
fn requests_are_framed_by_the_protocol() {
    let spi = SpiProtocol;
    let i2c = I2cProtocol::new(DeviceI2cAddress::AselPinLow);
    assert_eq!(
        Request::read(Register::TEMP2, 2).frame(&spi),
        Transfer::WriteRead { address: None, command: vec![0x0D], len: 2 }
    );
    assert_eq!(
        Request::read(Register::TEMP2, 2).frame(&i2c),
        Transfer::WriteRead { address: Some(0x1D), command: vec![0x06], len: 2 }
    );
    assert_eq!(
        Request::read(Register::REVID, 1).frame(&spi),
        Transfer::WriteRead { address: None, command: vec![0x07], len: 1 }
    );
    assert_eq!(
        Request::write(Register::SYNC, 0x05).frame(&spi),
        Transfer::Write { address: None, bytes: vec![0x56, 0x05] }
    );
    assert_eq!(
        Request::write(Register::SYNC, 0x05).frame(&i2c),
        Transfer::Write { address: Some(0x1D), bytes: vec![0x2B, 0x05] }
    );
    assert_eq!(
        Request::write_many(Register::ACT_THRESH_H, vec![0xBE, 0xEF]).frame(&spi),
        Transfer::Write { address: None, bytes: vec![0x4A, 0xBE, 0xEF] }
    );
    assert_eq!(
        Request::write_many(Register::ACT_THRESH_H, vec![0xBE, 0xEF]).frame(&i2c),
        Transfer::Write { address: Some(0x1D), bytes: vec![0x25, 0xBE, 0xEF] }
    );
    assert_eq!(
        Request::write_many(Register::ACT_EN, vec![]).frame(&i2c),
        Transfer::Write { address: Some(0x1D), bytes: vec![0x24] }
    );
    assert_eq!(
        Request::write_many(Register::ACT_EN, vec![7]).frame(&spi),
        Transfer::Write { address: None, bytes: vec![0x48, 7] }
    );
}
