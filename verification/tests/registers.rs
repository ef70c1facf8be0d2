use adi_adxl355::Register;

const ALL: [(Register, u8, bool); 41] = [
    (Register::DEVID_AD, 0x00, true),
    (Register::DEVID_MST, 0x01, true),
    (Register::PARTID, 0x02, true),
    (Register::REVID, 0x03, true),
    (Register::STATUS, 0x04, true),
    (Register::FIFO_ENTRIES, 0x05, true),
    (Register::TEMP2, 0x06, true),
    (Register::TEMP1, 0x07, true),
    (Register::XDATA3, 0x08, true),
    (Register::XDATA2, 0x09, true),
    (Register::XDATA1, 0x0A, true),
    (Register::YDATA3, 0x0B, true),
    (Register::YDATA2, 0x0C, true),
    (Register::YDATA1, 0x0D, true),
    (Register::ZDATA3, 0x0E, true),
    (Register::ZDATA2, 0x0F, true),
    (Register::ZDATA1, 0x10, true),
    (Register::FIFO_DATA, 0x11, true),
    (Register::OFFSET_X_H, 0x1E, false),
    (Register::OFFSET_X_L, 0x1F, false),
    (Register::OFFSET_Y_H, 0x20, false),
    (Register::OFFSET_Y_L, 0x21, false),
    (Register::OFFSET_Z_H, 0x22, false),
    (Register::OFFSET_Z_L, 0x23, false),
    (Register::ACT_EN, 0x24, false),
    (Register::ACT_THRESH_H, 0x25, false),
    (Register::ACT_THRESH_L, 0x26, false),
    (Register::ACT_COUNT, 0x27, false),
    (Register::FILTER, 0x28, false),
    (Register::FIFO_SAMPLES, 0x29, false),
    (Register::INT_MAP, 0x2A, false),
    (Register::SYNC, 0x2B, false),
    (Register::RANGE, 0x2C, false),
    (Register::POWER_CTL, 0x2D, false),
    (Register::SELF_TEST, 0x2E, false),
    (Register::RESET, 0x2F, false),
    (Register::SHADOW_REG1, 0x50, true),
    (Register::SHADOW_REG2, 0x51, true),
    (Register::SHADOW_REG3, 0x52, true),
    (Register::SHADOW_REG4, 0x53, true),
    (Register::SHADOW_REG5, 0x54, true),
];

#[test]
fn register_addresses_match_the_register_map() {
    for (register, addr, _) in ALL {
        assert_eq!(register.addr(), addr, "{:?}", register);
    }
}

#[test]
fn register_addresses_are_distinct() {
    for (i, (a, _, _)) in ALL.iter().enumerate() {
        for (j, (b, _, _)) in ALL.iter().enumerate() {
            assert_eq!(a.addr() == b.addr(), i == j);
            assert_eq!(a == b, i == j);
        }
    }
}

#[test]
fn read_only_registers_are_the_data_and_shadow_registers() {
    for (register, addr, read_only) in ALL {
        assert_eq!(register.read_only(), read_only, "{:?}", register);
        assert_eq!(register.read_only(), addr <= 0x11 || addr >= 0x50);
    }
}
