use mpu6050::regs;

#[test]
fn protocol_constants_match_the_datasheet() {
    assert_eq!(regs::ADDR, 0xD0);
    assert_eq!(regs::DEFAULT_SLAVE_ADDR, 0x68);
}

#[test]
fn key_register_offsets_match_the_datasheet() {
    assert_eq!(regs::SMPLRT_DIV, 0x19);
    assert_eq!(regs::CONFIG, 0x1A);
    assert_eq!(regs::GYRO_CONFIG, 0x1B);
    assert_eq!(regs::ACCEL_CONFIG, 0x1C);
    assert_eq!(regs::FIFO_EN, 0x23);
    assert_eq!(regs::INT_ENABLE, 0x38);
    assert_eq!(regs::ACCEL_XOUT_H, 0x3B);
    assert_eq!(regs::TEMP_OUT_H, 0x41);
    assert_eq!(regs::GYRO_XOUT_H, 0x43);
    assert_eq!(regs::EXT_SENS_DATA_00, 0x49);
    assert_eq!(regs::USER_CTRL, 0x6A);
    assert_eq!(regs::PWR_MGMT_1, 0x6B);
    assert_eq!(regs::PWR_MGMT_2, 0x6C);
    assert_eq!(regs::FIFO_R_W, 0x74);
    assert_eq!(regs::WHO_AM_I, 0x75);
}
