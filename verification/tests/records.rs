use strain_gauge::record::LogRecord;
use strain_gauge::record::pack;
use strain_gauge::record::unpack;

#[test]
fn nominal_record_bytes() {
    // 600 = 0x0258 and 300 = 0x012C, each little-endian
    let r = pack(600, 300);
    assert_eq!(r.to_bytes(), [0x58, 0x02, 0x2C, 0x01]);
}

#[test]
fn round_trip_nominal() {
    assert_eq!(unpack(&pack(600, 300)), (600, 300));
}

#[test]
fn round_trip_edges() {
    assert_eq!(unpack(&pack(0, 0)), (0, 0));
    assert_eq!(unpack(&pack(65535, 65535)), (65535, 65535));
    assert_eq!(unpack(&pack(0, 65535)), (0, 65535));
    assert_eq!(unpack(&pack(255, 256)), (255, 256));
    assert_eq!(unpack(&pack(1, 0x0100)), (1, 0x0100));
}

#[test]
fn unpack_reads_little_endian() {
    let r = LogRecord { b0: 0x34, b1: 0x12, b2: 0x78, b3: 0x56 };
    assert_eq!(unpack(&r), (0x1234, 0x5678));
}
