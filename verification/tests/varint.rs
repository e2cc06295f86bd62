use deepspace_quic::varint::VARINT_MAX;

#[test]
fn varint_max_is_two_to_the_62_minus_one() {
    assert_eq!(VARINT_MAX, (1u64 << 62) - 1);
    assert_eq!(VARINT_MAX, quinn_proto::VarInt::MAX.into_inner());
}
