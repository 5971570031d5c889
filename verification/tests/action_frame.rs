use nexus::rl::actions::hybrid_action_space::{ActionFrame, OrderType, TradeSide};

#[test]
fn test_encode_decode() {
    let original = ActionFrame {
        side: TradeSide::Sell,
        order_type: OrderType::PostOnly,
        price_offset_bytes: 10i16.to_ne_bytes(),
        size_fraction_bytes: 0.25f32.to_ne_bytes(),
        asset_idx: 3,
    };

    let encoded = original.encode();
    let decoded = ActionFrame::decode(&encoded).unwrap();

    assert_eq!(original.side, decoded.side);
    assert_eq!(original.order_type, decoded.order_type);
    assert_eq!(i16::from_ne_bytes(decoded.price_offset_bytes), 10);
    let size = f32::from_ne_bytes(decoded.size_fraction_bytes);
    assert!((0.25f32 - size).abs() < 1e-6);
    assert_eq!(original.asset_idx, decoded.asset_idx);
}

#[test]
fn encoded_layout_is_fixed() {
    let frame = ActionFrame {
        side: TradeSide::Hold,
        order_type: OrderType::FOK,
        price_offset_bytes: [0xAB, 0xCD],
        size_fraction_bytes: [1, 2, 3, 4],
        asset_idx: 9,
    };
    assert_eq!(frame.encode(), [2, 4, 0xAB, 0xCD, 1, 2, 3, 4, 9, 0, 0, 0, 0, 0, 0, 0]);
}

#[test]
fn unknown_codes_do_not_decode() {
    let mut buf = [0u8; 16];
    assert!(ActionFrame::decode(&buf).is_some());
    buf[0] = 3;
    assert_eq!(ActionFrame::decode(&buf), None);
    buf[0] = 1;
    buf[1] = 5;
    assert_eq!(ActionFrame::decode(&buf), None);
}

#[test]
fn reserved_bytes_are_ignored_and_cleared() {
    let mut buf = [0u8; 16];
    buf[0] = 1;
    buf[1] = 1;
    buf[8] = 7;
    buf[15] = 0xFF;
    let frame = ActionFrame::decode(&buf).unwrap();
    assert_eq!(frame.side, TradeSide::Sell);
    assert_eq!(frame.order_type, OrderType::Limit);
    assert_eq!(frame.asset_idx, 7);
    let again = frame.encode();
    assert_eq!(&again[..15], &buf[..15]);
    assert_eq!(again[15], 0);
}
