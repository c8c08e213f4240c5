use session_game::ids::{ActorId, MessageId};

#[test]
fn zero_identifiers_hold_zero_bytes() {
    assert_eq!(ActorId::zero().into_bytes(), [0u8; 32]);
    assert_eq!(MessageId::zero().into_bytes(), [0u8; 32]);
}

#[test]
fn identifiers_keep_their_bytes() {
    let mut bytes = [0u8; 32];
    for (i, byte) in bytes.iter_mut().enumerate() {
        *byte = i as u8;
    }
    assert_eq!(ActorId::new(bytes).into_bytes(), bytes);
    assert_eq!(MessageId::new(bytes).into_bytes(), bytes);
}

#[test]
fn identifiers_are_equal_when_all_bytes_are() {
    let base = [5u8; 32];
    assert_eq!(ActorId::new(base), ActorId::new(base));
    assert_eq!(MessageId::new(base), MessageId::new(base));
    for position in [0usize, 1, 15, 30, 31] {
        let mut other = base;
        other[position] = 6;
        assert_ne!(ActorId::new(base), ActorId::new(other));
        assert_ne!(MessageId::new(base), MessageId::new(other));
    }
    assert_ne!(ActorId::zero(), ActorId::new(base));
    assert_eq!(MessageId::zero(), MessageId::new([0u8; 32]));
}
