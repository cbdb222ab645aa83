use communityvi::sequence::{AtomicSequence, ClientId, ClientIdSequence};

#[test]
fn atomic_sequence_should_count() {
    let mut sequence = AtomicSequence::default();
    assert_eq!(0, sequence.next());
    assert_eq!(1, sequence.next());
    assert_eq!(2, sequence.next());
    assert_eq!(3, sequence.next());
    assert_eq!(4, sequence.next());
}

#[test]
fn client_id_sequence_hands_out_successive_ids() {
    let mut sequence = ClientIdSequence::default();
    assert_eq!(ClientId::from(0), sequence.next());
    assert_eq!(ClientId::from(1), sequence.next());
    let id: u64 = sequence.next().into();
    assert_eq!(2, id);
}

#[test]
fn client_id_is_shown_with_its_number() {
    assert_eq!("ClientId(0)", ClientId::from(0).to_display_string());
    assert_eq!("ClientId(1337)", ClientId::from(1337).to_display_string());
    assert_eq!("ClientId(18446744073709551615)", ClientId::from(u64::MAX).to_display_string());
}
