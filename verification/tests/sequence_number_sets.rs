use dust_dds::sequence_number_set::{SequenceNumberSet, SequenceNumberSetIterator};
use dust_dds::types::SequenceNumber;

#[test]
fn sequence_number_set_iterator() {
    let mut sequence_number_iterator = SequenceNumberSetIterator {
        set: SequenceNumberSet {
            base: SequenceNumber::from_i64(1234),
            bitmap: [3, 1, 0, 0, 0, 0, 0, 1],
        },
        index: 0,
    };

    assert_eq!(
        sequence_number_iterator.next().unwrap(),
        SequenceNumber::from_i64(1234)
    );
    assert_eq!(
        sequence_number_iterator.next().unwrap(),
        SequenceNumber::from_i64(1235)
    );
    assert_eq!(
        sequence_number_iterator.next().unwrap(),
        SequenceNumber::from_i64(1266)
    );
    assert_eq!(
        sequence_number_iterator.next().unwrap(),
        SequenceNumber::from_i64(1458)
    );
    assert_eq!(sequence_number_iterator.next(), None);
    assert_eq!(sequence_number_iterator.next(), None);
}

#[test]
fn sequence_number_set_from_iterator() {
    let sequence_numbers: [SequenceNumber; 3] = [
        SequenceNumber::from_i64(2),
        SequenceNumber::from_i64(4),
        SequenceNumber::from_i64(66),
    ];
    let sequence_number_set = SequenceNumberSet::from_slice(&sequence_numbers);
    assert_eq!(sequence_number_set.base, SequenceNumber::from_i64(2));
    assert_eq!(sequence_number_set.bitmap[0], 5);
    assert_eq!(sequence_number_set.bitmap[1], 0);
    assert_eq!(sequence_number_set.bitmap[2], 1);
}

#[test]
fn sequence_number_set_from_empty_iterator() {
    let sequence_numbers: [SequenceNumber; 0] = [];
    let sequence_number_set = SequenceNumberSet::from_slice(&sequence_numbers);
    assert_eq!(sequence_number_set.base, SequenceNumber::from_i64(0));
    assert_eq!(sequence_number_set.bitmap[0], 0);
    assert_eq!(sequence_number_set.bitmap[1], 0);
    assert_eq!(sequence_number_set.bitmap[2], 0);
}

#[test]
fn sequence_number_value_round_trip() {
    let sn = SequenceNumber::from_i64(-5_000_000_001);
    assert_eq!(sn.as_i64(), -5_000_000_001);
    let sn2 = SequenceNumber { high: 2, low: 7 };
    assert_eq!(sn2.as_i64(), 2 * 0x1_0000_0000 + 7);
}
