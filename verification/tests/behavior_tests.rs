use dust_dds::codec::{decode_acknack, decode_gap, decode_header, decode_heartbeat,
    decode_info_timestamp, deserialize_key, encode_acknack, encode_gap, encode_header,
    encode_heartbeat, encode_info_timestamp, get_instance_handle_from_key, serialize_key};
use dust_dds::history_cache::{CacheChange, HistoryCache};
use dust_dds::messages::{AckNackSubmessage, DataSubmessage, EntityIdSubmessageElement,
    GapSubmessage, HeartbeatSubmessage, InfoTimestampSubmessage, ParameterListSubmessageElement,
    RtpsMessageHeader, SequenceNumberSubmessageElement, SerializedDataSubmessageElement};
use dust_dds::qos::{HistoryQosPolicyKind, LengthKind};
use dust_dds::reader::{BestEffortReaderBehavior, BestEffortStatelessReaderBehavior, WriterProxy};
use dust_dds::sequence_number_set::SequenceNumberSet;
use dust_dds::types::{entityid_unknown, ChangeKind, Count, EntityId, GuidPrefix, InstanceHandle,
    ProtocolVersion, SequenceNumber, Time, TopicKind, VendorId, GUID};
use dust_dds::writer::{ReaderProxy, StatefulWriter};

fn data_submessage(sn: i64, payload: &[u8]) -> DataSubmessage<'_> {
    DataSubmessage {
        endianness_flag: true,
        inline_qos_flag: true,
        data_flag: true,
        key_flag: false,
        non_standard_payload_flag: false,
        reader_id: EntityIdSubmessageElement {
            value: entityid_unknown(),
        },
        writer_id: EntityIdSubmessageElement {
            value: entityid_unknown(),
        },
        writer_sn: SequenceNumberSubmessageElement {
            value: SequenceNumber::from_i64(sn),
        },
        inline_qos: ParameterListSubmessageElement { parameter: vec![] },
        serialized_payload: SerializedDataSubmessageElement { value: payload },
    }
}

#[test]
fn best_effort_stateless_reader_receive_data() {
    let mut reader_cache = HistoryCache::new(HistoryQosPolicyKind::KeepAll, LengthKind::Unlimited);
    let source_guid_prefix = GuidPrefix([1; 12]);
    let data = data_submessage(1, &[1, 2, 3, 4]);

    BestEffortStatelessReaderBehavior::receive_data(&mut reader_cache, source_guid_prefix, &data);

    assert_eq!(reader_cache.changes().len(), 1);
    assert_eq!(reader_cache.changes()[0].data_value.0, vec![1, 2, 3, 4]);
    assert_eq!(
        reader_cache.changes()[0].sequence_number,
        SequenceNumber::from_i64(1)
    );
}

#[test]
fn best_effort_reader_drops_stale_sequence_numbers() {
    let mut reader_cache = HistoryCache::new(HistoryQosPolicyKind::KeepAll, LengthKind::Unlimited);
    let source = GuidPrefix([7; 12]);
    let mut highest: i64 = 0;

    // a transport that drops every third datagram: 3, 6, ... never arrive
    let mut delivered = Vec::new();
    for sn in 1..=30i64 {
        if sn % 3 == 0 {
            continue;
        }
        let payload = [sn as u8];
        let data = data_submessage(sn, &payload);
        if BestEffortReaderBehavior::receive_data(&mut reader_cache, &mut highest, source, &data) {
            delivered.push(sn);
        }
    }
    // a duplicate and an old number are refused
    let data = data_submessage(2, &[2]);
    assert!(!BestEffortReaderBehavior::receive_data(
        &mut reader_cache,
        &mut highest,
        source,
        &data
    ));

    // the delivered subset arrives in strictly increasing order
    for w in delivered.windows(2) {
        assert!(w[0] < w[1]);
    }
    assert_eq!(delivered.len(), 20);
    assert_eq!(reader_cache.changes().len(), 20);
}

#[test]
fn keep_last_one_retains_single_change_per_instance() {
    let mut cache = HistoryCache::new(HistoryQosPolicyKind::KeepLast(1), LengthKind::Unlimited);
    let writer_guid = GUID::new(GuidPrefix([1; 12]), entityid_unknown());
    let instance = InstanceHandle([9; 16]);
    for sn in 1..=5i64 {
        let change = CacheChange::new(
            ChangeKind::Alive,
            writer_guid,
            instance,
            SequenceNumber::from_i64(sn),
            &[sn as u8],
            &[],
        );
        cache.add_change(change).unwrap();
    }
    assert_eq!(cache.changes().len(), 1);
    assert_eq!(cache.changes()[0].sequence_number, SequenceNumber::from_i64(5));
    assert_eq!(cache.get_seq_num_min().unwrap(), SequenceNumber::from_i64(5));
    assert_eq!(cache.get_seq_num_max().unwrap(), SequenceNumber::from_i64(5));
}

#[test]
fn keep_all_full_cache_reports_out_of_resources() {
    let mut cache = HistoryCache::new(HistoryQosPolicyKind::KeepAll, LengthKind::Limited(1));
    let writer_guid = GUID::new(GuidPrefix([1; 12]), entityid_unknown());
    let instance = InstanceHandle([9; 16]);
    let c1 = CacheChange::new(
        ChangeKind::Alive,
        writer_guid,
        instance,
        SequenceNumber::from_i64(1),
        &[1],
        &[],
    );
    assert!(cache.add_change(c1).is_ok());
    let c2 = CacheChange::new(
        ChangeKind::Alive,
        writer_guid,
        instance,
        SequenceNumber::from_i64(2),
        &[2],
        &[],
    );
    assert_eq!(
        cache.add_change(c2),
        Err(dust_dds::error::DdsError::OutOfResources)
    );
    assert_eq!(cache.changes().len(), 1);
}

#[test]
fn reliable_reader_requests_missing_sequence_numbers() {
    let remote = GUID::new(GuidPrefix([2; 12]), entityid_unknown());
    let mut proxy = WriterProxy::new(remote, Vec::new(), Vec::new(), entityid_unknown());
    proxy.received_change_set(10);
    proxy.received_change_set(12);
    proxy.received_change_set(15);

    let heartbeat = HeartbeatSubmessage {
        endianness_flag: true,
        final_flag: false,
        liveliness_flag: false,
        reader_id: EntityIdSubmessageElement {
            value: entityid_unknown(),
        },
        writer_id: EntityIdSubmessageElement {
            value: entityid_unknown(),
        },
        first_sn: SequenceNumberSubmessageElement {
            value: SequenceNumber::from_i64(10),
        },
        last_sn: SequenceNumberSubmessageElement {
            value: SequenceNumber::from_i64(15),
        },
        count: Count(1),
    };
    let acknack = proxy.process_heartbeat(&heartbeat).unwrap();
    assert_eq!(acknack.reader_sn_state.base().as_i64(), 11);
    let mut requested = Vec::new();
    let mut it = acknack.reader_sn_state.iter();
    while let Some(sn) = it.next() {
        requested.push(sn.as_i64());
    }
    assert_eq!(requested, vec![11, 13, 14]);

    // a stale heartbeat count changes nothing
    assert!(proxy.process_heartbeat(&heartbeat).is_none());
}

#[test]
fn reliable_reader_acknowledges_contiguous_prefix() {
    let remote = GUID::new(GuidPrefix([2; 12]), entityid_unknown());
    let mut proxy = WriterProxy::new(remote, Vec::new(), Vec::new(), entityid_unknown());
    for sn in 1..=4i64 {
        proxy.received_change_set(sn);
    }
    let heartbeat = HeartbeatSubmessage {
        endianness_flag: true,
        final_flag: false,
        liveliness_flag: false,
        reader_id: EntityIdSubmessageElement {
            value: entityid_unknown(),
        },
        writer_id: EntityIdSubmessageElement {
            value: entityid_unknown(),
        },
        first_sn: SequenceNumberSubmessageElement {
            value: SequenceNumber::from_i64(1),
        },
        last_sn: SequenceNumberSubmessageElement {
            value: SequenceNumber::from_i64(4),
        },
        count: Count(1),
    };
    let acknack = proxy.process_heartbeat(&heartbeat).unwrap();
    // everything up to 4 was received, so the base acknowledges past it
    assert_eq!(acknack.reader_sn_state.base().as_i64(), 5);
}

#[test]
fn gap_marks_sequence_numbers_irrelevant() {
    let remote = GUID::new(GuidPrefix([2; 12]), entityid_unknown());
    let mut proxy = WriterProxy::new(remote, Vec::new(), Vec::new(), entityid_unknown());
    let gap = GapSubmessage {
        endianness_flag: true,
        reader_id: EntityIdSubmessageElement {
            value: entityid_unknown(),
        },
        writer_id: EntityIdSubmessageElement {
            value: entityid_unknown(),
        },
        gap_start: SequenceNumberSubmessageElement {
            value: SequenceNumber::from_i64(1),
        },
        gap_list: SequenceNumberSet::from_slice(&[SequenceNumber::from_i64(5)]),
    };
    proxy.process_gap(&gap);
    // 1..=4 and 5 are now irrelevant
    assert!(proxy.knows(1));
    assert!(proxy.knows(4));
    assert!(proxy.knows(5));
    assert!(!proxy.knows(6));
}

#[test]
fn reliable_writer_keeps_unacknowledged_changes() {
    let guid = GUID::new(GuidPrefix([3; 12]), entityid_unknown());
    let cache = HistoryCache::new(HistoryQosPolicyKind::KeepAll, LengthKind::Unlimited);
    let mut writer = StatefulWriter::new(
        guid,
        TopicKind::WithKey,
        dust_dds::types::ReliabilityKind::Reliable,
        true,
        dust_dds::participant::default_heartbeat_period(),
        dust_dds::participant::default_nack_response_delay(),
        dust_dds::participant::default_nack_suppression_duration(),
        usize::MAX,
        cache,
    );
    let reader_guid = GUID::new(GuidPrefix([4; 12]), entityid_unknown());
    let proxy = ReaderProxy::new(
        reader_guid,
        entityid_unknown(),
        Vec::new(),
        Vec::new(),
        false,
        true,
        dust_dds::types::ReliabilityKind::Reliable,
    );
    writer.matched_reader_add(proxy);
    let instance = InstanceHandle([0; 16]);
    for _ in 0..3 {
        let change = writer.new_change(ChangeKind::Alive, vec![1], Vec::new(), instance);
        writer.writer_cache.add_change(change).unwrap();
    }
    // the reader acknowledged nothing: every change must stay
    writer.remove_acknowledged_changes();
    assert_eq!(writer.writer_cache.changes().len(), 3);

    // acknowledge the first two: only they may leave
    let acknack = AckNackSubmessage {
        endianness_flag: true,
        final_flag: true,
        reader_id: EntityIdSubmessageElement {
            value: entityid_unknown(),
        },
        writer_id: EntityIdSubmessageElement {
            value: entityid_unknown(),
        },
        reader_sn_state: SequenceNumberSet::from_slice(&[SequenceNumber::from_i64(3)]),
        count: Count(1),
    };
    let mut proxy_ref = writer.matched_readers.remove(0);
    proxy_ref.process_acknack(&acknack);
    assert_eq!(proxy_ref.highest_acked, 2);
    writer.matched_readers.push(proxy_ref);
    writer.remove_acknowledged_changes();
    assert_eq!(writer.writer_cache.changes().len(), 1);
    assert_eq!(
        writer.writer_cache.changes()[0].sequence_number,
        SequenceNumber::from_i64(3)
    );
}

#[test]
fn writer_heartbeat_covers_cache_range() {
    let guid = GUID::new(GuidPrefix([3; 12]), entityid_unknown());
    let cache = HistoryCache::new(HistoryQosPolicyKind::KeepAll, LengthKind::Unlimited);
    let mut writer = StatefulWriter::new(
        guid,
        TopicKind::WithKey,
        dust_dds::types::ReliabilityKind::Reliable,
        true,
        dust_dds::participant::default_heartbeat_period(),
        dust_dds::participant::default_nack_response_delay(),
        dust_dds::participant::default_nack_suppression_duration(),
        usize::MAX,
        cache,
    );
    let instance = InstanceHandle([0; 16]);
    for _ in 0..2 {
        let change = writer.new_change(ChangeKind::Alive, vec![1], Vec::new(), instance);
        writer.writer_cache.add_change(change).unwrap();
    }
    let hb = writer.produce_heartbeat(entityid_unknown());
    assert_eq!(hb.first_sn.value.as_i64(), 1);
    assert_eq!(hb.last_sn.value.as_i64(), 2);
    assert_eq!(hb.count.0, 1);
}

#[test]
fn header_round_trip() {
    let h = RtpsMessageHeader::new(
        ProtocolVersion { major: 2, minor: 4 },
        VendorId([0x01, 0x10]),
        GuidPrefix([5; 12]),
    );
    let bytes = encode_header(&h);
    let back = decode_header(&bytes).unwrap();
    assert_eq!(back.version.major, 2);
    assert_eq!(back.version.minor, 4);
    assert_eq!(back.vendor_id, VendorId([0x01, 0x10]));
    assert_eq!(back.guid_prefix, GuidPrefix([5; 12]));
}

#[test]
fn heartbeat_round_trip() {
    let s = HeartbeatSubmessage {
        endianness_flag: true,
        final_flag: false,
        liveliness_flag: true,
        reader_id: EntityIdSubmessageElement {
            value: EntityId {
                entity_key: [1, 2, 3],
                entity_kind: 0x04,
            },
        },
        writer_id: EntityIdSubmessageElement {
            value: EntityId {
                entity_key: [7, 8, 9],
                entity_kind: 0x02,
            },
        },
        first_sn: SequenceNumberSubmessageElement {
            value: SequenceNumber::from_i64(10),
        },
        last_sn: SequenceNumberSubmessageElement {
            value: SequenceNumber::from_i64(15),
        },
        count: Count(-3),
    };
    let bytes = encode_heartbeat(&s);
    assert_eq!(bytes.len(), 32);
    let back = decode_heartbeat(&bytes, 0).unwrap();
    assert_eq!(back.endianness_flag, s.endianness_flag);
    assert_eq!(back.final_flag, s.final_flag);
    assert_eq!(back.liveliness_flag, s.liveliness_flag);
    assert_eq!(back.reader_id.value, s.reader_id.value);
    assert_eq!(back.writer_id.value, s.writer_id.value);
    assert_eq!(back.first_sn.value, s.first_sn.value);
    assert_eq!(back.last_sn.value, s.last_sn.value);
    assert_eq!(back.count, s.count);
}

#[test]
fn acknack_round_trip() {
    let s = AckNackSubmessage {
        endianness_flag: true,
        final_flag: true,
        reader_id: EntityIdSubmessageElement {
            value: entityid_unknown(),
        },
        writer_id: EntityIdSubmessageElement {
            value: entityid_unknown(),
        },
        reader_sn_state: SequenceNumberSet::from_slice(&[
            SequenceNumber::from_i64(11),
            SequenceNumber::from_i64(13),
            SequenceNumber::from_i64(14),
        ]),
        count: Count(5),
    };
    let bytes = encode_acknack(&s);
    assert_eq!(bytes.len(), 60);
    let back = decode_acknack(&bytes, 0).unwrap();
    assert_eq!(back.count, s.count);
    assert_eq!(back.reader_sn_state.base().as_i64(), 11);
    let mut members = Vec::new();
    let mut it = back.reader_sn_state.iter();
    while let Some(sn) = it.next() {
        members.push(sn.as_i64());
    }
    assert_eq!(members, vec![11, 13, 14]);
}

#[test]
fn gap_round_trip() {
    let s = GapSubmessage {
        endianness_flag: true,
        reader_id: EntityIdSubmessageElement {
            value: entityid_unknown(),
        },
        writer_id: EntityIdSubmessageElement {
            value: entityid_unknown(),
        },
        gap_start: SequenceNumberSubmessageElement {
            value: SequenceNumber::from_i64(3),
        },
        gap_list: SequenceNumberSet::from_slice(&[SequenceNumber::from_i64(7)]),
    };
    let bytes = encode_gap(&s);
    assert_eq!(bytes.len(), 64);
    let back = decode_gap(&bytes, 0).unwrap();
    assert_eq!(back.gap_start.value.as_i64(), 3);
    assert_eq!(back.gap_list.base().as_i64(), 7);
}

#[test]
fn info_timestamp_round_trip() {
    let s = InfoTimestampSubmessage {
        endianness_flag: true,
        invalidate_flag: false,
        timestamp: Time {
            seconds: 123,
            fraction: 456,
        },
    };
    let bytes = encode_info_timestamp(&s);
    assert_eq!(bytes.len(), 12);
    let (back, used) = decode_info_timestamp(&bytes, 0).unwrap();
    assert_eq!(used, 12);
    assert_eq!(back.timestamp, s.timestamp);

    let invalidating = InfoTimestampSubmessage {
        endianness_flag: true,
        invalidate_flag: true,
        timestamp: Time {
            seconds: 0,
            fraction: 0,
        },
    };
    let bytes2 = encode_info_timestamp(&invalidating);
    assert_eq!(bytes2.len(), 4);
    let (back2, used2) = decode_info_timestamp(&bytes2, 0).unwrap();
    assert_eq!(used2, 4);
    assert!(back2.invalidate_flag);
}

#[test]
fn key_round_trip_and_handle_is_pure() {
    let key = vec![1u8, 2, 3, 4, 5];
    let framed = serialize_key(&key);
    let back = deserialize_key(&framed).unwrap();
    assert_eq!(back, key);

    let h1 = get_instance_handle_from_key(&key);
    let h2 = get_instance_handle_from_key(&key);
    assert_eq!(h1, h2);
    assert_eq!(h1.0[..5], [1, 2, 3, 4, 5]);
    assert_eq!(h1.0[5..], [0u8; 11]);

    let long_key: Vec<u8> = (0..40u8).collect();
    let h3 = get_instance_handle_from_key(&long_key);
    let h4 = get_instance_handle_from_key(&long_key);
    assert_eq!(h3, h4);
    assert_ne!(h3, h1);
}
