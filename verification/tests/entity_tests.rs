use dust_dds::data_reader::{DdsDataReader, InstanceStateKind, MatchResult, SampleStateKind,
    ViewStateKind};
use dust_dds::data_writer::DdsDataWriter;
use dust_dds::discovery::{DiscoveredReaderData, DiscoveredWriterData,
    PublicationBuiltinTopicData, SubscriptionBuiltinTopicData};
use dust_dds::error::DdsError;
use dust_dds::participant::DomainParticipantActor;
use dust_dds::publisher::Publisher;
use dust_dds::qos::{DataReaderQos, DataWriterQos, DomainParticipantQos, DurationKind,
    HistoryQosPolicy, HistoryQosPolicyKind, OwnershipQosPolicy, OwnershipQosPolicyKind,
    OwnershipStrengthQosPolicy, QosKind, ReliabilityQosPolicy, ReliabilityQosPolicyKind,
    UserDataQosPolicy, RELIABILITY_QOS_POLICY_ID};
use dust_dds::types::{entityid_unknown, ChangeKind, GuidPrefix, InstanceHandle, SequenceNumber,
    GUID};

fn participant(prefix: u8, domain_id: i32) -> DomainParticipantActor {
    DomainParticipantActor::new(
        GuidPrefix([prefix; 12]),
        domain_id,
        String::new(),
        DomainParticipantQos {
            user_data: UserDataQosPolicy { value: Vec::new() },
        },
        Vec::new(),
        65507,
    )
}

fn writer_announcement(prefix: u8, topic: &str, qos: DataWriterQos) -> DiscoveredWriterData {
    let remote_writer_guid = GUID::new(GuidPrefix([prefix; 12]), entityid_unknown());
    DiscoveredWriterData {
        remote_writer_guid,
        unicast_locator_list: Vec::new(),
        multicast_locator_list: Vec::new(),
        dds_publication_data: PublicationBuiltinTopicData {
            key: InstanceHandle([prefix; 16]),
            participant_key: InstanceHandle([prefix; 16]),
            topic_name: topic.to_string(),
            data_type_name: "UserType".to_string(),
            qos,
        },
    }
}

#[test]
fn get_publisher_parent_participant() {
    let mut p = participant(1, 0);
    p.create_user_defined_publisher(QosKind::Default);
    let publisher = &p.user_defined_publisher_list[0];

    assert_eq!(p.get_instance_handle(), publisher.get_participant());
}

#[test]
fn default_data_writer_qos() {
    let guid = GUID::new(GuidPrefix([1; 12]), entityid_unknown());
    let mut publisher = Publisher::new(
        guid,
        Default::default(),
        InstanceHandle([1; 16]),
    );

    let user_data = vec![1, 2, 3];
    let qos = DataWriterQos {
        user_data: UserDataQosPolicy {
            value: user_data.clone(),
        },
        ..Default::default()
    };

    publisher
        .set_default_datawriter_qos(QosKind::Specific(qos))
        .unwrap();

    publisher
        .create_datawriter(
            "default_data_writer_qos".to_string(),
            "UserType".to_string(),
            QosKind::Default,
        )
        .unwrap();

    assert_eq!(
        &publisher.get_default_datawriter_qos().user_data.value,
        &user_data
    );
    assert_eq!(
        &publisher.data_writers[0].get_qos().user_data.value,
        &user_data
    );
}

#[test]
fn different_writers_have_different_instance_handles() {
    let mut p = participant(1, 0);
    p.create_user_defined_publisher(QosKind::Default);
    p.create_user_defined_publisher(QosKind::Default);

    let topic = "default_data_writer_qos".to_string();
    let t = "UserType".to_string();
    let w1_1 = p.user_defined_publisher_list[0]
        .create_datawriter(topic.clone(), t.clone(), QosKind::Default)
        .unwrap();
    let w1_2 = p.user_defined_publisher_list[0]
        .create_datawriter(topic.clone(), t.clone(), QosKind::Default)
        .unwrap();
    let w2_1 = p.user_defined_publisher_list[1]
        .create_datawriter(topic.clone(), t.clone(), QosKind::Default)
        .unwrap();
    let w2_2 = p.user_defined_publisher_list[1]
        .create_datawriter(topic, t, QosKind::Default)
        .unwrap();

    assert_ne!(w1_1, w1_2);
    assert_ne!(w1_2, w2_1);
    assert_ne!(w2_1, w2_2);
}

#[test]
fn incompatible_reliability_refuses_the_match() {
    let reader_guid = GUID::new(GuidPrefix([1; 12]), entityid_unknown());
    let mut reader_qos = DataReaderQos::default();
    reader_qos.reliability = ReliabilityQosPolicy {
        kind: ReliabilityQosPolicyKind::Reliable,
        max_blocking_time: reader_qos.reliability.max_blocking_time,
    };
    let mut reader = DdsDataReader::new(
        reader_guid,
        "T".to_string(),
        "UserType".to_string(),
        reader_qos,
    );

    let mut offered = DataWriterQos::default();
    offered.reliability = ReliabilityQosPolicy {
        kind: ReliabilityQosPolicyKind::BestEffort,
        max_blocking_time: offered.reliability.max_blocking_time,
    };
    let announcement = writer_announcement(2, "T", offered);

    let result = reader.add_matched_writer(&announcement, &Vec::new(), &Vec::new());
    assert_eq!(result, MatchResult::IncompatibleQos);
    let status = reader.get_requested_incompatible_qos_status();
    assert_eq!(status.total_count, 1);
    assert_eq!(status.last_policy_id, RELIABILITY_QOS_POLICY_ID);
    assert_eq!(reader.get_subscription_matched_status().total_count, 0);
}

#[test]
fn compatible_offer_is_matched() {
    let reader_guid = GUID::new(GuidPrefix([1; 12]), entityid_unknown());
    let reader_qos = DataReaderQos::default();
    let mut reader = DdsDataReader::new(
        reader_guid,
        "T".to_string(),
        "UserType".to_string(),
        reader_qos,
    );
    let announcement = writer_announcement(2, "T", DataWriterQos::default());
    assert_eq!(
        reader.add_matched_writer(&announcement, &Vec::new(), &Vec::new()),
        MatchResult::Matched
    );
    assert_eq!(reader.get_subscription_matched_status().total_count, 1);

    // a writer of another topic is no candidate
    let other = writer_announcement(3, "Other", DataWriterQos::default());
    assert_eq!(
        reader.add_matched_writer(&other, &Vec::new(), &Vec::new()),
        MatchResult::NotMatched
    );

    reader.remove_matched_writer(&announcement.remote_writer_guid);
    assert_eq!(reader.get_subscription_matched_status().current_count, 0);
    assert_eq!(reader.get_subscription_matched_status().total_count, 1);
}

#[test]
fn exclusive_ownership_suppresses_the_weaker_writer() {
    let reader_guid = GUID::new(GuidPrefix([1; 12]), entityid_unknown());
    let mut reader_qos = DataReaderQos::default();
    reader_qos.ownership = OwnershipQosPolicy {
        kind: OwnershipQosPolicyKind::Exclusive,
    };
    let mut reader = DdsDataReader::new(
        reader_guid,
        "T".to_string(),
        "UserType".to_string(),
        reader_qos,
    );
    let writer_a = GUID::new(GuidPrefix([0xA; 12]), entityid_unknown());
    let writer_b = GUID::new(GuidPrefix([0xB; 12]), entityid_unknown());
    let instance = InstanceHandle([9; 16]);

    // B (strength 20) writes first and owns the instance
    assert!(reader.process_received_change(
        &writer_b,
        20,
        ChangeKind::Alive,
        SequenceNumber::from_i64(1),
        instance,
        vec![1]
    ));
    // A (strength 10) is suppressed while B owns the instance
    assert!(!reader.process_received_change(
        &writer_a,
        10,
        ChangeKind::Alive,
        SequenceNumber::from_i64(1),
        instance,
        vec![2]
    ));
    // B keeps writing
    assert!(reader.process_received_change(
        &writer_b,
        20,
        ChangeKind::Alive,
        SequenceNumber::from_i64(2),
        instance,
        vec![3]
    ));
    assert_eq!(reader.samples.len(), 2);
}

#[test]
fn dispose_moves_the_instance_out_of_the_alive_state_once() {
    let reader_guid = GUID::new(GuidPrefix([1; 12]), entityid_unknown());
    let mut reader = DdsDataReader::new(
        reader_guid,
        "T".to_string(),
        "UserType".to_string(),
        DataReaderQos::default(),
    );
    let writer = GUID::new(GuidPrefix([2; 12]), entityid_unknown());
    let key = InstanceHandle([5; 16]);

    reader.process_received_change(
        &writer,
        0,
        ChangeKind::Alive,
        SequenceNumber::from_i64(1),
        key,
        vec![1],
    );
    assert_eq!(reader.instances[0].instance_state, InstanceStateKind::Alive);
    assert_eq!(reader.instances[0].view_state, ViewStateKind::New);

    reader.process_received_change(
        &writer,
        0,
        ChangeKind::NotAliveDisposed,
        SequenceNumber::from_i64(2),
        key,
        vec![],
    );
    assert_eq!(
        reader.instances[0].instance_state,
        InstanceStateKind::NotAliveDisposed
    );

    // a second dispose leaves the state where it is: the transition happened once
    reader.process_received_change(
        &writer,
        0,
        ChangeKind::NotAliveDisposed,
        SequenceNumber::from_i64(3),
        key,
        vec![],
    );
    assert_eq!(
        reader.instances[0].instance_state,
        InstanceStateKind::NotAliveDisposed
    );
    assert_eq!(reader.instances.len(), 1);
}

#[test]
fn reliable_delivery_hands_samples_back_in_order() {
    let writer_guid = GUID::new(GuidPrefix([2; 12]), entityid_unknown());
    let mut writer = DdsDataWriter::new(
        writer_guid,
        "T".to_string(),
        "UserType".to_string(),
        DataWriterQos {
            history: HistoryQosPolicy {
                kind: HistoryQosPolicyKind::KeepAll,
            },
            reliability: ReliabilityQosPolicy {
                kind: ReliabilityQosPolicyKind::Reliable,
                max_blocking_time: DurationKind::Infinite,
            },
            ..Default::default()
        },
    );
    let reader_guid = GUID::new(GuidPrefix([1; 12]), entityid_unknown());
    let mut reader = DdsDataReader::new(
        reader_guid,
        "T".to_string(),
        "UserType".to_string(),
        DataReaderQos {
            history: HistoryQosPolicy {
                kind: HistoryQosPolicyKind::KeepAll,
            },
            reliability: ReliabilityQosPolicy {
                kind: ReliabilityQosPolicyKind::Reliable,
                max_blocking_time: DurationKind::Infinite,
            },
            ..Default::default()
        },
    );
    let instance = InstanceHandle([1; 16]);
    for i in 1..=100u8 {
        writer.write_w_timestamp(vec![i], instance).unwrap();
    }
    assert_eq!(writer.writer.writer_cache.changes().len(), 100);
    for change in writer.writer.writer_cache.changes() {
        reader.process_received_change(
            &change.writer_guid,
            0,
            change.kind,
            change.sequence_number,
            change.instance_handle,
            change.data_value.0.clone(),
        );
    }
    let samples = reader
        .take(
            100,
            &[SampleStateKind::NotRead, SampleStateKind::Read],
            &[ViewStateKind::New, ViewStateKind::NotNew],
            &[
                InstanceStateKind::Alive,
                InstanceStateKind::NotAliveDisposed,
                InstanceStateKind::NotAliveNoWriters,
            ],
            None,
        )
        .unwrap();
    assert_eq!(samples.len(), 100);
    for (i, (data, info)) in samples.iter().enumerate() {
        assert_eq!(data, &vec![(i + 1) as u8]);
        assert_eq!(info.sequence_number.as_i64(), (i + 1) as i64);
    }
    assert_eq!(reader.samples.len(), 0);
}

#[test]
fn read_marks_samples_and_empty_reader_reports_no_data() {
    let reader_guid = GUID::new(GuidPrefix([1; 12]), entityid_unknown());
    let mut reader = DdsDataReader::new(
        reader_guid,
        "T".to_string(),
        "UserType".to_string(),
        DataReaderQos::default(),
    );
    let all_sample_states = [SampleStateKind::NotRead, SampleStateKind::Read];
    let all_view_states = [ViewStateKind::New, ViewStateKind::NotNew];
    let all_instance_states = [
        InstanceStateKind::Alive,
        InstanceStateKind::NotAliveDisposed,
        InstanceStateKind::NotAliveNoWriters,
    ];
    assert!(matches!(
        reader.read(
            1,
            &all_sample_states,
            &all_view_states,
            &all_instance_states,
            None
        ),
        Err(DdsError::NoData)
    ));

    let writer = GUID::new(GuidPrefix([2; 12]), entityid_unknown());
    reader.process_received_change(
        &writer,
        0,
        ChangeKind::Alive,
        SequenceNumber::from_i64(1),
        InstanceHandle([3; 16]),
        vec![42],
    );
    let samples = reader
        .read(
            10,
            &[SampleStateKind::NotRead],
            &all_view_states,
            &all_instance_states,
            None,
        )
        .unwrap();
    assert_eq!(samples.len(), 1);
    assert_eq!(samples[0].0, vec![42]);
    assert_eq!(samples[0].1.sample_state, SampleStateKind::NotRead);

    // the sample stays stored, now marked read
    assert_eq!(reader.samples.len(), 1);
    assert_eq!(reader.samples[0].sample_state, SampleStateKind::Read);
    assert!(matches!(
        reader.read(
            10,
            &[SampleStateKind::NotRead],
            &all_view_states,
            &all_instance_states,
            None
        ),
        Err(DdsError::NoData)
    ));
}

#[test]
fn historical_data_wait_succeeds_once_everything_arrived() {
    let reader_guid = GUID::new(GuidPrefix([1; 12]), entityid_unknown());
    let mut reader = DdsDataReader::new(
        reader_guid,
        "T".to_string(),
        "UserType".to_string(),
        DataReaderQos::default(),
    );
    let announcement = writer_announcement(2, "T", DataWriterQos::default());
    assert_eq!(
        reader.add_matched_writer(&announcement, &Vec::new(), &Vec::new()),
        MatchResult::Matched
    );
    reader.matched_writers[0].last_announced = 5;
    assert!(!reader.is_historical_data_received());
    for sn in 1..=5i64 {
        reader.matched_writers[0].proxy.received_change_set(sn);
    }
    assert!(reader.is_historical_data_received());
}

#[test]
fn publisher_guards_its_operations() {
    let guid = GUID::new(GuidPrefix([1; 12]), entityid_unknown());
    let mut publisher = Publisher::new(guid, Default::default(), InstanceHandle([1; 16]));

    // suspending needs an enabled publisher
    assert_eq!(publisher.suspend_publications(), Err(DdsError::NotEnabled));
    publisher.enable().unwrap();
    publisher.suspend_publications().unwrap();
    publisher.resume_publications().unwrap();
    assert!(matches!(
        publisher.resume_publications(),
        Err(DdsError::PreconditionNotMet(_))
    ));
    publisher.begin_coherent_changes().unwrap();
    publisher.end_coherent_changes().unwrap();
    assert!(matches!(
        publisher.end_coherent_changes(),
        Err(DdsError::PreconditionNotMet(_))
    ));

    // a writer policy set that keeps a depth of zero contradicts itself
    let mut bad = DataWriterQos::default();
    bad.history = HistoryQosPolicy {
        kind: HistoryQosPolicyKind::KeepLast(0),
    };
    assert_eq!(
        publisher.set_default_datawriter_qos(QosKind::Specific(bad)),
        Err(DdsError::InconsistentPolicy)
    );

    // deleting a foreign writer is refused
    assert!(matches!(
        publisher.delete_datawriter(&InstanceHandle([9; 16])),
        Err(DdsError::PreconditionNotMet(_))
    ));
}

#[test]
fn immutable_policies_refuse_changes() {
    let a = DataWriterQos::default();
    let mut b = DataWriterQos::default();
    assert!(a.check_immutability(&b).is_ok());
    b.ownership = OwnershipQosPolicy {
        kind: OwnershipQosPolicyKind::Exclusive,
    };
    assert_eq!(a.check_immutability(&b), Err(DdsError::ImmutablePolicy));
    let _ = OwnershipStrengthQosPolicy { value: 0 };
}

#[test]
fn unacknowledged_writes_time_out_the_wait() {
    let guid = GUID::new(GuidPrefix([1; 12]), entityid_unknown());
    let mut publisher = Publisher::new(guid, Default::default(), InstanceHandle([1; 16]));
    publisher
        .create_datawriter("T".to_string(), "UserType".to_string(), QosKind::Default)
        .unwrap();
    assert!(publisher.wait_for_acknowledgments().is_ok());

    // an unacknowledged sample towards a matched reader blocks the wait
    let announcement = DiscoveredReaderData {
        remote_reader_guid: GUID::new(GuidPrefix([2; 12]), entityid_unknown()),
        expects_inline_qos: false,
        unicast_locator_list: Vec::new(),
        multicast_locator_list: Vec::new(),
        dds_subscription_data: SubscriptionBuiltinTopicData {
            key: InstanceHandle([2; 16]),
            participant_key: InstanceHandle([2; 16]),
            topic_name: "T".to_string(),
            data_type_name: "UserType".to_string(),
            qos: DataReaderQos::default(),
        },
    };
    publisher.add_matched_reader(&announcement, &Vec::new(), &Vec::new());
    publisher.data_writers[0]
        .write_w_timestamp(vec![1], InstanceHandle([0; 16]))
        .unwrap();
    assert_eq!(publisher.wait_for_acknowledgments(), Err(DdsError::Timeout));
}

#[test]
fn expired_participants_leave_the_discovered_list() {
    let mut p1 = participant(1, 0);
    let mut p2 = participant(2, 0);

    // the two participants see each other's announcements
    let a2 = p2.as_spdp_discovered_participant_data();
    let a1 = p1.as_spdp_discovered_participant_data();
    p1.process_spdp_participant_discovery(a2, 0);
    p2.process_spdp_participant_discovery(a1, 0);
    assert_eq!(p1.get_discovered_participants().len(), 1);
    assert_eq!(p2.get_discovered_participants().len(), 1);
    assert_eq!(p1.get_discovered_participants()[0], p2.get_instance_handle());
    assert_eq!(p2.get_discovered_participants()[0], p1.get_instance_handle());

    // the lease runs for 100 seconds; without a refresh the participant leaves
    p1.remove_expired_participants(99);
    assert_eq!(p1.get_discovered_participants().len(), 1);
    p1.remove_expired_participants(101);
    assert_eq!(p1.get_discovered_participants().len(), 0);

    // a refreshed announcement moves the deadline
    let a2 = p2.as_spdp_discovered_participant_data();
    p1.process_spdp_participant_discovery(a2, 0);
    let a2 = p2.as_spdp_discovered_participant_data();
    p1.process_spdp_participant_discovery(a2, 50);
    p1.remove_expired_participants(101);
    assert_eq!(p1.get_discovered_participants().len(), 1);
}

#[test]
fn another_domain_is_not_discovered() {
    let mut p1 = participant(1, 0);
    let p3 = participant(3, 7);
    let a3 = p3.as_spdp_discovered_participant_data();
    p1.process_spdp_participant_discovery(a3, 0);
    assert_eq!(p1.get_discovered_participants().len(), 0);
}

#[test]
fn best_effort_reception_counts_lost_samples() {
    let reader_guid = GUID::new(GuidPrefix([1; 12]), entityid_unknown());
    let mut reader = DdsDataReader::new(
        reader_guid,
        "T".to_string(),
        "UserType".to_string(),
        DataReaderQos::default(),
    );
    let announcement = writer_announcement(2, "T", DataWriterQos::default());
    assert_eq!(
        reader.add_matched_writer(&announcement, &Vec::new(), &Vec::new()),
        MatchResult::Matched
    );
    let writer = announcement.remote_writer_guid;
    let instance = InstanceHandle([4; 16]);

    // every third sample is dropped by the transport
    let mut delivered = Vec::new();
    for sn in 1..=30i64 {
        if sn % 3 == 0 {
            continue;
        }
        if reader.process_data_best_effort(
            &writer,
            0,
            ChangeKind::Alive,
            SequenceNumber::from_i64(sn),
            instance,
            vec![sn as u8],
        ) {
            delivered.push(sn);
        }
    }
    // a stale number is refused
    assert!(!reader.process_data_best_effort(
        &writer,
        0,
        ChangeKind::Alive,
        SequenceNumber::from_i64(2),
        instance,
        vec![2]
    ));
    assert_eq!(delivered.len(), 20);
    for w in delivered.windows(2) {
        assert!(w[0] < w[1]);
    }
    // the gaps detected at 3, 6, ..., 27 count as lost; 30 was never bridged
    assert_eq!(reader.get_sample_lost_status(), 9);
    // an unmatched writer changes nothing
    let stranger = GUID::new(GuidPrefix([9; 12]), entityid_unknown());
    assert!(!reader.process_data_best_effort(
        &stranger,
        0,
        ChangeKind::Alive,
        SequenceNumber::from_i64(50),
        instance,
        vec![0]
    ));
}
