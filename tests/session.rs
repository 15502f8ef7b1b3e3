use rbmini::connection::{
    find_notify_characteristic, serial_from_name, CharacteristicInfo, ConnectSelector, ConnectStep,
    RbManager, SessionError, StreamAction, StreamEvent, StreamPhase, StreamSession, RX_CHAR,
    TX_CHAR,
};

#[test]
fn name_with_prefix_yields_serial() {
    assert_eq!(
        serial_from_name("RaceBox Mini ABC123"),
        Some(String::from("ABC123"))
    );
    assert_eq!(serial_from_name("RaceBox Mini "), Some(String::new()));
}

#[test]
fn name_without_prefix_is_rejected() {
    assert_eq!(serial_from_name("RaceBox Micro ABC123"), None);
    assert_eq!(serial_from_name("RaceBox Mini"), None);
    assert_eq!(serial_from_name(""), None);
    assert_eq!(serial_from_name("xRaceBox Mini ABC123"), None);
}

#[test]
fn non_matching_name_skips_without_connecting() {
    let mut selector = ConnectSelector::new(2);
    assert!(matches!(selector.start(), ConnectStep::Inspect(0)));
    let step = selector.on_properties(Some("Headphones"), false);
    assert!(matches!(step, ConnectStep::Inspect(1)));
    let step = selector.on_properties(None, true);
    assert!(matches!(step, ConnectStep::NotFound));
}

#[test]
fn matching_unlinked_candidate_is_connected() {
    let mut selector = ConnectSelector::new(3);
    let step = selector.on_properties(Some("RaceBox Mini 42"), false);
    assert!(matches!(step, ConnectStep::Connect(0)));
    let step = selector.on_connect_result(false);
    assert!(matches!(step, ConnectStep::Inspect(1)));
    let step = selector.on_properties(Some("RaceBox Mini 77"), false);
    assert!(matches!(step, ConnectStep::Connect(1)));
    match selector.on_connect_result(true) {
        ConnectStep::Selected { index, serial } => {
            assert_eq!(index, 1);
            assert_eq!(serial, "77");
        }
        _ => panic!("expected a selection"),
    }
}

#[test]
fn already_linked_candidate_is_taken_as_is() {
    let mut selector = ConnectSelector::new(1);
    match selector.on_properties(Some("RaceBox Mini 9"), true) {
        ConnectStep::Selected { index, serial } => {
            assert_eq!(index, 0);
            assert_eq!(serial, "9");
        }
        _ => panic!("expected a selection"),
    }
}

#[test]
fn no_candidates_means_not_found() {
    let selector = ConnectSelector::new(0);
    assert!(matches!(selector.start(), ConnectStep::NotFound));
    let mut selector = ConnectSelector::new(1);
    selector.on_properties(Some("RaceBox Mini 1"), false);
    assert!(matches!(
        selector.on_connect_result(false),
        ConnectStep::NotFound
    ));
}

#[test]
fn manager_reports_discovery_failures() {
    let none: Vec<Option<Vec<u8>>> = Vec::new();
    assert_eq!(
        RbManager::<u8, u8>::new(Vec::new(), none).err(),
        Some(SessionError::NoAdaptersFound)
    );
    assert_eq!(
        RbManager::<u8, u8>::new(vec![1], vec![None]).err(),
        Some(SessionError::ScanFailed)
    );
    assert_eq!(
        RbManager::<u8, u8>::new(vec![1, 2], vec![Some(vec![]), Some(vec![])]).err(),
        Some(SessionError::NoDevicesFound)
    );
    assert_eq!(
        RbManager::<u8, u8>::new(vec![1, 2], vec![Some(vec![5]), None]).err(),
        Some(SessionError::ScanFailed)
    );
}

#[test]
fn manager_keeps_every_adapters_peripherals_in_order() {
    let manager = RbManager::<u8, u8>::new(vec![1, 2], vec![Some(vec![10, 11]), Some(vec![12])])
        .ok()
        .unwrap();
    assert_eq!(manager.adapter_list, vec![1, 2]);
    assert_eq!(manager.peripherals, vec![10, 11, 12]);
    let connection = manager.into_connection(1, String::from("ABC"));
    assert_eq!(connection.peripheral, 11);
    assert_eq!(connection.serial, "ABC");
}

#[test]
fn notify_characteristic_is_first_notifying_transmit() {
    let chars = vec![
        CharacteristicInfo {
            uuid: RX_CHAR,
            notify: true,
        },
        CharacteristicInfo {
            uuid: TX_CHAR,
            notify: false,
        },
        CharacteristicInfo {
            uuid: TX_CHAR,
            notify: true,
        },
        CharacteristicInfo {
            uuid: TX_CHAR,
            notify: true,
        },
    ];
    assert_eq!(find_notify_characteristic(&chars), Ok(2));
    assert_eq!(
        find_notify_characteristic(&chars[..2].to_vec()),
        Err(SessionError::NotifyCharacteristicNotFound)
    );
    assert_eq!(
        TX_CHAR,
        0x6E400003_B5A3_F393_E0A9_E50E24DCCA9E
    );
}

#[test]
fn stream_session_forwards_values_in_order() {
    let mut session = StreamSession::new();
    let chars = vec![CharacteristicInfo {
        uuid: TX_CHAR,
        notify: true,
    }];
    assert!(matches!(
        session.handle(StreamEvent::Discovered(chars)),
        StreamAction::Subscribe(0)
    ));
    assert!(matches!(
        session.handle(StreamEvent::Subscribed),
        StreamAction::Wait
    ));
    assert_eq!(session.phase, StreamPhase::Streaming);
    let mut delivered = Vec::new();
    for value in [vec![1u8, 2], vec![3], vec![4, 5, 6]] {
        match session.handle(StreamEvent::Notification(value)) {
            StreamAction::Forward(v) => delivered.push(v),
            _ => panic!("expected a forward"),
        }
    }
    assert_eq!(delivered, vec![vec![1u8, 2], vec![3], vec![4, 5, 6]]);
    assert!(matches!(
        session.handle(StreamEvent::SinkClosed),
        StreamAction::Finish(Err(SessionError::ConsumerGone))
    ));
    assert_eq!(session.phase, StreamPhase::Finished);
    assert!(matches!(
        session.handle(StreamEvent::Notification(vec![7])),
        StreamAction::Wait
    ));
}

#[test]
fn stream_session_reports_setup_failures() {
    let mut session = StreamSession::new();
    assert!(matches!(
        session.handle(StreamEvent::DiscoveryFailed),
        StreamAction::Finish(Err(SessionError::ServiceDiscoveryFailed))
    ));
    let mut session = StreamSession::new();
    assert!(matches!(
        session.handle(StreamEvent::Discovered(Vec::new())),
        StreamAction::Finish(Err(SessionError::NotifyCharacteristicNotFound))
    ));
    let mut session = StreamSession::new();
    session.handle(StreamEvent::Discovered(vec![CharacteristicInfo {
        uuid: TX_CHAR,
        notify: true,
    }]));
    assert!(matches!(
        session.handle(StreamEvent::SubscribeFailed),
        StreamAction::Finish(Err(SessionError::SubscriptionFailed))
    ));
}

#[test]
fn stream_session_ends_on_source_close_or_shutdown() {
    let mut session = StreamSession { phase: StreamPhase::Streaming };
    assert!(matches!(
        session.handle(StreamEvent::SourceClosed),
        StreamAction::Finish(Err(SessionError::NotificationsEnded))
    ));
    let mut session = StreamSession { phase: StreamPhase::Streaming };
    assert!(matches!(
        session.handle(StreamEvent::ShutdownRequested),
        StreamAction::Finish(Ok(()))
    ));
    let mut session = StreamSession::new();
    assert!(matches!(
        session.handle(StreamEvent::Notification(vec![1])),
        StreamAction::Wait
    ));
    assert_eq!(session.phase, StreamPhase::Discovering);
}
