use display_backend::data_device::{
    default_action_chooser, has_mime_type, DataDevice, DndAction, Focus, GrabAction, OfferData,
    OfferError, OfferReply, OfferRequest, ServerDnDGrab, ServerDndEvent, SourceMetadata, DND_ASK,
    DND_COPY, DND_MOVE,
};

fn action(bits: u32) -> DndAction {
    DndAction { bits }
}

fn metadata() -> SourceMetadata {
    SourceMetadata {
        mime_types: vec![String::from("text/plain"), String::from("text/uri-list")],
        dnd_action: action(DND_COPY | DND_MOVE),
    }
}

fn devices() -> Vec<DataDevice> {
    vec![
        DataDevice { device: 1, client: 100 },
        DataDevice { device: 2, client: 200 },
        DataDevice { device: 3, client: 100 },
    ]
}

#[test]
fn preferred_action_wins_when_available() {
    let all = action(DND_COPY | DND_MOVE | DND_ASK);
    assert_eq!(default_action_chooser(all, action(DND_MOVE)), action(DND_MOVE));
    assert_eq!(default_action_chooser(all, action(DND_COPY)), action(DND_COPY));
    assert_eq!(default_action_chooser(all, action(DND_ASK)), action(DND_ASK));
}

#[test]
fn fallback_order_is_ask_copy_move() {
    let all = action(DND_COPY | DND_MOVE | DND_ASK);
    assert_eq!(default_action_chooser(all, action(0)), action(DND_ASK));
    assert_eq!(default_action_chooser(all, action(DND_COPY | DND_MOVE)), action(DND_ASK));
    assert_eq!(default_action_chooser(action(DND_COPY | DND_MOVE), action(DND_ASK)), action(DND_COPY));
    assert_eq!(default_action_chooser(action(DND_MOVE), action(DND_COPY)), action(DND_MOVE));
    assert_eq!(default_action_chooser(action(0), action(DND_COPY)), action(0));
    assert_eq!(default_action_chooser(action(8), action(8)), action(0));
}

#[test]
fn action_sets_behave_as_sets() {
    assert!(DndAction::empty().is_empty());
    assert!(!action(DND_ASK).is_empty());
    assert!(action(DND_COPY | DND_ASK).contains(action(DND_ASK)));
    assert!(action(DND_COPY | DND_ASK).contains(action(0)));
    assert!(!action(DND_COPY).contains(action(DND_COPY | DND_ASK)));
    assert_eq!(action(DND_COPY | DND_ASK).intersection(action(DND_ASK | DND_MOVE)), action(DND_ASK));
}

#[test]
fn mime_types_are_matched_exactly() {
    let types = metadata().mime_types;
    assert!(has_mime_type(&types, &String::from("text/plain")));
    assert!(!has_mime_type(&types, &String::from("text/plain;charset=utf-8")));
    assert!(!has_mime_type(&vec![], &String::from("text/plain")));
}

#[test]
fn accept_counts_only_for_offered_types() {
    let mut data = OfferData::new();
    assert!(data.accepted);
    let reply = data.handle_request(
        &metadata(),
        OfferRequest::Accept { mime_type: Some(String::from("image/png")) },
    );
    assert!(matches!(reply, OfferReply::Nothing));
    assert!(!data.accepted);
    data.handle_request(
        &metadata(),
        OfferRequest::Accept { mime_type: Some(String::from("text/uri-list")) },
    );
    assert!(data.accepted);
    data.handle_request(&metadata(), OfferRequest::Accept { mime_type: None });
    assert!(!data.accepted);
}

#[test]
fn data_is_sent_only_while_the_offer_is_active() {
    let mut data = OfferData::new();
    let reply = data.handle_request(
        &metadata(),
        OfferRequest::Receive { mime_type: String::from("text/plain"), fd: 7 },
    );
    match reply {
        OfferReply::Event(ServerDndEvent::Send { mime_type, fd }) => {
            assert_eq!(mime_type, "text/plain");
            assert_eq!(fd, 7);
        }
        other => panic!("unexpected reply {:?}", other),
    }
    let reply = data.handle_request(
        &metadata(),
        OfferRequest::Receive { mime_type: String::from("image/png"), fd: 7 },
    );
    assert!(matches!(reply, OfferReply::Nothing));
    data.active = false;
    let reply = data.handle_request(
        &metadata(),
        OfferRequest::Receive { mime_type: String::from("text/plain"), fd: 7 },
    );
    assert!(matches!(reply, OfferReply::Nothing));
    assert!(matches!(data.handle_request(&metadata(), OfferRequest::Destroy), OfferReply::Nothing));
}

#[test]
fn finish_is_checked_in_order() {
    let good = OfferData { active: true, dropped: true, accepted: true, chosen_action: action(DND_COPY) };
    let cases = [
        (OfferData { active: false, accepted: false, ..good }, OfferError::FinishInactive),
        (OfferData { accepted: false, dropped: false, ..good }, OfferError::FinishUnaccepted),
        (OfferData { dropped: false, chosen_action: action(0), ..good }, OfferError::FinishUndropped),
        (OfferData { chosen_action: action(0), ..good }, OfferError::FinishWithoutAction),
    ];
    for (mut data, error) in cases {
        let before = data;
        match data.handle_request(&metadata(), OfferRequest::Finish) {
            OfferReply::Error(e) => assert_eq!(e, error),
            other => panic!("unexpected reply {:?}", other),
        }
        assert_eq!(data, before);
    }
    let mut data = good;
    assert!(matches!(
        data.handle_request(&metadata(), OfferRequest::Finish),
        OfferReply::Event(ServerDndEvent::Finished)
    ));
    assert!(!data.active);
    assert!(matches!(
        data.handle_request(&metadata(), OfferRequest::Finish),
        OfferReply::Error(OfferError::FinishInactive)
    ));
}

#[test]
fn actions_are_chosen_among_those_both_sides_support() {
    let mut data = OfferData::new();
    let reply = data.handle_request(
        &metadata(),
        OfferRequest::SetActions { dnd_actions: action(DND_MOVE | DND_ASK), preferred_action: action(DND_ASK) },
    );
    assert!(matches!(reply, OfferReply::ActionChosen(a) if a == action(DND_MOVE)));
    assert_eq!(data.chosen_action, action(DND_MOVE));
    let reply = data.handle_request(
        &metadata(),
        OfferRequest::SetActions { dnd_actions: action(DND_ASK), preferred_action: action(0) },
    );
    assert!(matches!(reply, OfferReply::ActionChosen(a) if a == action(0)));
    let reply = data.handle_request(
        &metadata(),
        OfferRequest::SetActions { dnd_actions: action(DND_COPY), preferred_action: action(DND_COPY | DND_MOVE) },
    );
    assert!(matches!(reply, OfferReply::Error(OfferError::InvalidAction)));
    assert_eq!(data.chosen_action, action(0));
}

#[test]
fn pointer_enters_moves_and_leaves() {
    let mut grab = ServerDnDGrab::new();
    let over_a = Some(Focus { surface: 5, client: Some(100) });
    let (actions, retired) = grab.motion(over_a, &devices());
    assert_eq!(
        actions,
        vec![GrabAction::Enter { device: 1, surface: 5 }, GrabAction::Enter { device: 3, surface: 5 }]
    );
    assert_eq!(retired, None);
    assert_eq!(grab.current_focus, Some(5));
    assert_eq!(grab.offer_data, Some(OfferData::new()));

    let (actions, retired) = grab.motion(over_a, &devices());
    assert_eq!(actions, vec![GrabAction::Motion { device: 1 }, GrabAction::Motion { device: 3 }]);
    assert_eq!(retired, None);

    let over_b = Some(Focus { surface: 6, client: Some(200) });
    let (actions, retired) = grab.motion(over_b, &devices());
    assert_eq!(
        actions,
        vec![
            GrabAction::Leave { device: 1 },
            GrabAction::Leave { device: 3 },
            GrabAction::Enter { device: 2, surface: 6 },
        ]
    );
    assert_eq!(retired, Some(OfferData { active: false, ..OfferData::new() }));
    assert_eq!(grab.current_focus, Some(6));

    let (actions, retired) = grab.motion(None, &devices());
    assert_eq!(actions, vec![GrabAction::Leave { device: 2 }]);
    assert!(retired.is_some());
    assert_eq!(grab, ServerDnDGrab::new());
    let (actions, _) = grab.motion(None, &devices());
    assert!(actions.is_empty());
}

#[test]
fn surface_of_a_dead_client_is_not_entered() {
    let mut grab = ServerDnDGrab::new();
    let (actions, _) = grab.motion(Some(Focus { surface: 5, client: None }), &devices());
    assert!(actions.is_empty());
    assert_eq!(grab.current_focus, None);
}

#[test]
fn drop_is_good_only_when_accepted_with_an_action() {
    let mut grab = ServerDnDGrab::new();
    grab.motion(Some(Focus { surface: 5, client: Some(100) }), &devices());
    assert!(grab.button(1, &devices()).is_none());
    let outcome = grab.button(0, &devices()).unwrap();
    assert!(!outcome.validated);
    assert_eq!(outcome.actions, vec![GrabAction::Leave { device: 1 }, GrabAction::Leave { device: 3 }]);
    assert!(!grab.offer_data.unwrap().active);

    let mut grab = ServerDnDGrab::new();
    grab.motion(Some(Focus { surface: 5, client: Some(100) }), &devices());
    let mut data = grab.offer_data.unwrap();
    data.handle_request(
        &metadata(),
        OfferRequest::SetActions { dnd_actions: action(DND_COPY), preferred_action: action(DND_COPY) },
    );
    grab.offer_data = Some(data);
    let outcome = grab.button(0, &devices()).unwrap();
    assert!(outcome.validated);
    assert_eq!(outcome.actions, vec![GrabAction::Drop { device: 1 }, GrabAction::Drop { device: 3 }]);
    let data = grab.offer_data.unwrap();
    assert!(data.dropped && data.active);

    let mut idle = ServerDnDGrab::new();
    let outcome = idle.button(0, &devices()).unwrap();
    assert!(!outcome.validated);
    assert!(outcome.actions.is_empty());
}
