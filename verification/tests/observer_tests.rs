use telegram_tdlib::client::observer::Observer;
use telegram_tdlib::errors::RTDError;
use telegram_tdlib::types::remote_file::RemoteFile;
use telegram_tdlib::types::td_type::TdType;

fn file_event(extra: Option<String>, file_id: &str) -> TdType {
    TdType::RemoteFile(RemoteFile {
        td_name: String::from("remoteFile"),
        extra,
        id: String::from(file_id),
        unique_id: String::new(),
        is_uploading_active: false,
        is_uploading_completed: false,
        uploaded_size: 0,
    })
}

#[test]
fn register_notify_take_delivers_exactly_once() {
    let mut observer = Observer::new();
    let id = String::from("corr-1");
    assert!(observer.register(&id).is_ok());

    let event = file_event(Some(id.clone()), "f1");
    let back = observer.notify(event.clone());
    assert!(back.is_none(), "a matching event must be consumed");

    let got = observer.take(&id);
    assert_eq!(got, Some(event));
    assert_eq!(observer.take(&id), None, "a second take must find nothing");
}

#[test]
fn notify_returns_uncorrelated_event_unconsumed() {
    let mut observer = Observer::new();
    let event = file_event(None, "f2");
    let back = observer.notify(event.clone());
    assert_eq!(back, Some(event));
}

#[test]
fn notify_returns_event_with_unknown_id_unconsumed() {
    let mut observer = Observer::new();
    let id = String::from("registered");
    assert!(observer.register(&id).is_ok());
    let event = file_event(Some(String::from("someone-else")), "f3");
    let back = observer.notify(event.clone());
    assert_eq!(back, Some(event));
}

#[test]
fn second_registration_of_pending_id_fails() {
    let mut observer = Observer::new();
    let id = String::from("dup");
    assert!(observer.register(&id).is_ok());
    assert_eq!(observer.register(&id), Err(RTDError::DuplicateRegistration));
}

#[test]
fn registration_is_free_again_after_fulfillment_and_take() {
    let mut observer = Observer::new();
    let id = String::from("reuse");
    assert!(observer.register(&id).is_ok());
    assert!(observer.notify(file_event(Some(id.clone()), "f4")).is_none());
    assert!(observer.take(&id).is_some());
    assert!(observer.register(&id).is_ok());
}

#[test]
fn unregister_abandons_the_waiter() {
    let mut observer = Observer::new();
    let id = String::from("gone");
    assert!(observer.register(&id).is_ok());
    observer.unregister(&id);
    let event = file_event(Some(id.clone()), "f5");
    assert_eq!(observer.notify(event.clone()), Some(event));
    assert!(observer.register(&id).is_ok());
}

#[test]
fn distinct_waiters_each_get_their_own_event() {
    let id1 = String::from("alpha");
    let id2 = String::from("beta");
    let e1 = file_event(Some(id1.clone()), "own-1");
    let e2 = file_event(Some(id2.clone()), "own-2");

    // Fulfilment in registration order.
    let mut observer = Observer::new();
    assert!(observer.register(&id1).is_ok());
    assert!(observer.register(&id2).is_ok());
    assert!(observer.notify(e1.clone()).is_none());
    assert!(observer.notify(e2.clone()).is_none());
    assert_eq!(observer.take(&id1), Some(e1.clone()));
    assert_eq!(observer.take(&id2), Some(e2.clone()));

    // Fulfilment in the opposite order.
    let mut observer = Observer::new();
    assert!(observer.register(&id1).is_ok());
    assert!(observer.register(&id2).is_ok());
    assert!(observer.notify(e2.clone()).is_none());
    assert!(observer.notify(e1.clone()).is_none());
    assert_eq!(observer.take(&id1), Some(e1));
    assert_eq!(observer.take(&id2), Some(e2));
}

#[test]
fn three_waiters_with_shuffled_replies_never_cross() {
    let ids = [String::from("w1"), String::from("w2"), String::from("w3")];
    let events: Vec<_> = ids
        .iter()
        .enumerate()
        .map(|(n, id)| file_event(Some(id.clone()), &format!("payload-{}", n)))
        .collect();

    let mut observer = Observer::new();
    for id in &ids {
        assert!(observer.register(id).is_ok());
    }
    // Replies arrive in an order unrelated to registration order.
    assert!(observer.notify(events[2].clone()).is_none());
    assert!(observer.notify(events[0].clone()).is_none());
    assert!(observer.notify(events[1].clone()).is_none());

    for (n, id) in ids.iter().enumerate() {
        assert_eq!(observer.take(id), Some(events[n].clone()));
        assert_eq!(observer.take(id), None);
    }
}

#[test]
fn take_without_delivery_finds_nothing() {
    let mut observer = Observer::new();
    let id = String::from("empty-slot");
    assert!(observer.register(&id).is_ok());
    assert_eq!(observer.take(&id), None);
}
