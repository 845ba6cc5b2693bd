use observer_plugin::dispatch::{is_targeted, Reaction};
use observer_plugin::event_loop::{
    Action, EventLoop, Inbound, Input, Note, Phase, PublishFailure, StartupFailure,
};
use observer_plugin::events::{subscriptions, Announcement, AnnouncementKind, Decoded, Variant};
use observer_plugin::identity::ObserverPlugin;

const ID: u128 = 0xa1a2a3a4b1b2c1c2d1d2d3d4d5d6d7d8;

fn plugin() -> ObserverPlugin {
    ObserverPlugin::with_identity(String::from("ObserverPlugin"), ID)
}

fn event(tag: Option<&str>, target: Option<&str>) -> Decoded {
    Decoded { tag: tag.map(String::from), target: target.map(String::from) }
}

fn running_loop() -> EventLoop {
    let mut lp = EventLoop::new(plugin());
    assert_eq!(lp.next(Input::Published(Ok(()))), Note::Started);
    assert_eq!(lp.phase(), Phase::Running);
    lp
}

#[test]
fn here_i_am() {
    println!("file test: observer.rs");
}

#[test]
fn new_plugin_has_its_name_and_a_v4_id() {
    let p = ObserverPlugin::new();
    assert_eq!(p.get_name(), "ObserverPlugin");
    let id = p.get_id();
    assert_eq!((id >> 76) & 0xf, 4);
    assert_eq!((id >> 62) & 0x3, 2);
}

#[test]
fn identity_is_the_same_on_every_query() {
    let p = ObserverPlugin::new();
    assert_eq!(p.get_id(), p.get_id());
    assert_eq!(p.get_name(), p.get_name());
    let q = plugin();
    assert_eq!(q.get_id(), ID);
    let mut lp = EventLoop::new(q);
    lp.next(Input::Published(Ok(())));
    lp.next(Input::Received(Inbound::Malformed(String::from("bad"))));
    assert_eq!(lp.plugin().get_id(), ID);
    assert_eq!(lp.plugin().get_name(), "ObserverPlugin");
}

#[test]
fn id_text_is_hyphenated_lower_case() {
    assert_eq!(plugin().id_text(), "a1a2a3a4-b1b2-c1c2-d1d2-d3d4d5d6d7d8");
    let p = ObserverPlugin::with_identity(String::from("p"), 0xABCDEF);
    assert_eq!(p.id_text(), "00000000-0000-0000-0000-000000abcdef");
}

#[test]
fn subscriptions_name_every_known_kind() {
    let subs = plugin().get_subscriptions();
    assert_eq!(subs, subscriptions());
    assert_eq!(
        subs,
        vec![
            Variant::NewImage,
            Variant::ImageReceived,
            Variant::ImageScored,
            Variant::ImageStored,
            Variant::ImageDeleted,
            Variant::PluginTerminate,
            Variant::PluginTerminating,
            Variant::PluginStarted,
        ]
    );
    for v in subs {
        assert_eq!(Variant::from_tag(&v.tag()), Some(v));
    }
}

#[test]
fn tags_round_trip() {
    assert_eq!(Variant::NewImage.tag(), "NewImageEvent");
    assert_eq!(Variant::PluginTerminate.tag(), "PluginTerminateEvent");
    assert_eq!(Variant::from_tag(&String::from("ImageStoredEvent")), Some(Variant::ImageStored));
    assert_eq!(Variant::from_tag(&String::from("imagestoredevent")), None);
    assert_eq!(Variant::from_tag(&String::new()), None);
}

#[test]
fn targeting_check() {
    let name = String::from("ObserverPlugin");
    assert!(is_targeted(&String::from("ObserverPlugin"), &name));
    assert!(is_targeted(&String::from("*"), &name));
    assert!(!is_targeted(&String::from("OtherPlugin"), &name));
    assert!(!is_targeted(&String::from(""), &name));
}

#[test]
fn dispatch_table() {
    let p = plugin();
    assert_eq!(
        p.dispatch(&event(Some("ImageScoredEvent"), None)),
        (Reaction::Record(Variant::ImageScored), false)
    );
    assert_eq!(p.dispatch(&event(None, None)), (Reaction::NoVariant, false));
    assert_eq!(
        p.dispatch(&event(Some("SomethingElse"), None)),
        (Reaction::NotHandled(String::from("SomethingElse")), false)
    );
    assert_eq!(
        p.dispatch(&event(Some("PluginTerminateEvent"), Some("ObserverPlugin"))),
        (Reaction::Record(Variant::PluginTerminate), true)
    );
    assert_eq!(
        p.dispatch(&event(Some("PluginTerminateEvent"), Some("*"))),
        (Reaction::Record(Variant::PluginTerminate), true)
    );
    assert_eq!(
        p.dispatch(&event(Some("PluginTerminateEvent"), Some("Other"))),
        (Reaction::Record(Variant::PluginTerminate), false)
    );
    assert_eq!(
        p.dispatch(&event(Some("PluginTerminateEvent"), None)),
        (Reaction::Record(Variant::PluginTerminate), false)
    );
    assert_eq!(
        p.dispatch(&event(Some("PluginTerminatingEvent"), Some("*"))),
        (Reaction::Record(Variant::PluginTerminating), false)
    );
}

#[test]
fn startup_announcement_comes_before_receiving() {
    let mut lp = EventLoop::new(plugin());
    assert_eq!(lp.phase(), Phase::Starting);
    assert_eq!(
        lp.pending(),
        Action::Publish(Announcement {
            kind: AnnouncementKind::Started,
            id: ID,
            name: String::from("ObserverPlugin"),
        })
    );
    assert_eq!(lp.next(Input::Published(Ok(()))), Note::Started);
    assert_eq!(lp.pending(), Action::Receive);
}

#[test]
fn startup_failure_stops_before_the_loop() {
    let mut lp = EventLoop::new(plugin());
    let note = lp.next(Input::Published(Err(PublishFailure::Send(String::from("no route")))));
    assert_eq!(note, Note::StartupFailed(PublishFailure::Send(String::from("no route"))));
    assert_eq!(lp.phase(), Phase::Stopped);
    assert_eq!(lp.pending(), Action::Exit);
    assert_eq!(
        lp.finish(),
        Err(StartupFailure {
            name: String::from("ObserverPlugin"),
            id: String::from("a1a2a3a4-b1b2-c1c2-d1d2-d3d4d5d6d7d8"),
            reason: PublishFailure::Send(String::from("no route")),
        })
    );
}

#[test]
fn startup_encode_failure_is_reported() {
    let mut lp = EventLoop::new(plugin());
    lp.next(Input::Published(Err(PublishFailure::Encode(String::from("too big")))));
    match lp.finish() {
        Err(f) => assert_eq!(f.reason, PublishFailure::Encode(String::from("too big"))),
        Ok(()) => panic!("startup failure was lost"),
    }
}

#[test]
fn malformed_payload_is_dropped_and_loop_goes_on() {
    let mut lp = running_loop();
    let note = lp.next(Input::Received(Inbound::Malformed(String::from("empty payload"))));
    assert_eq!(note, Note::Malformed(String::from("empty payload")));
    assert_eq!(lp.phase(), Phase::Running);
    let note = lp.next(Input::Received(Inbound::Event(event(Some("NewImageEvent"), None))));
    assert_eq!(note, Note::Handled(Reaction::Record(Variant::NewImage)));
    assert_eq!(lp.phase(), Phase::Running);
    assert_eq!(lp.pending(), Action::Receive);
}

#[test]
fn receive_error_is_noted_and_loop_goes_on() {
    let mut lp = running_loop();
    let note = lp.next(Input::Received(Inbound::RecvFailed(String::from("interrupted"))));
    assert_eq!(note, Note::RecvFailed(String::from("interrupted")));
    assert_eq!(lp.phase(), Phase::Running);
}

#[test]
fn unknown_variant_is_tolerated() {
    let mut lp = running_loop();
    let note = lp.next(Input::Received(Inbound::Event(event(Some("MysteryEvent"), Some("*")))));
    assert_eq!(note, Note::Handled(Reaction::NotHandled(String::from("MysteryEvent"))));
    assert_eq!(lp.phase(), Phase::Running);
    let note = lp.next(Input::Received(Inbound::Event(event(None, None))));
    assert_eq!(note, Note::Handled(Reaction::NoVariant));
    assert_eq!(lp.phase(), Phase::Running);
    let note = lp.next(Input::Received(Inbound::Event(event(Some("ImageDeletedEvent"), None))));
    assert_eq!(note, Note::Handled(Reaction::Record(Variant::ImageDeleted)));
}

#[test]
fn request_for_another_plugin_is_ignored() {
    let mut lp = running_loop();
    lp.next(Input::Received(Inbound::Event(event(Some("PluginTerminateEvent"), Some("Other")))));
    assert_eq!(lp.phase(), Phase::Running);
}

#[test]
fn self_targeted_termination_announces_once_and_exits() {
    let mut lp = running_loop();
    let note = lp.next(Input::Received(Inbound::Event(event(
        Some("PluginTerminateEvent"),
        Some("ObserverPlugin"),
    ))));
    assert_eq!(note, Note::Handled(Reaction::Record(Variant::PluginTerminate)));
    assert_eq!(lp.phase(), Phase::Terminating);
    assert_eq!(
        lp.pending(),
        Action::Publish(Announcement {
            kind: AnnouncementKind::Terminating,
            id: ID,
            name: String::from("ObserverPlugin"),
        })
    );
    assert_eq!(lp.next(Input::Published(Ok(()))), Note::Terminated);
    assert_eq!(lp.phase(), Phase::Stopped);
    assert_eq!(lp.pending(), Action::Exit);
    assert_eq!(lp.finish(), Ok(()));
}

#[test]
fn wildcard_termination_exits_even_if_announcement_fails() {
    let mut lp = running_loop();
    lp.next(Input::Received(Inbound::Event(event(Some("PluginTerminateEvent"), Some("*")))));
    assert_eq!(lp.phase(), Phase::Terminating);
    let note = lp.next(Input::Published(Err(PublishFailure::Send(String::from("closed")))));
    assert_eq!(note, Note::ShutdownUnannounced(PublishFailure::Send(String::from("closed"))));
    assert_eq!(lp.phase(), Phase::Stopped);
    assert_eq!(lp.pending(), Action::Exit);
    assert_eq!(lp.finish(), Ok(()));
}
