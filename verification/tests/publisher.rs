use keyprod::kbd_event::{KbdEvent, KbdKeyState};
use keyprod::keycode::Keycode;
use keyprod::publisher::{retain_open, DefaultKeyboardEventPublisher, SendOutcome};
use keyprod::Event;

fn press() -> KbdEvent {
    KbdEvent { code: Keycode::KEY_A, state: KbdKeyState::Pressed }
}

#[test]
fn retain_keeps_order_and_drops_closed() {
    assert_eq!(retain_open(vec![1, 2, 3, 4], &vec![SendOutcome::Sent, SendOutcome::Closed, SendOutcome::Full, SendOutcome::Closed]), vec![1, 3]);
    assert_eq!(retain_open(Vec::<u8>::new(), &vec![]), vec![]);
    assert_eq!(retain_open(vec!['a', 'b'], &vec![SendOutcome::Closed, SendOutcome::Closed]), Vec::<char>::new());
}

#[test]
fn publisher_forgets_closed_plugins() {
    let (tx1, mut rx1) = tokio::sync::mpsc::channel::<Event>(8);
    let (tx2, rx2) = tokio::sync::mpsc::channel::<Event>(8);
    let (tx3, mut rx3) = tokio::sync::mpsc::channel::<Event>(1);
    drop(rx2);
    let mut publisher = DefaultKeyboardEventPublisher::new(vec![tx1, tx2, tx3]);

    assert!(publisher.publish(press()));
    // The third channel is full now: the plugin misses the event but stays.
    assert!(publisher.publish(press()));
    assert!(!publisher.is_empty());
    assert_eq!(rx1.try_recv(), Ok(Event::KeyEvent(press())));
    assert_eq!(rx1.try_recv(), Ok(Event::KeyEvent(press())));
    assert_eq!(rx3.try_recv(), Ok(Event::KeyEvent(press())));
    assert!(rx3.try_recv().is_err());

    publisher.send_to_all(Event::PluginStop);
    assert_eq!(rx1.try_recv(), Ok(Event::PluginStop));
    assert_eq!(rx3.try_recv(), Ok(Event::PluginStop));

    drop(rx1);
    drop(rx3);
    assert!(!publisher.publish(press()));
    assert!(publisher.is_empty());
}
