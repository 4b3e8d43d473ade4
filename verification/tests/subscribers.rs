use keyprod::kbd_events::{select_keyboard_devices, DeviceFile, DeviceProperties};
use keyprod::subscribers::{KeyboardEventSubscriberFactory, SubscriberArgs, SubscriberSpec};

fn args(names: &[&str], state_dir: &str) -> SubscriberArgs {
    SubscriberArgs {
        subscribers: names.iter().map(|s| s.to_string()).collect(),
        state_dir: state_dir.to_string(),
    }
}

#[test]
fn subscribers_by_name() {
    let a = args(&[], "/tmp/state");
    let _factory = KeyboardEventSubscriberFactory::new();
    assert_eq!(KeyboardEventSubscriberFactory::create_subscriber("echo", &a), Some(SubscriberSpec::Echo));
    assert_eq!(
        KeyboardEventSubscriberFactory::create_subscriber("history", &a),
        Some(SubscriberSpec::History { db_path: "/tmp/state/history.db".to_string() })
    );
    assert_eq!(KeyboardEventSubscriberFactory::create_subscriber("logger", &a), None);
}

#[test]
fn unknown_subscribers_are_left_out() {
    let a = args(&["history", "nope", "echo", "echo"], "state");
    assert_eq!(
        KeyboardEventSubscriberFactory::create_subscribers(&a),
        vec![
            SubscriberSpec::History { db_path: "state/history.db".to_string() },
            SubscriberSpec::Echo,
            SubscriberSpec::Echo,
        ]
    );
    assert!(KeyboardEventSubscriberFactory::create_subscribers(&args(&["x"], "s")).is_empty());
}

#[test]
fn keyboards_among_devices() {
    let dev = |id: Option<&str>, name: Option<&str>| DeviceProperties {
        id_input_keyboard: id.map(|s| s.to_string()),
        devname: name.map(|s| s.to_string()),
    };
    let devices = vec![
        dev(Some("1"), Some("/dev/input/event3")),
        dev(Some("0"), Some("/dev/input/event4")),
        dev(None, Some("/dev/input/event5")),
        dev(Some("1"), None),
        dev(Some("1"), Some("/dev/input/event7")),
    ];
    let files: Vec<String> =
        select_keyboard_devices(&devices).iter().map(|d| d.path().to_string()).collect();
    assert_eq!(files, vec!["/dev/input/event3".to_string(), "/dev/input/event7".to_string()]);
    assert_eq!(DeviceFile::new("/dev/input/event0".to_string()).path(), "/dev/input/event0");
}
