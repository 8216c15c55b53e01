use eucalyptus::volume::{
    level_icon, AudioMessage, Config, Face, Message, State, Task, Volume, ICON_HIGH, ICON_LOW,
    ICON_MUTED, ICON_SILENT,
};

fn widget() -> Volume<f32> {
    let command = vec!["pavucontrol".to_string(), "-t".to_string(), "3".to_string()];
    let (volume, task) = Volume::new(&Config { settings_command: Some(command) });
    assert!(matches!(task, Task::Nothing));
    volume
}

fn tell(volume: &mut Volume<f32>, message: Message<f32>) {
    assert!(matches!(volume.update(message), Task::Nothing));
}

#[test]
fn a_new_widget_knows_nothing() {
    let volume = widget();
    assert!(matches!(volume.state, State::Listening { volume: None, mute: None }));
    assert!(matches!(volume.view().content, Face::Text("?")));
    assert!(volume.subscription());
}

#[test]
fn news_are_shown() {
    let mut volume = widget();
    tell(&mut volume, Message::NewVolume(Some(0.5)));
    assert!(matches!(volume.view().content, Face::Level(level) if level == 0.5));
    tell(&mut volume, Message::NewMute(Some(true)));
    assert!(matches!(volume.view().content, Face::Icon(ICON_MUTED)));
    tell(&mut volume, Message::NewMute(Some(false)));
    assert!(matches!(volume.view().content, Face::Level(level) if level == 0.5));
    tell(&mut volume, Message::NewVolumeAndMute(None, Some(false)));
    assert!(matches!(volume.view().content, Face::Text("?")));
    tell(&mut volume, Message::NewVolumeAndMute(Some(0.25), Some(true)));
    assert!(matches!(volume.view().content, Face::Icon(ICON_MUTED)));
    tell(&mut volume, Message::NewMute(None));
    assert!(matches!(volume.view().content, Face::Level(level) if level == 0.25));
    tell(&mut volume, Message::NewVolumeAndMute(None, Some(true)));
    assert!(matches!(volume.view().content, Face::Icon(ICON_MUTED)));
}

#[test]
fn a_press_asks_for_the_settings_whatever_is_shown() {
    let mut volume = widget();
    for message in [
        Message::NewMute(None),
        Message::NewMute(Some(true)),
        Message::NewVolumeAndMute(Some(0.5), Some(false)),
        Message::Error("no sound".to_string()),
    ] {
        tell(&mut volume, message);
        let area = volume.view();
        assert!(area.padded);
        let press = area.on_press;
        assert!(matches!(press, Message::LaunchSettings));
        assert!(matches!(volume.update(press), Task::SpawnDetached { .. }));
    }
    assert!(matches!(volume.view().content, Face::Text("no sound")));
}

#[test]
fn an_error_is_final() {
    let mut volume = widget();
    tell(&mut volume, Message::NewVolumeAndMute(Some(0.25), Some(true)));
    tell(&mut volume, Message::Error("no sound".to_string()));
    assert!(matches!(volume.view().content, Face::Text("no sound")));
    assert!(!volume.subscription());
    tell(&mut volume, Message::NewVolume(Some(1.0)));
    tell(&mut volume, Message::NewMute(Some(true)));
    tell(&mut volume, Message::NewVolumeAndMute(Some(1.0), Some(false)));
    assert!(matches!(volume.view().content, Face::Text("no sound")));
    tell(&mut volume, Message::Error("gone".to_string()));
    assert!(matches!(volume.view().content, Face::Text("gone")));
    assert!(!volume.subscription());
}

#[test]
fn a_click_starts_the_settings() {
    let mut volume = widget();
    for _ in 0..2 {
        match volume.update(Message::LaunchSettings) {
            Task::SpawnDetached { command, source } => {
                assert_eq!(command, ["pavucontrol", "-t", "3"]);
                assert_eq!(source, "widget.volume.settings_command");
            }
            other => panic!("{other:?}"),
        }
        tell(&mut volume, Message::Error("no sound".to_string()));
    }
    assert!(matches!(volume.view().content, Face::Text("no sound")));
}

#[test]
fn a_click_without_settings_starts_nothing() {
    let config = Config::default();
    assert!(config.settings_command.is_none());
    let (mut volume, _) = Volume::<f32>::new(&config);
    assert!(matches!(volume.update(Message::LaunchSettings), Task::Nothing));
    assert!(matches!(volume.state, State::Listening { volume: None, mute: None }));
}

#[test]
fn what_is_heard_is_told() {
    assert!(matches!(
        Message::heard(AudioMessage::NewVolume(Some(1u8))),
        Message::NewVolume(Some(1))
    ));
    assert!(matches!(
        Message::<u8>::heard(AudioMessage::NewMute(Some(true))),
        Message::NewMute(Some(true))
    ));
    assert!(matches!(
        Message::heard(AudioMessage::NewVolumeAndMute(Some(2u8), None)),
        Message::NewVolumeAndMute(Some(2), None)
    ));
    match Message::<u8>::heard(AudioMessage::Error("x".to_string())) {
        Message::Error(e) => assert_eq!(e, "x"),
        other => panic!("{other:?}"),
    }
}

#[test]
fn pictures_of_a_level() {
    assert_eq!(level_icon(true, true), ICON_SILENT);
    assert_eq!(level_icon(false, true), ICON_LOW);
    assert_eq!(level_icon(false, false), ICON_HIGH);
    assert_eq!(
        [ICON_MUTED, ICON_SILENT, ICON_LOW, ICON_HIGH],
        ['\u{e04f}', '\u{e04e}', '\u{e04d}', '\u{e050}']
    );
}
