use hit_it::channel::command_channel;
use hit_it::audio::{dispatch, web_action, Audio, SinkAction, WebAudioAction, LOAD, NONE, PAUSE, PLAY, SINK_1, SINK_2};

#[test]
fn load_queues_on_named_sink() {
    match dispatch((SINK_2, "karin.mp3".to_string(), LOAD)) {
        SinkAction::Load { path, target } => {
            assert_eq!(path, "karin.mp3");
            assert_eq!(target, Some(1));
        }
        _ => panic!("expected a load"),
    }
    match dispatch((7, "x.mp3".to_string(), LOAD)) {
        SinkAction::Load { path, target } => {
            assert_eq!(path, "x.mp3");
            assert_eq!(target, None);
        }
        _ => panic!("expected a load"),
    }
}

#[test]
fn play_and_pause_act_on_sinks() {
    assert!(matches!(dispatch((SINK_1, NONE.to_string(), PLAY)), SinkAction::Play { sink: 0 }));
    assert!(matches!(dispatch((SINK_2, NONE.to_string(), PAUSE)), SinkAction::Pause { sink: 1 }));
    assert!(matches!(dispatch((5, NONE.to_string(), PLAY)), SinkAction::Ignore));
    assert!(matches!(dispatch((SINK_1, NONE.to_string(), 9)), SinkAction::Ignore));
}

#[test]
fn browser_plays_and_pauses_elements() {
    assert!(matches!(web_action((SINK_1, "karin".to_string(), PLAY)), WebAudioAction::Play(n) if n == "karin"));
    assert!(matches!(web_action((9, "xepher".to_string(), PAUSE)), WebAudioAction::Pause(n) if n == "xepher"));
    assert!(matches!(web_action((SINK_1, "karin.mp3".to_string(), LOAD)), WebAudioAction::Ignore));
    // the sink is ignored
    assert!(matches!(web_action((SINK_2, "karin".to_string(), PLAY)), WebAudioAction::Play(n) if n == "karin"));
}

#[test]
fn commands_reach_the_audio_thread() {
    let (mut audio, rx) = Audio::new();
    assert!(audio.play((SINK_1, "karin".to_string(), PLAY)));
    assert_eq!(rx.recv().unwrap(), (SINK_1, "karin".to_string(), PLAY));
    drop(rx);
    assert!(!audio.play((SINK_1, "karin".to_string(), PAUSE)));
}

#[test]
fn commands_arrive_in_the_order_sent() {
    let (mut audio, rx) = Audio::new();
    assert!(audio.play((SINK_2, "xepher.mp3".to_string(), LOAD)));
    assert!(audio.play((SINK_2, "xepher".to_string(), PAUSE)));
    assert!(audio.play((SINK_1, NONE.to_string(), PLAY)));
    assert_eq!(rx.recv().unwrap(), (SINK_2, "xepher.mp3".to_string(), LOAD));
    assert_eq!(rx.recv().unwrap(), (SINK_2, "xepher".to_string(), PAUSE));
    assert_eq!(rx.recv().unwrap(), (SINK_1, String::new(), PLAY));
    drop(audio);
    assert!(rx.recv().is_err());
}

#[test]
fn a_new_command_channel_is_empty() {
    let (tx, rx) = command_channel();
    assert!(rx.try_recv().is_err());
    drop(tx);
    assert!(rx.recv().is_err());
}
