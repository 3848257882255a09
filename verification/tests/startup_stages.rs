use panopticon::startup::{
    Action, Event, Stage, StartupError, EXIT_FAILURE, EXIT_OK, REQUIRED_CHANNELS,
};

const EVERY_EVENT: [Event; 9] = [
    Event::AudioReady,
    Event::AudioInitFailed,
    Event::MeterOpened,
    Event::NoDefaultDevice,
    Event::ActivationFailed,
    Event::ChannelsCounted(8),
    Event::ChannelsCounted(2),
    Event::ChannelsCounted(0),
    Event::WindowClosed,
];

fn run(events: &[Event]) -> Stage {
    events.iter().fold(Stage::start(), |stage, event| stage.advance(*event))
}

#[test]
fn a_run_with_eight_channels_reaches_the_render_loop() {
    let mut stage = Stage::start();
    assert_eq!(stage.pending(), Action::InitAudio);
    stage = stage.advance(Event::AudioReady);
    assert_eq!(stage.pending(), Action::OpenMeter);
    stage = stage.advance(Event::MeterOpened);
    assert_eq!(stage.pending(), Action::CountChannels);
    stage = stage.advance(Event::ChannelsCounted(8));
    assert_eq!(stage, Stage::Rendering);
    assert_eq!(stage.pending(), Action::RunRenderLoop);
    assert_eq!(stage.pending().exit_code(), None);
    stage = stage.advance(Event::WindowClosed);
    assert_eq!(stage, Stage::Finished);
    assert_eq!(stage.pending(), Action::Quit);
    assert_eq!(stage.pending().exit_code(), Some(0));
}

#[test]
fn stereo_device_is_refused() {
    let stage = run(&[Event::AudioReady, Event::MeterOpened, Event::ChannelsCounted(2)]);
    assert_eq!(stage, Stage::Failed(StartupError::ChannelCount(2)));
    assert_eq!(stage.pending(), Action::Fail(StartupError::ChannelCount(2)));
    assert_eq!(stage.pending().exit_code(), Some(1));
    assert_eq!(
        StartupError::ChannelCount(2).message(),
        "Expected 8 channels for 7.1 audio, found only 2"
    );
}

#[test]
fn surround_5_1_device_is_refused() {
    let stage = run(&[Event::AudioReady, Event::MeterOpened, Event::ChannelsCounted(6)]);
    assert_eq!(stage, Stage::Failed(StartupError::ChannelCount(6)));
    assert_eq!(stage.pending(), Action::Fail(StartupError::ChannelCount(6)));
    assert_eq!(stage.pending().exit_code(), Some(EXIT_FAILURE));
    assert_eq!(
        StartupError::ChannelCount(6).message(),
        "Expected 8 channels for 7.1 audio, found only 6"
    );
}

#[test]
fn no_other_channel_count_enters_the_render_loop() {
    assert_eq!(REQUIRED_CHANNELS, 8);
    for count in (0..=64).chain([255, 256, 65_535, u32::MAX]) {
        let stage = Stage::CountingChannels.advance(Event::ChannelsCounted(count));
        if count == 8 {
            assert_eq!(stage, Stage::Rendering);
        } else {
            assert_eq!(stage, Stage::Failed(StartupError::ChannelCount(count)));
            assert_ne!(stage.pending(), Action::RunRenderLoop);
            assert_eq!(stage.pending().exit_code(), Some(1));
        }
    }
}

#[test]
fn a_wrong_count_stays_refused_whatever_follows() {
    let failed = Stage::CountingChannels.advance(Event::ChannelsCounted(2));
    for first in EVERY_EVENT {
        for second in EVERY_EVENT {
            let stage = failed.advance(first).advance(second);
            assert_eq!(stage, Stage::Failed(StartupError::ChannelCount(2)));
            assert_eq!(stage.pending().exit_code(), Some(1));
        }
    }
}

#[test]
fn audio_initialisation_failure_ends_the_run() {
    let stage = run(&[Event::AudioInitFailed]);
    assert_eq!(stage, Stage::Failed(StartupError::AudioInit));
    assert_eq!(stage.pending(), Action::Fail(StartupError::AudioInit));
    assert_eq!(stage.pending().exit_code(), Some(1));
    assert_eq!(StartupError::AudioInit.message(), "audio subsystem initialization failed");
}

#[test]
fn missing_default_device_ends_the_run() {
    let stage = run(&[Event::AudioReady, Event::NoDefaultDevice]);
    assert_eq!(stage, Stage::Failed(StartupError::NoDefaultDevice));
    assert_eq!(stage.pending().exit_code(), Some(1));
    assert_eq!(StartupError::NoDefaultDevice.message(), "no default output device");
}

#[test]
fn failed_activation_ends_the_run() {
    let stage = run(&[Event::AudioReady, Event::ActivationFailed]);
    assert_eq!(stage, Stage::Failed(StartupError::ActivationFailed));
    assert_eq!(stage.pending().exit_code(), Some(1));
    assert_eq!(StartupError::ActivationFailed.message(), "activation failed");
}

#[test]
fn events_out_of_turn_change_nothing() {
    assert_eq!(Stage::start().advance(Event::ChannelsCounted(8)), Stage::InitializingAudio);
    assert_eq!(Stage::start().advance(Event::MeterOpened), Stage::InitializingAudio);
    assert_eq!(Stage::start().advance(Event::WindowClosed), Stage::InitializingAudio);
    assert_eq!(Stage::OpeningMeter.advance(Event::ChannelsCounted(8)), Stage::OpeningMeter);
    assert_eq!(Stage::OpeningMeter.advance(Event::AudioInitFailed), Stage::OpeningMeter);
    assert_eq!(Stage::CountingChannels.advance(Event::WindowClosed), Stage::CountingChannels);
    assert_eq!(Stage::CountingChannels.advance(Event::NoDefaultDevice), Stage::CountingChannels);
    assert_eq!(Stage::Rendering.advance(Event::ChannelsCounted(2)), Stage::Rendering);
    for event in EVERY_EVENT {
        assert_eq!(Stage::Finished.advance(event), Stage::Finished);
    }
}

#[test]
fn the_render_loop_is_entered_only_after_a_count_of_eight() {
    for first in EVERY_EVENT {
        for second in EVERY_EVENT {
            for third in EVERY_EVENT {
                let events = [first, second, third];
                let stage = run(&events);
                if stage == Stage::Rendering || stage == Stage::Finished {
                    assert!(events.contains(&Event::ChannelsCounted(8)));
                    assert_eq!(
                        events,
                        [Event::AudioReady, Event::MeterOpened, Event::ChannelsCounted(8)]
                    );
                }
            }
        }
    }
}

#[test]
fn exit_codes() {
    assert_eq!((EXIT_OK, EXIT_FAILURE), (0, 1));
    assert_eq!(Action::Quit.exit_code(), Some(0));
    assert_eq!(Action::Fail(StartupError::AudioInit).exit_code(), Some(1));
    assert_eq!(Action::Fail(StartupError::NoDefaultDevice).exit_code(), Some(1));
    assert_eq!(Action::Fail(StartupError::ActivationFailed).exit_code(), Some(1));
    assert_eq!(Action::Fail(StartupError::ChannelCount(7)).exit_code(), Some(1));
    assert_eq!(Action::InitAudio.exit_code(), None);
    assert_eq!(Action::OpenMeter.exit_code(), None);
    assert_eq!(Action::CountChannels.exit_code(), None);
    assert_eq!(Action::RunRenderLoop.exit_code(), None);
}

#[test]
fn the_count_is_written_in_decimal() {
    let prefix = "Expected 8 channels for 7.1 audio, found only ";
    for count in [0u32, 1, 7, 9, 10, 11, 99, 100, 101, 1000, 65_536, 4_294_967_295] {
        assert_eq!(StartupError::ChannelCount(count).message(), format!("{}{}", prefix, count));
    }
    assert_eq!(
        StartupError::ChannelCount(u32::MAX).message(),
        "Expected 8 channels for 7.1 audio, found only 4294967295"
    );
    assert_eq!(
        StartupError::ChannelCount(0).message(),
        "Expected 8 channels for 7.1 audio, found only 0"
    );
}
