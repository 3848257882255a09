//! Bringing the display up: which outside step comes next, and when to give up.
//!
//! The program around this library does the outside work (initialising the audio
//! subsystem, opening the meter of the default output device, counting its
//! channels, running the render loop) and reports back what happened. The stage
//! kept here decides what is done next. Every failure is final.

use vstd::prelude::*;
use vstd::string::StringExecFns;

verus! {

/// Number of channels the meter must report for the display to start.
pub const REQUIRED_CHANNELS: u32 = 8;

/// Exit code of a run that ended because the window was closed.
pub const EXIT_OK: i32 = 0;

/// Exit code of a run that could not start.
pub const EXIT_FAILURE: i32 = 1;

/// Why the display could not start.
#[derive(Clone, Copy, Debug, PartialEq, Eq, Structural)]
pub enum StartupError {
    /// The audio subsystem could not be initialised.
    AudioInit,
    /// There is no default output device.
    NoDefaultDevice,
    /// The meter of the default output device could not be activated.
    ActivationFailed,
    /// The meter reports this many channels, not eight.
    ChannelCount(u32),
}

/// What the outside work reports back.
#[derive(Clone, Copy, Debug, PartialEq, Eq, Structural)]
pub enum Event {
    AudioReady,
    AudioInitFailed,
    MeterOpened,
    NoDefaultDevice,
    ActivationFailed,
    ChannelsCounted(u32),
    WindowClosed,
}

/// The outside work to do next.
#[derive(Clone, Copy, Debug, PartialEq, Eq, Structural)]
pub enum Action {
    /// Initialise the audio subsystem.
    InitAudio,
    /// Open the meter of the default output device.
    OpenMeter,
    /// Ask the meter for its number of channels.
    CountChannels,
    /// Build the geometry and run the render loop until the window is closed.
    RunRenderLoop,
    /// Show the error's message and end the process with `EXIT_FAILURE`.
    Fail(StartupError),
    /// End the process with `EXIT_OK`.
    Quit,
}

/// How far the start has come.
#[derive(Clone, Copy, Debug, PartialEq, Eq, Structural)]
pub enum Stage {
    InitializingAudio,
    OpeningMeter,
    CountingChannels,
    Rendering,
    Finished,
    Failed(StartupError),
}

impl Stage {
    /// The stage a run begins in.
    pub open spec fn spec_start() -> Stage {
        Stage::InitializingAudio
    }

    /// The stage a run begins in.
    #[verifier::when_used_as_spec(spec_start)]
    pub fn start() -> (stage: Stage)
        ensures
            stage == Stage::spec_start(),
    {
        Stage::InitializingAudio
    }

    /// The outside work that this stage waits for.
    pub open spec fn spec_pending(self) -> Action {
        match self {
            Stage::InitializingAudio => Action::InitAudio,
            Stage::OpeningMeter => Action::OpenMeter,
            Stage::CountingChannels => Action::CountChannels,
            Stage::Rendering => Action::RunRenderLoop,
            Stage::Finished => Action::Quit,
            Stage::Failed(error) => Action::Fail(error),
        }
    }

    /// The outside work that this stage waits for.
    #[verifier::when_used_as_spec(spec_pending)]
    pub fn pending(self) -> (action: Action)
        ensures
            action == self.spec_pending(),
    {
        match self {
            Stage::InitializingAudio => Action::InitAudio,
            Stage::OpeningMeter => Action::OpenMeter,
            Stage::CountingChannels => Action::CountChannels,
            Stage::Rendering => Action::RunRenderLoop,
            Stage::Finished => Action::Quit,
            Stage::Failed(error) => Action::Fail(error),
        }
    }

    /// The stage after `event`. An event that the stage does not wait for changes
    /// nothing.
    pub open spec fn spec_advance(self, event: Event) -> Stage {
        match (self, event) {
            (Stage::InitializingAudio, Event::AudioReady) => Stage::OpeningMeter,
            (Stage::InitializingAudio, Event::AudioInitFailed) => Stage::Failed(
                StartupError::AudioInit,
            ),
            (Stage::OpeningMeter, Event::MeterOpened) => Stage::CountingChannels,
            (Stage::OpeningMeter, Event::NoDefaultDevice) => Stage::Failed(
                StartupError::NoDefaultDevice,
            ),
            (Stage::OpeningMeter, Event::ActivationFailed) => Stage::Failed(
                StartupError::ActivationFailed,
            ),
            (Stage::CountingChannels, Event::ChannelsCounted(count)) => if count
                == REQUIRED_CHANNELS {
                Stage::Rendering
            } else {
                Stage::Failed(StartupError::ChannelCount(count))
            },
            (Stage::Rendering, Event::WindowClosed) => Stage::Finished,
            _ => self,
        }
    }

    /// The stage after `event`.
    #[verifier::when_used_as_spec(spec_advance)]
    pub fn advance(self, event: Event) -> (next: Stage)
        ensures
            next == self.spec_advance(event),
            next is Rendering <==> (self is Rendering && event != Event::WindowClosed) || (self
                is CountingChannels && event == Event::ChannelsCounted(8)),
            self is CountingChannels ==> forall|count: u32|
                count != 8 && event == Event::ChannelsCounted(count) ==> next == Stage::Failed(
                    StartupError::ChannelCount(count),
                ),
            self is Failed ==> next == self,
    {
        match (self, event) {
            (Stage::InitializingAudio, Event::AudioReady) => Stage::OpeningMeter,
            (Stage::InitializingAudio, Event::AudioInitFailed) => Stage::Failed(
                StartupError::AudioInit,
            ),
            (Stage::OpeningMeter, Event::MeterOpened) => Stage::CountingChannels,
            (Stage::OpeningMeter, Event::NoDefaultDevice) => Stage::Failed(
                StartupError::NoDefaultDevice,
            ),
            (Stage::OpeningMeter, Event::ActivationFailed) => Stage::Failed(
                StartupError::ActivationFailed,
            ),
            (Stage::CountingChannels, Event::ChannelsCounted(count)) => {
                if count == REQUIRED_CHANNELS {
                    Stage::Rendering
                } else {
                    Stage::Failed(StartupError::ChannelCount(count))
                }
            },
            (Stage::Rendering, Event::WindowClosed) => Stage::Finished,
            _ => self,
        }
    }

    /// The stage reached from this one after all of `events`, in order.
    pub open spec fn after(self, events: Seq<Event>) -> Stage
        decreases events.len(),
    {
        if events.len() == 0 {
            self
        } else {
            self.after(events.drop_last()).advance(events.last())
        }
    }
}

/// The decimal digit for `value`, which is below ten.
pub open spec fn digit(value: nat) -> char {
    if value == 0 {
        '0'
    } else if value == 1 {
        '1'
    } else if value == 2 {
        '2'
    } else if value == 3 {
        '3'
    } else if value == 4 {
        '4'
    } else if value == 5 {
        '5'
    } else if value == 6 {
        '6'
    } else if value == 7 {
        '7'
    } else if value == 8 {
        '8'
    } else {
        '9'
    }
}

/// The decimal numeral of `value`, without leading zeros.
pub open spec fn decimal(value: nat) -> Seq<char>
    decreases value,
{
    if value < 10 {
        seq![digit(value)]
    } else {
        decimal(value / 10).push(digit(value % 10))
    }
}

/// The decimal digit for `value` as text.
fn digit_text(value: u32) -> (text: &'static str)
    requires
        value < 10,
    ensures
        text@ == seq![digit(value as nat)],
{
    proof {
        reveal_strlit("0");
        reveal_strlit("1");
        reveal_strlit("2");
        reveal_strlit("3");
        reveal_strlit("4");
        reveal_strlit("5");
        reveal_strlit("6");
        reveal_strlit("7");
        reveal_strlit("8");
        reveal_strlit("9");
    }
    let text = match value {
        0 => "0",
        1 => "1",
        2 => "2",
        3 => "3",
        4 => "4",
        5 => "5",
        6 => "6",
        7 => "7",
        8 => "8",
        _ => "9",
    };
    assert(text@ =~= seq![digit(value as nat)]);
    text
}

/// Appends the decimal numeral of `value` to `text`.
fn append_decimal(text: &mut String, value: u32)
    ensures
        final(text)@ == old(text)@ + decimal(value as nat),
    decreases value,
{
    if value >= 10 {
        append_decimal(text, value / 10);
    }
    text.append(digit_text(value % 10));
    assert(text@ =~= old(text)@ + decimal(value as nat));
}

impl StartupError {
    /// The message shown to the user before the process ends.
    pub open spec fn spec_message(self) -> Seq<char> {
        match self {
            StartupError::AudioInit => "audio subsystem initialization failed"@,
            StartupError::NoDefaultDevice => "no default output device"@,
            StartupError::ActivationFailed => "activation failed"@,
            StartupError::ChannelCount(count) =>
                "Expected 8 channels for 7.1 audio, found only "@ + decimal(count as nat),
        }
    }

    /// The message shown to the user before the process ends.
    pub fn message(self) -> (text: String)
        ensures
            text@ == self.spec_message(),
    {
        match self {
            StartupError::AudioInit => String::from_str("audio subsystem initialization failed"),
            StartupError::NoDefaultDevice => String::from_str("no default output device"),
            StartupError::ActivationFailed => String::from_str("activation failed"),
            StartupError::ChannelCount(count) => {
                let mut text = String::from_str("Expected 8 channels for 7.1 audio, found only ");
                append_decimal(&mut text, count);
                text
            },
        }
    }
}

impl Action {
    /// The code the process ends with, for the two actions that end it.
    pub open spec fn spec_exit_code(self) -> Option<i32> {
        match self {
            Action::Fail(_) => Some(EXIT_FAILURE),
            Action::Quit => Some(EXIT_OK),
            _ => None,
        }
    }

    /// The code the process ends with, for the two actions that end it.
    #[verifier::when_used_as_spec(spec_exit_code)]
    pub fn exit_code(self) -> (code: Option<i32>)
        ensures
            code == self.spec_exit_code(),
            self is Fail ==> code == Some(1i32),
    {
        match self {
            Action::Fail(_) => Some(EXIT_FAILURE),
            Action::Quit => Some(EXIT_OK),
            _ => None,
        }
    }
}

/// A failure is final: whatever is reported afterwards, the stage stays failed with
/// the same error.
pub proof fn lemma_failure_is_final(error: StartupError, events: Seq<Event>)
    ensures
        Stage::Failed(error).after(events) == Stage::Failed(error),
    decreases events.len(),
{
    if events.len() > 0 {
        lemma_failure_is_final(error, events.drop_last());
    }
}

/// A meter with a channel count other than eight ends the run: the stage fails with
/// that count, the pending action is to fail with exit code 1, and no later event
/// leads into the render loop.
pub proof fn lemma_wrong_channel_count_never_renders(count: u32, later: Seq<Event>)
    requires
        count != REQUIRED_CHANNELS,
    ensures
        Stage::CountingChannels.advance(Event::ChannelsCounted(count)).after(later)
            == Stage::Failed(StartupError::ChannelCount(count)),
        Stage::CountingChannels.advance(Event::ChannelsCounted(count)).after(later).pending()
            == Action::Fail(StartupError::ChannelCount(count)),
        Stage::CountingChannels.advance(Event::ChannelsCounted(count)).after(
            later,
        ).pending().exit_code() == Some(EXIT_FAILURE),
{
    lemma_failure_is_final(StartupError::ChannelCount(count), later);
}

/// The render loop is reached only by way of a meter that reported eight channels,
/// and the run ends well only after the render loop.
pub proof fn lemma_rendering_needs_eight_channels(events: Seq<Event>)
    requires
        Stage::start().after(events) is Rendering || Stage::start().after(events) is Finished,
    ensures
        exists|i: int| 0 <= i < events.len() && events[i] == Event::ChannelsCounted(8),
    decreases events.len(),
{
    if events.len() > 0 {
        let before = Stage::start().after(events.drop_last());
        if events.last() == Event::ChannelsCounted(8) {
            assert(events[events.len() - 1] == Event::ChannelsCounted(8));
        } else {
            assert(before is Rendering || before is Finished);
            lemma_rendering_needs_eight_channels(events.drop_last());
            let i = choose|i: int|
                0 <= i < events.drop_last().len() && events.drop_last()[i]
                    == Event::ChannelsCounted(8);
            assert(events[i] == Event::ChannelsCounted(8));
        }
    }
}

} // verus!
