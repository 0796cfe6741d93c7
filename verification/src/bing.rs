//! The `bing` command: find the invoking member's voice channel, join it,
//! acknowledge the interaction, play the bundled sound for its duration,
//! and leave. The decisions of that flow are a step function from state
//! and event to next state and action; the gateway, the voice transport
//! and the audio decoding perform the actions outside the library.

use vstd::prelude::*;
use vstd::string::StringExecFns;
use crate::command::CommandDefinition;

verus! {

/// The registration data of the `bing` command.
pub fn register() -> (command: CommandDefinition)
    ensures
        command.name@ == "bing"@,
        command.description@ == "This plays a little bing sound."@,
{
    CommandDefinition {
        name: String::from_str("bing"),
        description: String::from_str("This plays a little bing sound."),
    }
}

/// One guild channel as the voice flow sees it: its identifier, whether
/// it is a voice channel, and the users present in it.
#[derive(Clone, Debug, PartialEq, Eq)]
pub struct ChannelInfo {
    pub id: u64,
    pub is_voice: bool,
    pub members: Vec<u64>,
}

/// Whether a channel is a voice channel the given user is in.
pub open spec fn hosts_user(channel: ChannelInfo, user: u64) -> bool {
    channel.is_voice && channel.members@.contains(user)
}

/// The identifier of the first voice channel the user is in, if any.
pub open spec fn first_voice_channel(channels: Seq<ChannelInfo>, user: u64) -> Option<u64>
    decreases channels.len(),
{
    if channels.len() == 0 {
        None
    } else if hosts_user(channels[0], user) {
        Some(channels[0].id)
    } else {
        first_voice_channel(channels.drop_first(), user)
    }
}

/// When no channel hosts the user, there is no first voice channel.
pub proof fn lemma_no_host_no_channel(channels: Seq<ChannelInfo>, user: u64)
    requires
        forall|i: int| 0 <= i < channels.len() ==> !hosts_user(channels[i], user),
    ensures
        first_voice_channel(channels, user) is None,
    decreases channels.len(),
{
    if channels.len() > 0 {
        lemma_no_host_no_channel(channels.drop_first(), user);
    }
}

/// Whether the vector holds the given user.
fn members_contain(members: &Vec<u64>, user: u64) -> (r: bool)
    ensures
        r == members@.contains(user),
{
    let mut i: usize = 0;
    while i < members.len()
        invariant
            i <= members@.len(),
            forall|j: int| 0 <= j < i ==> members@[j] != user,
        decreases members@.len() - i,
    {
        if members[i] == user {
            return true;
        }
        i += 1;
    }
    false
}

/// Selects the first voice channel the user is in, scanning the channels
/// in the order given.
pub fn find_voice_channel(channels: &Vec<ChannelInfo>, user: u64) -> (r: Option<u64>)
    ensures
        r == first_voice_channel(channels@, user),
{
    let mut i: usize = 0;
    proof {
        assert(channels@.skip(0) =~= channels@);
    }
    while i < channels.len()
        invariant
            i <= channels@.len(),
            first_voice_channel(channels@, user) == first_voice_channel(
                channels@.skip(i as int),
                user,
            ),
        decreases channels@.len() - i,
    {
        proof {
            assert(channels@.skip(i as int)[0] == channels@[i as int]);
            assert(channels@.skip(i as int).drop_first() =~= channels@.skip(i + 1));
        }
        let c = &channels[i];
        if c.is_voice && members_contain(&c.members, user) {
            return Some(c.id);
        }
        i += 1;
    }
    proof {
        assert(channels@.skip(channels@.len() as int) =~= Seq::<ChannelInfo>::empty());
    }
    None
}

/// Why the flow failed. One such cause is logged in one line, while the
/// user sees the one generic internal-error reply.
#[derive(Clone, Copy, PartialEq, Eq, Structural, Debug)]
pub enum BingError {
    /// The voice manager that should be installed at startup is missing.
    NoSoundManager,
    /// The interaction carries no invoking member.
    NoMember,
    /// The guild's channels could not be fetched.
    ChannelFetchFailed,
    /// The invoking member is in no voice channel.
    NoVoiceChannel,
    /// The voice subsystem refused to join the chosen channel.
    JoinFailed,
    /// The bundled sound could not be loaded, or its duration is unknown.
    AudioUnavailable,
    /// The joined channel could not be left.
    LeaveFailed,
}

/// Where the flow stands between two calls into the outside world.
#[derive(Clone, Debug, PartialEq, Eq)]
pub enum BingState {
    /// The interaction arrived; the manager and member are being resolved.
    Starting,
    /// The guild's channels are being fetched for this user.
    FetchingChannels { user: u64 },
    /// A join of the chosen channel was requested.
    Joining { channel: u64 },
    /// The join succeeded; the immediate acknowledgement is being sent.
    Acknowledging,
    /// The bundled sound is being loaded.
    LoadingAudio,
    /// Playback runs for the clip's duration.
    Playing { duration_ms: u64 },
    /// The channel is being left.
    Leaving,
    /// The flow is over, successfully or with the recorded failure.
    Finished { error: Option<BingError> },
}

/// What the outside world reports back to the flow.
#[derive(Clone, Debug, PartialEq, Eq)]
pub enum BingEvent {
    /// Whether the voice manager is installed, and the invoking member.
    Resolved { has_manager: bool, member: Option<u64> },
    /// The guild's channels and their members, or a fetch failure.
    ChannelsFetched { channels: Option<Vec<ChannelInfo>> },
    /// Whether the join request succeeded.
    JoinFinished { joined: bool },
    /// The acknowledgement reply was sent.
    Acknowledged,
    /// The clip's duration in milliseconds, or a load failure: a missing
    /// or undecodable asset, or absent duration metadata.
    AudioLoaded { duration_ms: Option<u64> },
    /// The fixed sleep for the clip's duration elapsed.
    PlaybackWaited,
    /// Whether leaving the channel succeeded.
    LeaveFinished { left: bool },
}

/// What the flow asks the outside world to do next.
#[derive(Clone, Debug, PartialEq, Eq)]
pub enum BingAction {
    /// Fetch the guild's channels and the members in each.
    FetchChannels,
    /// Ask the voice manager to join this channel.
    Join { channel: u64 },
    /// Acknowledge the interaction with the fixed playing reply.
    SendPlayingReply,
    /// Load the bundled sound and read its duration.
    LoadAudio,
    /// Play the loaded source and wait this many milliseconds.
    PlayAndWait { duration_ms: u64 },
    /// Leave the joined channel.
    Leave,
    /// Reply with the generic internal-error message and log one line
    /// naming this cause.
    ReportError { error: BingError },
    /// Nothing remains to be done.
    Finish,
}

/// The state and action that end the flow on the given failure.
pub open spec fn failed_step(error: BingError) -> (BingState, BingAction) {
    (BingState::Finished { error: Some(error) }, BingAction::ReportError { error })
}

/// Which events a state can receive: each waiting state exactly the
/// report of the work it asked for.
pub open spec fn expects(state: BingState, event: BingEvent) -> bool {
    match (state, event) {
        (BingState::Starting, BingEvent::Resolved { .. }) => true,
        (BingState::FetchingChannels { .. }, BingEvent::ChannelsFetched { .. }) => true,
        (BingState::Joining { .. }, BingEvent::JoinFinished { .. }) => true,
        (BingState::Acknowledging, BingEvent::Acknowledged) => true,
        (BingState::LoadingAudio, BingEvent::AudioLoaded { .. }) => true,
        (BingState::Playing { .. }, BingEvent::PlaybackWaited) => true,
        (BingState::Leaving, BingEvent::LeaveFinished { .. }) => true,
        _ => false,
    }
}

/// The transition relation of the flow: each step short-circuits to the
/// reported failure, or moves to the next stage of resolve, find, join,
/// acknowledge, load, play, leave.
pub open spec fn step_spec(state: BingState, event: BingEvent) -> (BingState, BingAction) {
    match (state, event) {
        (BingState::Starting, BingEvent::Resolved { has_manager, member }) => {
            if !has_manager {
                failed_step(BingError::NoSoundManager)
            } else {
                match member {
                    Some(user) => (
                        BingState::FetchingChannels { user },
                        BingAction::FetchChannels,
                    ),
                    None => failed_step(BingError::NoMember),
                }
            }
        },
        (BingState::FetchingChannels { user }, BingEvent::ChannelsFetched { channels }) => {
            match channels {
                Some(list) => match first_voice_channel(list@, user) {
                    Some(channel) => (
                        BingState::Joining { channel },
                        BingAction::Join { channel },
                    ),
                    None => failed_step(BingError::NoVoiceChannel),
                },
                None => failed_step(BingError::ChannelFetchFailed),
            }
        },
        (BingState::Joining { .. }, BingEvent::JoinFinished { joined }) => {
            if joined {
                (BingState::Acknowledging, BingAction::SendPlayingReply)
            } else {
                failed_step(BingError::JoinFailed)
            }
        },
        (BingState::Acknowledging, BingEvent::Acknowledged) => (
            BingState::LoadingAudio,
            BingAction::LoadAudio,
        ),
        (BingState::LoadingAudio, BingEvent::AudioLoaded { duration_ms }) => {
            match duration_ms {
                Some(duration) => (
                    BingState::Playing { duration_ms: duration },
                    BingAction::PlayAndWait { duration_ms: duration },
                ),
                None => failed_step(BingError::AudioUnavailable),
            }
        },
        (BingState::Playing { .. }, BingEvent::PlaybackWaited) => (
            BingState::Leaving,
            BingAction::Leave,
        ),
        (BingState::Leaving, BingEvent::LeaveFinished { left }) => {
            if left {
                (BingState::Finished { error: None }, BingAction::Finish)
            } else {
                failed_step(BingError::LeaveFailed)
            }
        },
        // excluded by `expects`; the value is never relied on
        _ => failed_step(BingError::NoMember),
    }
}

/// One step of the flow: takes the report of the last action and decides
/// the next state and action, as the transition relation has it.
pub fn step(state: BingState, event: BingEvent) -> (r: (BingState, BingAction))
    requires
        expects(state, event),
    ensures
        r == step_spec(state, event),
{
    match (state, event) {
        (BingState::Starting, BingEvent::Resolved { has_manager, member }) => {
            if !has_manager {
                fail(BingError::NoSoundManager)
            } else {
                match member {
                    Some(user) => (
                        BingState::FetchingChannels { user },
                        BingAction::FetchChannels,
                    ),
                    None => fail(BingError::NoMember),
                }
            }
        },
        (BingState::FetchingChannels { user }, BingEvent::ChannelsFetched { channels }) => {
            match channels {
                Some(list) => match find_voice_channel(&list, user) {
                    Some(channel) => (
                        BingState::Joining { channel },
                        BingAction::Join { channel },
                    ),
                    None => fail(BingError::NoVoiceChannel),
                },
                None => fail(BingError::ChannelFetchFailed),
            }
        },
        (BingState::Joining { .. }, BingEvent::JoinFinished { joined }) => {
            if joined {
                (BingState::Acknowledging, BingAction::SendPlayingReply)
            } else {
                fail(BingError::JoinFailed)
            }
        },
        (BingState::Acknowledging, BingEvent::Acknowledged) => (
            BingState::LoadingAudio,
            BingAction::LoadAudio,
        ),
        (BingState::LoadingAudio, BingEvent::AudioLoaded { duration_ms }) => {
            match duration_ms {
                Some(duration) => (
                    BingState::Playing { duration_ms: duration },
                    BingAction::PlayAndWait { duration_ms: duration },
                ),
                None => fail(BingError::AudioUnavailable),
            }
        },
        (BingState::Playing { .. }, BingEvent::PlaybackWaited) => (
            BingState::Leaving,
            BingAction::Leave,
        ),
        (BingState::Leaving, BingEvent::LeaveFinished { left }) => {
            if left {
                (BingState::Finished { error: None }, BingAction::Finish)
            } else {
                fail(BingError::LeaveFailed)
            }
        },
        // excluded by `expects`; the value is never relied on
        _ => fail(BingError::NoMember),
    }
}

/// The state and action that end the flow on the given failure.
fn fail(error: BingError) -> (r: (BingState, BingAction))
    ensures
        r == failed_step(error),
{
    (BingState::Finished { error: Some(error) }, BingAction::ReportError { error })
}

/// The acknowledgement sent as soon as the channel is joined.
pub fn playing_reply() -> (m: String)
    ensures
        m@ == "😊 Playing your sound"@,
{
    String::from_str("😊 Playing your sound")
}

/// The fixed text a user sees when a handler fails internally.
pub fn internal_error_text() -> (m: String)
    ensures
        m@ == "An internal error occurred while processing your command."@,
{
    String::from_str("An internal error occurred while processing your command.")
}

/// The reply sent for a failed interaction: the failure marker in front
/// of the given message.
pub fn error_reply(message: &str) -> (m: String)
    ensures
        m@ == "😖 "@ + message@,
{
    let mut m = String::from_str("😖 ");
    m.append(message);
    m
}

/// The whole reply a user sees when a handler fails internally, whatever
/// the cause was.
pub fn internal_error_reply() -> (m: String)
    ensures
        m@ == "😖 An internal error occurred while processing your command."@,
{
    let text = internal_error_text();
    let m = error_reply(text.as_str());
    proof {
        reveal_strlit("😖 ");
        reveal_strlit("An internal error occurred while processing your command.");
        reveal_strlit("😖 An internal error occurred while processing your command.");
        assert(m@ =~= "😖 An internal error occurred while processing your command."@);
    }
    m
}

/// The line logged when the flow fails with the given cause.
pub open spec fn log_line_of(error: BingError) -> Seq<char> {
    match error {
        BingError::NoSoundManager => "Could not load sound manager which should be added on startup."@,
        BingError::NoMember => "Could not get member from command."@,
        BingError::ChannelFetchFailed => "Could not fetch the channels of the guild."@,
        BingError::NoVoiceChannel => "No voice channel could be found"@,
        BingError::JoinFailed => "Could not join the voice channel."@,
        BingError::AudioUnavailable => "Duration must be available"@,
        BingError::LeaveFailed => "Could not leave the voice channel."@,
    }
}

impl BingError {
    /// The line logged when the flow fails with this cause.
    pub fn describe(&self) -> (m: String)
        ensures
            m@ == log_line_of(*self),
    {
        match self {
            BingError::NoSoundManager => String::from_str(
                "Could not load sound manager which should be added on startup.",
            ),
            BingError::NoMember => String::from_str("Could not get member from command."),
            BingError::ChannelFetchFailed => String::from_str(
                "Could not fetch the channels of the guild.",
            ),
            BingError::NoVoiceChannel => String::from_str("No voice channel could be found"),
            BingError::JoinFailed => String::from_str("Could not join the voice channel."),
            BingError::AudioUnavailable => String::from_str("Duration must be available"),
            BingError::LeaveFailed => String::from_str("Could not leave the voice channel."),
        }
    }
}

/// If the invoking member is in no voice channel, the flow reports the
/// no-voice-channel failure and issues no join.
pub proof fn lemma_no_voice_channel_no_join(user: u64, channels: Vec<ChannelInfo>)
    requires
        forall|i: int| 0 <= i < channels@.len() ==> !hosts_user(channels@[i], user),
    ensures
        step_spec(
            BingState::FetchingChannels { user },
            BingEvent::ChannelsFetched { channels: Some(channels) },
        ) == failed_step(BingError::NoVoiceChannel),
{
    lemma_no_host_no_channel(channels@, user);
}

/// When some channel hosts the user, one is found.
proof fn lemma_host_gets_channel(channels: Seq<ChannelInfo>, user: u64)
    requires
        exists|i: int| 0 <= i < channels.len() && hosts_user(channels[i], user),
    ensures
        first_voice_channel(channels, user) is Some,
    decreases channels.len(),
{
    if !hosts_user(channels[0], user) {
        let i = choose|i: int| 0 <= i < channels.len() && hosts_user(channels[i], user);
        assert(channels.drop_first()[i - 1] == channels[i]);
        lemma_host_gets_channel(channels.drop_first(), user);
    }
}

/// If the invoking member is in some voice channel, the flow issues a
/// join of the first such channel and reports no failure.
pub proof fn lemma_voice_channel_gets_join(user: u64, channels: Vec<ChannelInfo>)
    requires
        exists|i: int| 0 <= i < channels@.len() && hosts_user(channels@[i], user),
    ensures
        step_spec(
            BingState::FetchingChannels { user },
            BingEvent::ChannelsFetched { channels: Some(channels) },
        ) matches (BingState::Joining { channel }, BingAction::Join { channel: c })
            && Some(channel) == first_voice_channel(channels@, user)
            && c == channel,
{
    lemma_host_gets_channel(channels@, user);
}

/// If the join succeeded (the flow reached loading) and the audio cannot
/// be loaded, the flow ends at once with the audio failure: one report
/// action, so one generic reply and one log line, and nothing further.
pub proof fn lemma_audio_failure_reported()
    ensures
        step_spec(BingState::LoadingAudio, BingEvent::AudioLoaded { duration_ms: None })
            == failed_step(BingError::AudioUnavailable),
{
}

/// A finished flow expects nothing further: one interaction gets one run.
pub proof fn lemma_finished_is_final(error: Option<BingError>, event: BingEvent)
    ensures
        !expects(BingState::Finished { error }, event),
{
}

/// How far along the flow a state is.
pub open spec fn stage(state: BingState) -> int {
    match state {
        BingState::Starting => 0,
        BingState::FetchingChannels { .. } => 1,
        BingState::Joining { .. } => 2,
        BingState::Acknowledging => 3,
        BingState::LoadingAudio => 4,
        BingState::Playing { .. } => 5,
        BingState::Leaving => 6,
        BingState::Finished { .. } => 7,
    }
}

/// Every step moves the flow strictly forward: no stage is revisited, so
/// no action of the sequence is asked for twice, and a call once left is
/// not reused.
pub proof fn lemma_flow_progresses(state: BingState, event: BingEvent)
    requires
        expects(state, event),
    ensures
        stage(step_spec(state, event).0) > stage(state),
{
}

/// The actions a run of the flow performs: from the given state, each
/// event that answers the pending request is stepped through, and the
/// run ends at the first event that answers nothing.
pub open spec fn run_actions(state: BingState, events: Seq<BingEvent>) -> Seq<BingAction>
    decreases events.len(),
{
    if events.len() == 0 || !expects(state, events[0]) {
        seq![]
    } else {
        seq![step_spec(state, events[0]).1] + run_actions(
            step_spec(state, events[0]).0,
            events.drop_first(),
        )
    }
}

/// How many of the actions report a failure.
pub open spec fn report_count(actions: Seq<BingAction>) -> nat
    decreases actions.len(),
{
    if actions.len() == 0 {
        0
    } else {
        (if actions[0] is ReportError {
            1nat
        } else {
            0nat
        }) + report_count(actions.drop_first())
    }
}

/// A step reports a failure only as it finishes the flow.
proof fn lemma_report_finishes(state: BingState, event: BingEvent)
    ensures
        step_spec(state, event).1 is ReportError ==> step_spec(state, event).0 is Finished,
{
}

/// Whatever the events are, a run of the flow reports at most one
/// failure — so the user sees at most one generic reply and the log gets
/// at most one line — and a finished flow reports none.
pub proof fn lemma_at_most_one_report(state: BingState, events: Seq<BingEvent>)
    ensures
        report_count(run_actions(state, events)) <= 1,
        state is Finished ==> report_count(run_actions(state, events)) == 0,
    decreases events.len(),
{
    if events.len() > 0 && expects(state, events[0]) {
        let next = step_spec(state, events[0]).0;
        let action = step_spec(state, events[0]).1;
        let rest = run_actions(next, events.drop_first());
        lemma_at_most_one_report(next, events.drop_first());
        lemma_report_finishes(state, events[0]);
        assert((seq![action] + rest)[0] == action);
        assert((seq![action] + rest).drop_first() =~= rest);
    }
}

} // verus!
