use unvu_bot::bing::{
    error_reply, find_voice_channel, internal_error_reply, internal_error_text, playing_reply,
    register, step, BingAction, BingError, BingEvent, BingState, ChannelInfo,
};

fn voice(id: u64, members: Vec<u64>) -> ChannelInfo {
    ChannelInfo { id, is_voice: true, members }
}

fn text(id: u64, members: Vec<u64>) -> ChannelInfo {
    ChannelInfo { id, is_voice: false, members }
}

#[test]
fn bing_registration_data() {
    let c = register();
    assert_eq!(c.name, "bing");
    assert_eq!(c.description, "This plays a little bing sound.");
}

#[test]
fn finds_the_first_voice_channel_of_the_user() {
    let channels = vec![
        text(1, vec![7, 8]),
        voice(2, vec![9]),
        voice(3, vec![8, 7]),
        voice(4, vec![7]),
    ];
    assert_eq!(find_voice_channel(&channels, 7), Some(3));
}

#[test]
fn ignores_text_channels_the_user_is_in() {
    let channels = vec![text(1, vec![7]), voice(2, vec![8])];
    assert_eq!(find_voice_channel(&channels, 7), None);
}

#[test]
fn finds_nothing_without_channels() {
    assert_eq!(find_voice_channel(&Vec::new(), 7), None);
}

#[test]
fn no_voice_channel_reports_failure_and_no_join() {
    let channels = vec![text(1, vec![7]), voice(2, vec![8, 9])];
    let (state, action) = step(
        BingState::FetchingChannels { user: 7 },
        BingEvent::ChannelsFetched { channels: Some(channels) },
    );
    assert_eq!(state, BingState::Finished { error: Some(BingError::NoVoiceChannel) });
    assert_eq!(action, BingAction::ReportError { error: BingError::NoVoiceChannel });
}

#[test]
fn audio_failure_after_join_gives_the_generic_reply() {
    // the join succeeded and the flow reached loading; the load fails
    let (state, action) = step(
        BingState::LoadingAudio,
        BingEvent::AudioLoaded { duration_ms: None },
    );
    assert_eq!(state, BingState::Finished { error: Some(BingError::AudioUnavailable) });
    let BingAction::ReportError { error } = action else {
        panic!("an audio failure must be reported");
    };
    assert_eq!(
        error_reply(&internal_error_text()),
        "😖 An internal error occurred while processing your command."
    );
    assert_eq!(error.describe(), "Duration must be available");
}

#[test]
fn the_flow_in_order_from_start_to_leave() {
    let channels = vec![voice(5, vec![7])];

    let (state, action) = step(
        BingState::Starting,
        BingEvent::Resolved { has_manager: true, member: Some(7) },
    );
    assert_eq!(action, BingAction::FetchChannels);

    let (state, action) = step(state, BingEvent::ChannelsFetched { channels: Some(channels) });
    assert_eq!(action, BingAction::Join { channel: 5 });

    let (state, action) = step(state, BingEvent::JoinFinished { joined: true });
    assert_eq!(action, BingAction::SendPlayingReply);

    let (state, action) = step(state, BingEvent::Acknowledged);
    assert_eq!(action, BingAction::LoadAudio);

    let (state, action) = step(state, BingEvent::AudioLoaded { duration_ms: Some(1200) });
    assert_eq!(action, BingAction::PlayAndWait { duration_ms: 1200 });

    let (state, action) = step(state, BingEvent::PlaybackWaited);
    assert_eq!(action, BingAction::Leave);

    let (state, action) = step(state, BingEvent::LeaveFinished { left: true });
    assert_eq!(state, BingState::Finished { error: None });
    assert_eq!(action, BingAction::Finish);
}

#[test]
fn a_missing_manager_ends_the_flow() {
    let (state, action) = step(
        BingState::Starting,
        BingEvent::Resolved { has_manager: false, member: Some(7) },
    );
    assert_eq!(state, BingState::Finished { error: Some(BingError::NoSoundManager) });
    assert_eq!(action, BingAction::ReportError { error: BingError::NoSoundManager });
}

#[test]
fn a_missing_member_ends_the_flow() {
    let (_, action) = step(
        BingState::Starting,
        BingEvent::Resolved { has_manager: true, member: None },
    );
    assert_eq!(action, BingAction::ReportError { error: BingError::NoMember });
}

#[test]
fn a_channel_fetch_failure_ends_the_flow() {
    let (_, action) = step(
        BingState::FetchingChannels { user: 7 },
        BingEvent::ChannelsFetched { channels: None },
    );
    assert_eq!(action, BingAction::ReportError { error: BingError::ChannelFetchFailed });
}

#[test]
fn a_refused_join_ends_the_flow() {
    let (_, action) = step(
        BingState::Joining { channel: 5 },
        BingEvent::JoinFinished { joined: false },
    );
    assert_eq!(action, BingAction::ReportError { error: BingError::JoinFailed });
}

#[test]
fn a_failed_leave_ends_the_flow() {
    let (state, action) = step(
        BingState::Leaving,
        BingEvent::LeaveFinished { left: false },
    );
    assert_eq!(state, BingState::Finished { error: Some(BingError::LeaveFailed) });
    assert_eq!(action, BingAction::ReportError { error: BingError::LeaveFailed });
}

#[test]
fn reply_texts() {
    assert_eq!(playing_reply(), "😊 Playing your sound");
    assert_eq!(internal_error_text(), "An internal error occurred while processing your command.");
    assert_eq!(internal_error_reply(), "😖 An internal error occurred while processing your command.");
    assert_eq!(error_reply("boom"), "😖 boom");
}

#[test]
fn log_lines_name_the_cause() {
    assert_eq!(BingError::NoVoiceChannel.describe(), "No voice channel could be found");
    assert_eq!(
        BingError::NoSoundManager.describe(),
        "Could not load sound manager which should be added on startup."
    );
    assert_eq!(BingError::NoMember.describe(), "Could not get member from command.");
    assert_eq!(BingError::ChannelFetchFailed.describe(), "Could not fetch the channels of the guild.");
    assert_eq!(BingError::JoinFailed.describe(), "Could not join the voice channel.");
    assert_eq!(BingError::LeaveFailed.describe(), "Could not leave the voice channel.");
}
