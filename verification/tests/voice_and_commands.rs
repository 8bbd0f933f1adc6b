use minstrel::commands::{RemoveSourceError, link_code_text, link_reply, register_reply, show_sources,
    source_to_remove, user_error_text};
use minstrel::model::{Source, StoredSource, UserMgmtError};
use minstrel::voice::{JoinPlan, VoiceAction, VoiceError, VoiceFlags, channel_listeners, in_same_voice, is_mute_toggle,
    join_voice_plan, should_leave, voice_update_action};

fn src(id: i64, url: &str) -> StoredSource {
    StoredSource { id, path: Source::YoutubePlaylist(url.to_string()) }
}

#[test]
fn same_voice_checks() {
    assert_eq!(in_same_voice(None, Some(1)), Err(VoiceError::CallerNotInVoice));
    assert_eq!(in_same_voice(Some(1), None), Err(VoiceError::BotNotInVoice));
    assert_eq!(in_same_voice(Some(1), Some(2)), Err(VoiceError::BotElsewhere));
    assert_eq!(in_same_voice(Some(7), Some(7)), Ok(()));
    assert_eq!(VoiceError::CallerNotInVoice.message(), "You must be in a voice channel to use this command");
    assert_eq!(VoiceError::BotNotInVoice.message(), "The bot is not in a voice channel");
    assert_eq!(VoiceError::BotElsewhere.message(), "Bot is in another voice channel");
}

#[test]
fn join_plans() {
    assert_eq!(join_voice_plan(None, None, false), Err(VoiceError::CallerNotInVoice));
    assert_eq!(join_voice_plan(Some(3), None, false), Ok(JoinPlan::Connect(3)));
    assert_eq!(join_voice_plan(Some(3), Some(4), true), Err(VoiceError::BotElsewhere));
    assert_eq!(join_voice_plan(Some(3), Some(3), true), Ok(JoinPlan::Stay));
    assert_eq!(join_voice_plan(Some(3), Some(3), false), Ok(JoinPlan::Connect(3)));
}

#[test]
fn voice_updates_drive_autoplay() {
    let bot = 100;
    // Bot not in voice, or autoplay off: nothing happens.
    assert_eq!(voice_update_action(bot, None, true, 5, None, Some(9)), VoiceAction::Ignore);
    assert_eq!(voice_update_action(bot, Some(9), false, 5, None, Some(9)), VoiceAction::Ignore);
    // The bot itself moved.
    assert_eq!(voice_update_action(bot, Some(9), true, bot, None, Some(9)), VoiceAction::Rebalance(9));
    assert_eq!(voice_update_action(bot, Some(9), true, bot, Some(Some(9)), None), VoiceAction::Ignore);
    // Someone joined the bot's channel.
    assert_eq!(voice_update_action(bot, Some(9), true, 5, None, Some(9)), VoiceAction::Enroll);
    // Someone joined another channel.
    assert_eq!(voice_update_action(bot, Some(9), true, 5, None, Some(8)), VoiceAction::Ignore);
    // Someone left the bot's channel, or moved away from it.
    assert_eq!(voice_update_action(bot, Some(9), true, 5, Some(Some(9)), None), VoiceAction::Unenroll);
    assert_eq!(voice_update_action(bot, Some(9), true, 5, Some(Some(9)), Some(8)), VoiceAction::Unenroll);
    // Someone left another channel.
    assert_eq!(voice_update_action(bot, Some(9), true, 5, Some(Some(8)), None), VoiceAction::Ignore);
    assert_eq!(voice_update_action(bot, Some(9), true, 5, Some(None), None), VoiceAction::Ignore);
}

#[test]
fn leaving_an_empty_channel() {
    let bot = 100;
    let states = vec![(bot, 9), (6, 8)];
    assert!(should_leave(bot, Some(9), Some(Some(9)), None, &states));
    let states = vec![(bot, 9), (6, 9)];
    assert!(!should_leave(bot, Some(9), Some(Some(9)), None, &states));
    assert!(!should_leave(bot, Some(9), Some(Some(8)), None, &vec![(bot, 9)]));
    assert!(!should_leave(bot, Some(9), None, Some(9), &vec![(bot, 9)]));
    assert!(!should_leave(bot, None, Some(Some(9)), None, &vec![]));
}

#[test]
fn sources_are_listed_by_id() {
    assert_eq!(show_sources(Vec::new()), None);
    let listing = show_sources(vec![src(7, "https://b"), src(3, "https://a")]).unwrap();
    assert_eq!(listing, "```\n1: https://a\n2: https://b\n```");
}

#[test]
fn removing_sources() {
    assert_eq!(source_to_remove(vec![src(1, "x")], 0), Err(RemoveSourceError::ZeroNumber));
    assert_eq!(source_to_remove(Vec::new(), 1), Err(RemoveSourceError::NoSources));
    assert_eq!(source_to_remove(vec![src(1, "x")], 5), Err(RemoveSourceError::DoesNotExist(4)));
    assert_eq!(source_to_remove(vec![src(1, "x")], 2), Err(RemoveSourceError::DoesNotExist(1)));
    assert_eq!(source_to_remove(vec![src(9, "b"), src(4, "a"), src(6, "c")], 2), Ok(6));
    assert_eq!(source_to_remove(vec![src(9, "b"), src(4, "a"), src(6, "c")], 1), Ok(4));
    assert_eq!(RemoveSourceError::DoesNotExist(4).message(), "Source #4 does not exist");
    assert_eq!(RemoveSourceError::NoSources.message(), "You have no sources.");
    assert_eq!(
        RemoveSourceError::ZeroNumber.message(),
        "Use the number from `!source show`, it is not zero indexed."
    );
}

#[test]
fn account_replies() {
    assert_eq!(register_reply(&Ok(())), "Registered successfully!");
    assert_eq!(
        register_reply(&Err(UserMgmtError::UserExists)),
        "You have already registered! If you are trying to link to a web account, see `!help link`"
    );
    assert_eq!(register_reply(&Err(UserMgmtError::DbError)), "An unknown error occurred: DbError");
    assert_eq!(link_reply(&Ok(())), "User successfully linked!");
    assert_eq!(link_reply(&Err(UserMgmtError::InvalidLink)), "Link is invalid or expired.");
    assert_eq!(
        link_reply(&Err(UserMgmtError::UserExists)),
        "You already have a Discord auth, regenerate a link and use in some other auth."
    );
    assert_eq!(
        link_reply(&Err(UserMgmtError::UserDoesNotExist)),
        "You are somehow not registered? Register first then try linking."
    );
    assert_eq!(
        link_reply(&Err(UserMgmtError::UnknownError)),
        "There was a problem attempting to link users: UnknownError"
    );
    assert_eq!(user_error_text(&UserMgmtError::InvalidLink), "InvalidLink");
}

#[test]
fn link_code_message() {
    assert_eq!(
        link_code_text(42),
        "Here is your link number:\n`42`\nEnter this when registering a new account, or through the link option/menu."
    );
}

#[test]
fn channel_listener_list() {
    let states = vec![(100, 9), (5, 9), (6, 8), (7, 9)];
    assert_eq!(channel_listeners(&states, 9, 100), vec![5, 7]);
    assert_eq!(channel_listeners(&states, 3, 100), Vec::<u64>::new());
}

#[test]
fn mute_toggles_are_ignored() {
    let quiet = VoiceFlags { self_mute: false, self_deaf: false, mute: false, deaf: false };
    let muted = VoiceFlags { self_mute: true, ..quiet };
    let deafened = VoiceFlags { deaf: true, ..quiet };
    assert!(is_mute_toggle(Some(quiet), muted));
    assert!(is_mute_toggle(Some(quiet), deafened));
    assert!(!is_mute_toggle(Some(quiet), quiet));
    assert!(!is_mute_toggle(None, muted));
}
