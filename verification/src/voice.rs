//! Decisions about voice channels: whether a caller may control the player,
//! where the bot should connect, and how autoplay follows who is listening.
//! Channels and users are given by their chat identifiers.

use vstd::prelude::*;
use vstd::string::StringExecFns;

verus! {

/// Why a voice command is refused.
#[derive(Debug, Clone, Copy, PartialEq, Eq, Structural)]
pub enum VoiceError {
    CallerNotInVoice,
    BotNotInVoice,
    BotElsewhere,
}

/// The text shown for a refusal.
pub open spec fn voice_error_text(e: VoiceError) -> Seq<char> {
    match e {
        VoiceError::CallerNotInVoice => "You must be in a voice channel to use this command"@,
        VoiceError::BotNotInVoice => "The bot is not in a voice channel"@,
        VoiceError::BotElsewhere => "Bot is in another voice channel"@,
    }
}

impl VoiceError {
    pub fn message(&self) -> (s: String)
        ensures
            s@ == voice_error_text(*self),
    {
        match self {
            VoiceError::CallerNotInVoice => String::from_str("You must be in a voice channel to use this command"),
            VoiceError::BotNotInVoice => String::from_str("The bot is not in a voice channel"),
            VoiceError::BotElsewhere => String::from_str("Bot is in another voice channel"),
        }
    }
}

/// The caller and the bot are in the same voice channel; `caller` and `bot`
/// are the channels they are in, if any.
pub fn in_same_voice(caller: Option<u64>, bot: Option<u64>) -> (r: Result<(), VoiceError>)
    ensures
        caller is None ==> r == Err::<(), VoiceError>(VoiceError::CallerNotInVoice),
        caller is Some && bot is None ==> r == Err::<(), VoiceError>(VoiceError::BotNotInVoice),
        caller is Some && bot is Some ==> (r is Ok) == (caller == bot),
        caller is Some && bot is Some && caller != bot ==> r == Err::<(), VoiceError>(VoiceError::BotElsewhere),
{
    let c = match caller {
        Some(c) => c,
        None => {
            return Err(VoiceError::CallerNotInVoice);
        },
    };
    let b = match bot {
        Some(b) => b,
        None => {
            return Err(VoiceError::BotNotInVoice);
        },
    };
    if b == c {
        Ok(())
    } else {
        Err(VoiceError::BotElsewhere)
    }
}

/// What joining the caller's voice channel takes.
#[derive(Debug, Clone, Copy, PartialEq, Eq, Structural)]
pub enum JoinPlan {
    /// The bot is already there with a live call.
    Stay,
    /// Connect to this channel.
    Connect(u64),
}

/// Where the bot should be to play for the caller: `caller` and `bot` are
/// the channels they are in, `has_call` whether the bot holds a live call.
pub fn join_voice_plan(caller: Option<u64>, bot: Option<u64>, has_call: bool) -> (r: Result<JoinPlan, VoiceError>)
    ensures
        caller is None ==> r == Err::<JoinPlan, VoiceError>(VoiceError::CallerNotInVoice),
        caller matches Some(c) ==> match bot {
            None => r == Ok::<JoinPlan, VoiceError>(JoinPlan::Connect(c)),
            Some(b) => if b != c {
                r == Err::<JoinPlan, VoiceError>(VoiceError::BotElsewhere)
            } else if has_call {
                r == Ok::<JoinPlan, VoiceError>(JoinPlan::Stay)
            } else {
                r == Ok::<JoinPlan, VoiceError>(JoinPlan::Connect(c))
            },
        },
{
    let c = match caller {
        Some(c) => c,
        None => {
            return Err(VoiceError::CallerNotInVoice);
        },
    };
    match bot {
        Some(b) => {
            if b == c {
                if has_call {
                    return Ok(JoinPlan::Stay);
                }
            } else {
                return Err(VoiceError::BotElsewhere);
            }
        },
        None => {},
    }
    Ok(JoinPlan::Connect(c))
}

/// How autoplay answers a change of someone's voice state.
#[derive(Debug, Clone, Copy, PartialEq, Eq, Structural)]
pub enum VoiceAction {
    /// Nothing to do.
    Ignore,
    /// The bot moved into this channel: enroll exactly its listeners.
    Rebalance(u64),
    /// Enroll the user whose state changed.
    Enroll,
    /// Take the user whose state changed out of autoplay.
    Unenroll,
}

/// What autoplay does, with the bot in channel `bc`, when the voice state of
/// `subject` changes: the bot itself moving rebalances; someone arriving in
/// the bot's channel is enrolled; someone leaving it is taken out.
pub open spec fn voice_action_for(bot_id: u64, bc: u64, subject: u64, old_state: Option<Option<u64>>,
    new_channel: Option<u64>) -> VoiceAction {
    if subject == bot_id {
        match new_channel {
            Some(c) => VoiceAction::Rebalance(c),
            None => VoiceAction::Ignore,
        }
    } else if new_channel == Some(bc) {
        VoiceAction::Enroll
    } else if old_state == Some(Some(bc)) {
        VoiceAction::Unenroll
    } else {
        VoiceAction::Ignore
    }
}

/// What autoplay does when the voice state of `subject` changes.
/// `bot_channel` is where the bot is, `old_state` the subject's previous
/// voice state, if one was known, holding the channel it was in, and
/// `new_channel` the channel it is in now.
pub fn voice_update_action(bot_id: u64, bot_channel: Option<u64>, autoplay_enabled: bool, subject: u64,
    old_state: Option<Option<u64>>, new_channel: Option<u64>) -> (r: VoiceAction)
    ensures
        bot_channel is None || !autoplay_enabled ==> r == VoiceAction::Ignore,
        bot_channel is Some && autoplay_enabled ==> r == voice_action_for(
            bot_id, bot_channel.unwrap(), subject, old_state, new_channel),
{
    let bc = match bot_channel {
        Some(bc) => bc,
        None => {
            return VoiceAction::Ignore;
        },
    };
    if !autoplay_enabled {
        return VoiceAction::Ignore;
    }
    if subject == bot_id {
        return match new_channel {
            Some(c) => VoiceAction::Rebalance(c),
            None => VoiceAction::Ignore,
        };
    }
    if let Some(c) = new_channel {
        if c == bc {
            return VoiceAction::Enroll;
        }
    }
    match old_state {
        Some(Some(c)) => {
            if c == bc {
                VoiceAction::Unenroll
            } else {
                VoiceAction::Ignore
            }
        },
        _ => VoiceAction::Ignore,
    }
}

/// Someone other than the bot is in `channel`, by the voice states `states`
/// of pairs of a user and the channel they are in.
pub open spec fn anyone_else_in(states: Seq<(u64, u64)>, channel: u64, bot_id: u64) -> bool {
    exists|i: int| 0 <= i < states.len() && #[trigger] states[i].1 == channel && states[i].0 != bot_id
}

/// The bot should leave its channel: the change of a voice state was someone
/// leaving the bot's channel `bot_channel`, and nobody else is left there.
pub fn should_leave(bot_id: u64, bot_channel: Option<u64>, old_state: Option<Option<u64>>,
    new_channel: Option<u64>, states: &Vec<(u64, u64)>) -> (r: bool)
    ensures
        r == (bot_channel matches Some(bc) && new_channel is None && old_state == Some(Some(bc))
            && !anyone_else_in(states@, bc, bot_id)),
{
    let bc = match bot_channel {
        Some(bc) => bc,
        None => {
            return false;
        },
    };
    if new_channel.is_some() {
        return false;
    }
    match old_state {
        Some(Some(c)) => {
            if c != bc {
                return false;
            }
        },
        _ => {
            return false;
        },
    }
    let n = states.len();
    let mut i: usize = 0;
    while i < n
        invariant
            n == states@.len(),
            i <= n,
            bot_channel == Some(bc),
            new_channel is None,
            old_state == Some(Some(bc)),
            forall|j: int| 0 <= j < i ==> !(#[trigger] states@[j].1 == bc && states@[j].0 != bot_id),
        decreases n - i,
    {
        let (u, c) = states[i];
        if c == bc && u != bot_id {
            assert(states@[i as int].1 == bc && states@[i as int].0 != bot_id);
            return false;
        }
        i = i + 1;
    }
    true
}

/// The mute and deafen switches of a voice state.
#[derive(Debug, Clone, Copy, PartialEq, Eq, Structural)]
pub struct VoiceFlags {
    pub self_mute: bool,
    pub self_deaf: bool,
    pub mute: bool,
    pub deaf: bool,
}

/// The change of a voice state only muted, unmuted, deafened or undeafened
/// someone: such a change is ignored.
pub fn is_mute_toggle(old: Option<VoiceFlags>, new: VoiceFlags) -> (r: bool)
    ensures
        r == (old matches Some(o) && (o.self_mute != new.self_mute || o.self_deaf != new.self_deaf
            || o.mute != new.mute || o.deaf != new.deaf)),
{
    match old {
        Some(o) => o.self_mute != new.self_mute || o.self_deaf != new.self_deaf || o.mute != new.mute
            || o.deaf != new.deaf,
        None => false,
    }
}

/// The users other than the bot that the voice states place in `channel`,
/// in the order of the states.
pub open spec fn listeners(states: Seq<(u64, u64)>, channel: u64, bot_id: u64) -> Seq<u64>
    decreases states.len(),
{
    if states.len() == 0 {
        Seq::empty()
    } else {
        let rest = listeners(states.drop_last(), channel, bot_id);
        let s = states.last();
        if s.1 == channel && s.0 != bot_id { rest.push(s.0) } else { rest }
    }
}

/// The users other than the bot in `channel`, by the voice states `states`
/// of pairs of a user and the channel they are in.
pub fn channel_listeners(states: &Vec<(u64, u64)>, channel: u64, bot_id: u64) -> (r: Vec<u64>)
    ensures
        r@ == listeners(states@, channel, bot_id),
{
    let mut r: Vec<u64> = Vec::new();
    let n = states.len();
    let mut i: usize = 0;
    while i < n
        invariant
            n == states@.len(),
            i <= n,
            r@ == listeners(states@.take(i as int), channel, bot_id),
        decreases n - i,
    {
        let (u, c) = states[i];
        if c == channel && u != bot_id {
            r.push(u);
        }
        proof {
            assert(states@.take(i + 1).drop_last() =~= states@.take(i as int));
        }
        i = i + 1;
    }
    proof {
        assert(states@.take(n as int) =~= states@);
    }
    r
}

/// The listeners of a channel are exactly the users other than the bot whose
/// voice state is in that channel.
pub proof fn law_listeners_are_channel_members(states: Seq<(u64, u64)>, channel: u64, bot_id: u64, u: u64)
    ensures
        listeners(states, channel, bot_id).contains(u)
            <==> (u != bot_id && exists|j: int| 0 <= j < states.len() && #[trigger] states[j] == (u, channel)),
    decreases states.len(),
{
    if states.len() > 0 {
        let init = states.drop_last();
        law_listeners_are_channel_members(init, channel, bot_id, u);
        let rest = listeners(init, channel, bot_id);
        let s = states.last();
        if u != bot_id && exists|j: int| 0 <= j < states.len() && #[trigger] states[j] == (u, channel) {
            let j = choose|j: int| 0 <= j < states.len() && #[trigger] states[j] == (u, channel);
            let l = listeners(states, channel, bot_id);
            if j < states.len() - 1 {
                assert(init[j] == (u, channel));
                assert(rest.contains(u));
                let k = choose|k: int| 0 <= k < rest.len() && rest[k] == u;
                assert(l[k] == u);
                assert(l.contains(u));
            } else {
                assert(s == (u, channel));
                assert(l == rest.push(u));
                assert(l[rest.len() as int] == u);
                assert(l.contains(u));
            }
        }
        if listeners(states, channel, bot_id).contains(u) {
            if rest.contains(u) {
                let j = choose|j: int| 0 <= j < init.len() && #[trigger] init[j] == (u, channel);
                assert(states[j] == (u, channel));
            } else {
                let k = choose|k: int| 0 <= k < listeners(states, channel, bot_id).len()
                    && listeners(states, channel, bot_id)[k] == u;
                if s.1 == channel && s.0 != bot_id {
                    assert(k == rest.len());
                    assert(states[states.len() - 1] == (u, channel));
                } else {
                    assert(rest[k] == u);
                }
            }
        }
    }
}

} // verus!

verus! {

/// How autoplay follows someone other than the bot while autoplay is on and
/// the bot is in channel `bc` (what `voice_update_action` gives then): a voice state in the bot's channel, whether
/// they just joined or were there already, enrolls them; they are taken out
/// only when they were in the bot's channel and no longer are; a change
/// that neither starts nor ends in the bot's channel is ignored.
pub proof fn law_listener_follows_bot_channel(bot_id: u64, bc: u64, subject: u64,
    old_state: Option<Option<u64>>, new_channel: Option<u64>, r: VoiceAction)
    requires
        bot_id != subject,
        r == voice_action_for(bot_id, bc, subject, old_state, new_channel),
    ensures
        new_channel == Some(bc) ==> r == VoiceAction::Enroll,
        r == VoiceAction::Unenroll <==> (new_channel != Some(bc) && old_state == Some(Some(bc))),
        r == VoiceAction::Enroll <==> new_channel == Some(bc),
        !(r is Rebalance),
{
}

} // verus!
