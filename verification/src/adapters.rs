//! Carrying out autoplay commands on the autoplay state.

use vstd::prelude::*;
use crate::model::Song;
use crate::autoplay::{AutoplayControlCmd, AutoplayError, AutoplayOk, AutoplayState, advance_outcome,
    bump_outcome, disable_all_outcome, disable_user_outcome, enable_user_outcome, load_outcome, reset_outcome,
    same_state, shuffle_user_outcome};
use crate::musicstate::{MusicError, MusicOk};

verus! {

/// `r` is the autoplay result `r0` as a music result.
pub open spec fn lifted(r0: Result<AutoplayOk, AutoplayError>, r: Result<MusicOk, MusicError>) -> bool {
    match r0 {
        Ok(o) => r == Ok::<MusicOk, MusicError>(MusicOk::AutoplayOk(o)),
        Err(e) => r == Err::<MusicOk, MusicError>(MusicError::AutoplayError(e)),
    }
}

/// The command can be carried out without an index overflowing.
pub open spec fn autoplay_cmd_fits(ap: AutoplayState, cmd: AutoplayControlCmd) -> bool {
    match cmd {
        AutoplayControlCmd::BumpPlaylist((u, i)) =>
            ap.playlists().contains_key(u) ==> ap.playlists()[u].position() + i <= usize::MAX,
        _ => true,
    }
}

/// What carrying out `cmd` does; `fetched` are the songs of the requester's
/// sources for `UpdatePlaylist`.
pub open spec fn autoplay_cmd_outcome(old: AutoplayState, new: AutoplayState, cmd: AutoplayControlCmd,
    fetched: Seq<Song>, prefetch_max: u64, r: Result<MusicOk, MusicError>) -> bool {
    match cmd {
        AutoplayControlCmd::Enable => {
            &&& new.is_on()
            &&& new.playlists() == old.playlists()
            &&& new.times() == old.times()
            &&& new.cached_times() == old.cached_times()
            &&& r == Ok::<MusicOk, MusicError>(MusicOk::AutoplayOk(AutoplayOk::Status(true)))
        },
        AutoplayControlCmd::Disable => {
            &&& !new.is_on()
            &&& new.playlists() == old.playlists()
            &&& new.times() == old.times()
            &&& new.cached_times() == old.cached_times()
            &&& r == Ok::<MusicOk, MusicError>(MusicOk::AutoplayOk(AutoplayOk::Status(false)))
        },
        AutoplayControlCmd::Status => {
            &&& same_state(new, old)
            &&& r == Ok::<MusicOk, MusicError>(MusicOk::AutoplayOk(AutoplayOk::Status(old.is_on())))
        },
        AutoplayControlCmd::EnableUser(u) =>
            exists|r0| #[trigger] lifted(r0, r) && enable_user_outcome(old, new, u, r0),
        AutoplayControlCmd::DisableUser(u) =>
            exists|r0| #[trigger] lifted(r0, r) && disable_user_outcome(old, new, u, r0),
        AutoplayControlCmd::DisableAllUsers => {
            &&& disable_all_outcome(old, new)
            &&& r == Ok::<MusicOk, MusicError>(MusicOk::AutoplayOk(AutoplayOk::RemovedUser))
        },
        AutoplayControlCmd::ShuffleUser(u) =>
            exists|r0| #[trigger] lifted(r0, r) && shuffle_user_outcome(old, new, u, r0),
        AutoplayControlCmd::Rebalance => {
            &&& reset_outcome(old, new)
            &&& r == Ok::<MusicOk, MusicError>(MusicOk::AutoplayOk(AutoplayOk::Status(true)))
        },
        AutoplayControlCmd::UpdatePlaylist(req) =>
            exists|r0| #[trigger] lifted(r0, r) && load_outcome(old, new, req, fetched, r0),
        AutoplayControlCmd::AdvancePlaylist((u, n)) =>
            exists|r0| #[trigger] lifted(r0, r) && advance_outcome(old, new, u, n, r0),
        AutoplayControlCmd::BumpPlaylist((u, i)) =>
            exists|r0| #[trigger] lifted(r0, r) && bump_outcome(old, new, u, i, prefetch_max, r0),
    }
}

/// Whether the command can be carried out without an index overflowing.
pub fn cmd_fits(ap: &AutoplayState, cmd: &AutoplayControlCmd) -> (b: bool)
    ensures
        b == autoplay_cmd_fits(*ap, *cmd),
{
    match cmd {
        AutoplayControlCmd::BumpPlaylist((u, i)) => match ap.playlist_position(*u) {
            Some(p) => p.checked_add(*i).is_some(),
            None => true,
        },
        _ => true,
    }
}

fn lift(r0: Result<AutoplayOk, AutoplayError>) -> (r: Result<MusicOk, MusicError>)
    ensures
        lifted(r0, r),
{
    match r0 {
        Ok(o) => Ok(MusicOk::AutoplayOk(o)),
        Err(e) => Err(MusicError::AutoplayError(e)),
    }
}

/// Carries out an autoplay command. For `UpdatePlaylist`, `fetched` holds the
/// songs of the requester's active sources, in order.
pub fn handle_cmd(cmd: AutoplayControlCmd, ap: &mut AutoplayState, fetched: &Vec<Song>, prefetch_max: u64) -> (r: Result<MusicOk, MusicError>)
    requires
        old(ap).wf(),
        autoplay_cmd_fits(*old(ap), cmd),
    ensures
        final(ap).wf(),
        autoplay_cmd_outcome(*old(ap), *final(ap), cmd, fetched@, prefetch_max, r),
{
    match cmd {
        AutoplayControlCmd::Enable => {
            ap.enable();
            Ok(MusicOk::AutoplayOk(AutoplayOk::Status(true)))
        },
        AutoplayControlCmd::Disable => {
            ap.disable();
            Ok(MusicOk::AutoplayOk(AutoplayOk::Status(false)))
        },
        AutoplayControlCmd::Status => Ok(MusicOk::AutoplayOk(AutoplayOk::Status(ap.is_enabled()))),
        AutoplayControlCmd::EnableUser(uid) => lift(ap.enable_user(&uid)),
        AutoplayControlCmd::DisableUser(uid) => lift(ap.disable_user(&uid)),
        AutoplayControlCmd::DisableAllUsers => {
            ap.disable_all_users();
            Ok(MusicOk::AutoplayOk(AutoplayOk::RemovedUser))
        },
        AutoplayControlCmd::ShuffleUser(uid) => lift(ap.shuffle_user(&uid)),
        AutoplayControlCmd::Rebalance => {
            ap.reset_usertime();
            Ok(MusicOk::AutoplayOk(AutoplayOk::Status(true)))
        },
        AutoplayControlCmd::UpdatePlaylist(req) => lift(ap.load_sources_for_requester(&req, fetched)),
        AutoplayControlCmd::AdvancePlaylist((uid, num)) => lift(ap.advance_userplaylist(&uid, num)),
        AutoplayControlCmd::BumpPlaylist((uid, ind)) => lift(ap.bump_userplaylist(&uid, ind, prefetch_max)),
    }
}

} // verus!
