//! Commands sent to whatever plays the music.

use vstd::prelude::*;
use crate::model::Song;
use crate::musicstate::MusicError;

verus! {

/// A request to the player.
#[derive(Debug)]
pub enum MusicPlayerCommand {
    Play(Song),
    Stop,
    Disconnect,
}

impl Clone for MusicPlayerCommand {
    fn clone(&self) -> (r: Self)
        ensures
            r == *self,
    {
        match self {
            MusicPlayerCommand::Play(s) => MusicPlayerCommand::Play(s.clone()),
            MusicPlayerCommand::Stop => MusicPlayerCommand::Stop,
            MusicPlayerCommand::Disconnect => MusicPlayerCommand::Disconnect,
        }
    }
}

/// Whatever plays the music: a voice connection, a local audio device, or a
/// stand-in in tests.
pub trait MusicPlayer {
    /// Any set-up the player needs before its first song.
    fn init(&self) -> Result<(), MusicError>;

    /// Starts playing `song`.
    fn play(&mut self, song: &Song) -> Result<(), MusicError>;

    /// Stops the current song.
    fn stop(&mut self) -> Result<(), MusicError>;

    /// Leaves the voice channel or releases the device.
    fn disconnect(&mut self);
}

/// Hands one command to the player and gives back its answer; a disconnect
/// always succeeds.
pub fn run_command<P: MusicPlayer>(player: &mut P, cmd: &MusicPlayerCommand) -> (r: Result<(), MusicError>)
    ensures
        cmd is Disconnect ==> r is Ok,
{
    match cmd {
        MusicPlayerCommand::Play(s) => player.play(s),
        MusicPlayerCommand::Stop => player.stop(),
        MusicPlayerCommand::Disconnect => {
            player.disconnect();
            Ok(())
        },
    }
}

} // verus!
