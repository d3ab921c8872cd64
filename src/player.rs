use vstd::prelude::*;

verus! {

/// Playback states of the host-side player.
#[derive(Clone, Copy, Debug, PartialEq, Eq, Structural)]
pub enum PlayerStatus {
    Idle,
    Ready,
    Playing,
    Pause,
    Destroyed,
}

/// The command a player sends to its decode worker.
#[derive(Clone, Copy, Debug, PartialEq, Eq, Structural)]
pub enum PlayerCommand {
    Initialize,
    Start,
    Pause,
}

/// Why a player refused a call.
#[derive(Clone, Copy, Debug, PartialEq, Eq, Structural)]
pub enum PlayerError {
    /// `start` outside `Ready`.
    NotReady,
    /// `pause` outside `Playing`.
    NotPlaying,
}

/// The host-side player: its state and the size of the frames it shows.
pub struct Player {
    pub status: PlayerStatus,
    pub width: u32,
    pub height: u32,
}

impl Player {
    /// An idle player for `width` x `height` frames.
    pub fn new(width: u32, height: u32) -> (r: Player)
        ensures
            r.status == PlayerStatus::Idle,
            r.width == width,
            r.height == height,
    {
        Player { status: PlayerStatus::Idle, width, height }
    }

    /// Asks the worker to initialize; the player is then ready.
    pub fn initialize(&mut self) -> (r: PlayerCommand)
        ensures
            r == PlayerCommand::Initialize,
            final(self).status == PlayerStatus::Ready,
            final(self).width == old(self).width,
            final(self).height == old(self).height,
    {
        self.status = PlayerStatus::Ready;
        PlayerCommand::Initialize
    }

    /// From `Ready`: asks the worker to start, and plays.
    pub fn start(&mut self) -> (r: Result<PlayerCommand, PlayerError>)
        ensures
            old(self).status == PlayerStatus::Ready ==> r == Ok::<PlayerCommand, PlayerError>(
                PlayerCommand::Start,
            ) && final(self).status == PlayerStatus::Playing,
            old(self).status != PlayerStatus::Ready ==> r == Err::<PlayerCommand, PlayerError>(
                PlayerError::NotReady,
            ) && final(self).status == old(self).status,
            final(self).width == old(self).width,
            final(self).height == old(self).height,
    {
        if self.status != PlayerStatus::Ready {
            return Err(PlayerError::NotReady);
        }
        self.status = PlayerStatus::Playing;
        Ok(PlayerCommand::Start)
    }

    /// From `Playing`: asks the worker to pause, and pauses.
    pub fn pause(&mut self) -> (r: Result<PlayerCommand, PlayerError>)
        ensures
            old(self).status == PlayerStatus::Playing ==> r == Ok::<PlayerCommand, PlayerError>(
                PlayerCommand::Pause,
            ) && final(self).status == PlayerStatus::Pause,
            old(self).status != PlayerStatus::Playing ==> r == Err::<PlayerCommand, PlayerError>(
                PlayerError::NotPlaying,
            ) && final(self).status == old(self).status,
            final(self).width == old(self).width,
            final(self).height == old(self).height,
    {
        if self.status != PlayerStatus::Playing {
            return Err(PlayerError::NotPlaying);
        }
        self.status = PlayerStatus::Pause;
        Ok(PlayerCommand::Pause)
    }
}

} // verus!
