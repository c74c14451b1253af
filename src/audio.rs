use vstd::prelude::*;

verus! {

/// Sound effects that the simulation asks the audio collaborator to play.
#[derive(Clone, Copy, Debug, PartialEq, Eq, Structural)]
pub enum SoundEffectType {
    PlayerShoot,
    PlayerHurt,
    PlayerDeath,
    EnemyWalk,
    EnemyHurt,
    EnemyDeath,
    XPCollect,
    UIHover,
    UIEnter,
    EnterLevelUp,
}

/// Music tracks, one per mode of the game.
#[derive(Clone, Copy, Debug, PartialEq, Eq, Structural)]
pub enum MusicType {
    Game,
    Menu,
    Upgrade,
}

/// A request to play one sound effect.
#[derive(Clone, Copy, Debug, PartialEq, Eq, Structural)]
pub struct PlaySoundEffectEvent {
    pub sound: SoundEffectType,
}

/// A request to start a music track; `fade_in` is in milliseconds.
#[derive(Clone, Copy, Debug, PartialEq, Eq, Structural)]
pub struct PlayMusicEvent {
    pub sound: MusicType,
    pub looping: bool,
    pub fade_in: u64,
}

/// A request to stop everything that plays.
#[derive(Clone, Copy, Debug, PartialEq, Eq, Structural)]
pub struct StopSoundEvent;

/// One request to the audio collaborator.
#[derive(Clone, Copy, Debug, PartialEq, Eq, Structural)]
pub enum AudioRequest {
    Stop(StopSoundEvent),
    Music(PlayMusicEvent),
    Effect(PlaySoundEffectEvent),
}

impl PlayMusicEvent {
    /// The menu track, played once without a fade.
    pub fn new() -> (r: PlayMusicEvent)
        ensures
            r == (PlayMusicEvent { sound: MusicType::Menu, looping: false, fade_in: 0 }),
    {
        PlayMusicEvent { sound: MusicType::Menu, looping: false, fade_in: 0 }
    }
}

impl Default for PlayMusicEvent {
    fn default() -> (r: PlayMusicEvent)
        ensures
            r == (PlayMusicEvent { sound: MusicType::Menu, looping: false, fade_in: 0 }),
    {
        PlayMusicEvent::new()
    }
}

pub open spec fn effect(sound: SoundEffectType) -> AudioRequest {
    AudioRequest::Effect(PlaySoundEffectEvent { sound })
}

pub fn effect_request(sound: SoundEffectType) -> (r: AudioRequest)
    ensures
        r == effect(sound),
{
    AudioRequest::Effect(PlaySoundEffectEvent { sound })
}

} // verus!
