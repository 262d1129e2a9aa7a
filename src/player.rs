//! The play state that the controlled player reports.
use vstd::prelude::*;

verus! {

/// One reading of the controlled player's status endpoint.
///
/// `Unknown` stands for any transport or parse failure, and is never read as
/// playing or paused.
#[derive(Clone, Copy, Debug, PartialEq, Eq, Structural)]
pub enum PlayerState {
    Playing,
    Paused,
    Stopped,
    Unknown,
}

/// Whether a reading says the player is paused: `None` where it says nothing.
pub open spec fn paused_sense(s: PlayerState) -> Option<bool> {
    match s {
        PlayerState::Playing => Some(false),
        PlayerState::Paused => Some(true),
        PlayerState::Stopped => Some(true),
        PlayerState::Unknown => None,
    }
}

impl PlayerState {
    /// Whether this reading says the player is playing.
    pub fn is_playing(&self) -> (r: bool)
        ensures
            r == (*self == PlayerState::Playing),
    {
        match self {
            PlayerState::Playing => true,
            _ => false,
        }
    }

    /// Whether this reading says anything about the player at all.
    pub fn is_known(&self) -> (r: bool)
        ensures
            r == (paused_sense(*self) is Some),
    {
        match self {
            PlayerState::Unknown => false,
            _ => true,
        }
    }
}

/// The reading named by the status document's `state` field.
pub open spec fn state_of_name(name: Seq<char>) -> PlayerState {
    if name == "playing"@ {
        PlayerState::Playing
    } else if name == "paused"@ {
        PlayerState::Paused
    } else if name == "stopped"@ {
        PlayerState::Stopped
    } else {
        PlayerState::Unknown
    }
}

/// Whether two strings hold the same characters.
pub fn same_text(a: &str, b: &str) -> (r: bool)
    ensures
        r == (a@ == b@),
{
    let n = a.unicode_len();
    if n != b.unicode_len() {
        return false;
    }
    let mut i: usize = 0;
    while i < n
        invariant
            n == a@.len(),
            n == b@.len(),
            i <= n,
            a@.subrange(0, i as int) == b@.subrange(0, i as int),
        decreases n - i,
    {
        if a.get_char(i) != b.get_char(i) {
            return false;
        }
        assert(a@.subrange(0, i + 1) == a@.subrange(0, i as int).push(a@[i as int]));
        assert(b@.subrange(0, i + 1) == b@.subrange(0, i as int).push(b@[i as int]));
        i = i + 1;
    }
    assert(a@ == a@.subrange(0, n as int));
    assert(b@ == b@.subrange(0, n as int));
    true
}

/// Reads the value of the status document's `state` field: `"playing"`,
/// `"paused"` or `"stopped"`; anything else says nothing.
pub fn player_state_from_name(name: &str) -> (r: PlayerState)
    ensures
        r == state_of_name(name@),
{
    proof {
        reveal_strlit("playing");
        reveal_strlit("paused");
        reveal_strlit("stopped");
    }
    if same_text(name, "playing") {
        PlayerState::Playing
    } else if same_text(name, "paused") {
        PlayerState::Paused
    } else if same_text(name, "stopped") {
        PlayerState::Stopped
    } else {
        PlayerState::Unknown
    }
}

} // verus!
