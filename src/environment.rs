//! The episode controller: the running/ended state machine, key tracking and
//! the reads that derive score, lines and RGB pixels from engine data.
//!
//! The emulation engine itself lives outside this library. Callers perform
//! the engine work that each method asks for (load the start state, emulate
//! one frame, forward a key edge, write the divider register) and report its
//! outcome back.
use vstd::prelude::*;
use crate::bcd::{bcd_value, decode_bcd, lemma_bcd_bound, lemma_valid_bcd_range, pow100, valid_bcd};
use crate::keys::{edge_for, Key, KeyEdge, KeyStates};

verus! {

/// Width of the Game Boy screen, in pixels.
pub const WIDTH: usize = 160;

/// Height of the Game Boy screen, in pixels.
pub const HEIGHT: usize = 144;

/// Address executed when Tetris runs its game-over sequence; an execute
/// breakpoint here ends the episode.
pub const GAME_OVER_ADDRESS: u16 = 0x6803;

/// Address of the least significant byte of the three-byte BCD score.
pub const SCORE_ADDRESS: u16 = 0xC0A0;

/// Address of the least significant byte of the two-byte BCD line count.
pub const LINES_ADDRESS: u16 = 0xFF9E;

/// Exclusive upper bound of the value written to the divider register at the
/// start of an episode.
pub const SEED_LIMIT: u16 = 0xFFFF;

/// Why an episode could not start.
#[derive(Clone, Copy, PartialEq, Eq, Debug, Structural)]
pub enum EpisodeError {
    /// The engine rejected the game-start save state.
    StateLoad,
}

/// The abstract state of an environment.
pub struct EnvModel {
    pub running: bool,
    pub keys: Map<Key, bool>,
}

/// One call on an environment, with the engine outcome it depends on.
pub enum Operation {
    /// `start_episode`, after the engine did or did not accept the save state.
    StartEpisode { state_loaded: bool },
    /// The termination breakpoint fired.
    GameOver,
    /// `set_key_state`.
    SetKey { key: Key, pressed: bool },
}

/// The state after one operation.
pub open spec fn step(s: EnvModel, op: Operation) -> EnvModel {
    match op {
        Operation::StartEpisode { state_loaded } => EnvModel {
            running: s.running || state_loaded,
            keys: s.keys,
        },
        Operation::GameOver => EnvModel { running: false, keys: s.keys },
        Operation::SetKey { key, pressed } => EnvModel {
            running: s.running,
            keys: s.keys.insert(key, pressed),
        },
    }
}

/// The state after a sequence of operations, first to last.
pub open spec fn replay(s: EnvModel, ops: Seq<Operation>) -> EnvModel
    decreases ops.len(),
{
    if ops.len() == 0 {
        s
    } else {
        step(replay(s, ops.drop_last()), ops.last())
    }
}

/// The operation starts an episode.
pub open spec fn starts_episode(op: Operation) -> bool {
    op matches Operation::StartEpisode { state_loaded: true }
}

/// The state of a newly built environment.
pub open spec fn initial_model() -> EnvModel {
    EnvModel { running: false, keys: Map::total(|k: Key| false) }
}

/// Red component of an RGBA pixel: bits 31 to 24.
pub open spec fn red(p: u32) -> u8 {
    (p >> 24u32) as u8
}

/// Green component of an RGBA pixel: bits 23 to 16.
pub open spec fn green(p: u32) -> u8 {
    ((p >> 16u32) & 0xFFu32) as u8
}

/// Blue component of an RGBA pixel: bits 15 to 8.
pub open spec fn blue(p: u32) -> u8 {
    ((p >> 8u32) & 0xFFu32) as u8
}

/// Relies on rand's `thread_rng` and `Rng::gen_range`, which draws a value in
/// `[low, high)` and panics only when `low >= high`.
#[verifier::external_body]
fn random_below(high: u16) -> (r: u16)
    requires
        0 < high,
    ensures
        r < high,
{
    rand::Rng::gen_range(&mut rand::thread_rng(), 0, high)
}

/// Episode state of one Tetris environment.
pub struct Environment {
    keys: KeyStates,
    running: bool,
}

impl View for Environment {
    type V = EnvModel;

    closed spec fn view(&self) -> EnvModel {
        EnvModel { running: self.running, keys: self.keys@ }
    }
}

impl Environment {
    /// A new environment: no episode running, every button released.
    pub fn new() -> (r: Environment)
        ensures
            r@ == initial_model(),
    {
        Environment { keys: KeyStates::released(), running: false }
    }

    /// Starts an episode once the engine has been asked to load the
    /// game-start state. When it was loaded, marks the episode as running and
    /// returns the value to write to the divider register; otherwise returns
    /// the error and changes nothing.
    pub fn start_episode(&mut self, state_loaded: bool) -> (r: Result<u16, EpisodeError>)
        ensures
            final(self)@ == step(old(self)@, Operation::StartEpisode { state_loaded }),
            state_loaded ==> final(self)@.running,
            match r {
                Ok(seed) => state_loaded && seed < SEED_LIMIT,
                Err(e) => !state_loaded && e == EpisodeError::StateLoad,
            },
    {
        if !state_loaded {
            return Err(EpisodeError::StateLoad);
        }
        let seed = random_below(SEED_LIMIT);
        self.running = true;
        Ok(seed)
    }

    /// Whether the engine should emulate one frame now: only while an
    /// episode is running.
    pub fn run_frame(&self) -> (r: bool)
        ensures
            r == self@.running,
    {
        self.running
    }

    /// Records that the termination breakpoint fired: the episode has ended.
    pub fn game_over(&mut self)
        ensures
            final(self)@ == step(old(self)@, Operation::GameOver),
            !final(self)@.running,
    {
        self.running = false;
    }

    /// Whether an episode is in progress.
    pub fn is_running(&self) -> (r: bool)
        ensures
            r == self@.running,
    {
        self.running
    }

    /// Records a button state and returns the edge to forward to the engine:
    /// one only when the state changed.
    pub fn set_key_state(&mut self, key: Key, pressed: bool) -> (r: Option<KeyEdge>)
        ensures
            final(self)@ == step(old(self)@, Operation::SetKey { key, pressed }),
            r == edge_for(old(self)@.keys[key], key, pressed),
    {
        self.keys.signal(key, pressed)
    }

    /// The score from its three BCD bytes, most significant first: the bytes
    /// at `SCORE_ADDRESS + 2`, `SCORE_ADDRESS + 1` and `SCORE_ADDRESS`.
    pub fn get_score(score_bcd: &[u8]) -> (r: i32)
        requires
            score_bcd@.len() == 3,
        ensures
            r == bcd_value(score_bcd@),
            valid_bcd(score_bcd@) ==> 0 <= r <= 999_999,
    {
        proof {
            lemma_bcd_bound(score_bcd@);
            reveal_with_fuel(pow100, 4);
            if valid_bcd(score_bcd@) {
                lemma_valid_bcd_range(score_bcd@);
            }
        }
        decode_bcd(score_bcd) as i32
    }

    /// The line count from its two BCD bytes, most significant first: the
    /// bytes at `LINES_ADDRESS + 1` and `LINES_ADDRESS`.
    pub fn get_lines(lines_bcd: &[u8]) -> (r: i32)
        requires
            lines_bcd@.len() == 2,
        ensures
            r == bcd_value(lines_bcd@),
            valid_bcd(lines_bcd@) ==> 0 <= r <= 9_999,
    {
        proof {
            lemma_bcd_bound(lines_bcd@);
            reveal_with_fuel(pow100, 3);
            if valid_bcd(lines_bcd@) {
                lemma_valid_bcd_range(lines_bcd@);
            }
        }
        decode_bcd(lines_bcd) as i32
    }

    /// An owned copy of a frame buffer as RGB bytes, three per pixel in
    /// pixel order, with the alpha channel dropped.
    pub fn rgb_pixels(rgba: &[u32]) -> (r: Vec<u8>)
        ensures
            r@.len() == 3 * rgba@.len(),
            forall|i: int|
                #![trigger rgba@[i]]
                0 <= i < rgba@.len() ==> r@[3 * i] == red(rgba@[i]) && r@[3 * i + 1] == green(
                    rgba@[i],
                ) && r@[3 * i + 2] == blue(rgba@[i]),
    {
        let mut rgb: Vec<u8> = Vec::new();
        let mut i: usize = 0;
        while i < rgba.len()
            invariant
                i <= rgba@.len(),
                rgb@.len() == 3 * i,
                forall|j: int|
                    #![trigger rgba@[j]]
                    0 <= j < i ==> rgb@[3 * j] == red(rgba@[j]) && rgb@[3 * j + 1] == green(
                        rgba@[j],
                    ) && rgb@[3 * j + 2] == blue(rgba@[j]),
            decreases rgba@.len() - i,
        {
            let pixel = rgba[i];
            rgb.push((pixel >> 24u32) as u8);
            rgb.push(((pixel >> 16u32) & 0xFFu32) as u8);
            rgb.push(((pixel >> 8u32) & 0xFFu32) as u8);
            i = i + 1;
        }
        rgb
    }
}

/// A new environment is not running; right after a start whose state loaded
/// it is; after the termination breakpoint it is not.
pub proof fn lemma_running_transitions(s: EnvModel)
    ensures
        !initial_model().running,
        step(s, Operation::StartEpisode { state_loaded: true }).running,
        !step(s, Operation::GameOver).running,
        step(s, Operation::StartEpisode { state_loaded: false }) == s,
{
}

/// Once an episode has ended it stays ended through any sequence of calls
/// that holds no successful episode start.
pub proof fn lemma_ended_until_started(s: EnvModel, ops: Seq<Operation>)
    requires
        !s.running,
        forall|i: int| 0 <= i < ops.len() ==> !starts_episode(#[trigger] ops[i]),
    ensures
        !replay(s, ops).running,
    decreases ops.len(),
{
    if ops.len() > 0 {
        let p = ops.drop_last();
        assert(!starts_episode(ops[ops.len() - 1]));
        assert forall|i: int| 0 <= i < p.len() implies !starts_episode(#[trigger] p[i]) by {
            assert(p[i] == ops[i]);
        }
        lemma_ended_until_started(s, p);
    }
}

/// Once an episode is started it keeps running through any sequence of calls
/// in which the termination breakpoint does not fire.
pub proof fn lemma_running_until_game_over(s: EnvModel, ops: Seq<Operation>)
    requires
        s.running,
        forall|i: int| 0 <= i < ops.len() ==> !(#[trigger] ops[i] is GameOver),
    ensures
        replay(s, ops).running,
    decreases ops.len(),
{
    if ops.len() > 0 {
        let p = ops.drop_last();
        assert(!(ops[ops.len() - 1] is GameOver));
        assert forall|i: int| 0 <= i < p.len() implies !(#[trigger] p[i] is GameOver) by {
            assert(p[i] == ops[i]);
        }
        lemma_running_until_game_over(s, p);
    }
}

} // verus!
