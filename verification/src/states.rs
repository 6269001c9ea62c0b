use vstd::prelude::*;

verus! {

/// Asset-load gate: the process starts in `Loading` and moves to `Ready`
/// exactly once, when the asset-loading collaborator reports every declared
/// asset resolved. `Ready` is terminal.
#[derive(Clone, Copy, Debug, PartialEq, Eq, Structural)]
pub enum GameState {
    Loading,
    Ready,
}

/// Camera-control mode: the process starts with the cursor `Locked`; each
/// edge of the designated toggle key flips between `Locked` and `Free`.
#[derive(Clone, Copy, Debug, PartialEq, Eq, Structural)]
pub enum FreeCamState {
    Locked,
    Free,
}

/// The camera mode after one toggle.
pub open spec fn flipped(s: FreeCamState) -> FreeCamState {
    match s {
        FreeCamState::Locked => FreeCamState::Free,
        FreeCamState::Free => FreeCamState::Locked,
    }
}

/// The camera mode after `n` toggles.
pub open spec fn flipped_n(s: FreeCamState, n: nat) -> FreeCamState
    decreases n,
{
    if n == 0 {
        s
    } else {
        flipped(flipped_n(s, (n - 1) as nat))
    }
}

/// The camera mode alternates purely with the number of toggles, independent
/// of the timing between them: after an even number of toggles from `Locked`
/// it is `Locked`, after an odd number it is `Free`.
pub proof fn lemma_toggle_alternation(n: nat)
    ensures
        flipped_n(FreeCamState::Locked, n) == if n % 2 == 0 {
            FreeCamState::Locked
        } else {
            FreeCamState::Free
        },
    decreases n,
{
    if n > 0 {
        lemma_toggle_alternation((n - 1) as nat);
    }
}

/// The game state after the asset loader reports completion.
pub open spec fn spec_on_assets_loaded(s: GameState) -> GameState {
    GameState::Ready
}

/// Transition taken when the asset-loading collaborator signals that all
/// declared assets resolved. From `Loading` this is the single allowed
/// transition; `Ready` is terminal, so repeated signals change nothing.
pub fn on_assets_loaded(s: GameState) -> (r: GameState)
    ensures
        r == spec_on_assets_loaded(s),
        r == GameState::Ready,
{
    GameState::Ready
}

/// The game state after `n` load-complete signals, starting from `Loading`.
pub open spec fn game_state_after(n: nat) -> GameState
    decreases n,
{
    if n == 0 {
        GameState::Loading
    } else {
        spec_on_assets_loaded(game_state_after((n - 1) as nat))
    }
}

/// The `Loading` to `Ready` transition happens at most once in a process
/// lifetime: the state is `Loading` only before the first load-complete
/// signal, and every later step leaves `Ready` fixed, so no step after the
/// first one is a transition.
pub proof fn lemma_game_state_transitions_once(n: nat)
    ensures
        n == 0 ==> game_state_after(n) == GameState::Loading,
        n >= 1 ==> game_state_after(n) == GameState::Ready,
        n >= 1 ==> game_state_after((n + 1) as nat) == game_state_after(n),
    decreases n,
{
    if n > 0 {
        lemma_game_state_transitions_once((n - 1) as nat);
    }
}

/// Edge-triggered key semantics: a toggle fires only on the tick where the
/// key goes from released to pressed, never while the key is merely held.
pub fn key_edge(was_pressed: bool, is_pressed: bool) -> (fire: bool)
    ensures
        fire == (is_pressed && !was_pressed),
{
    is_pressed && !was_pressed
}

} // verus!
