//! Laws of the state machine that relate several calls: each is a proof
//! of a guarantee the library gives across a whole interaction, stated
//! over the same transition relations that the contracts of
//! [`GameState::update`] and [`GameState::handle_key`] use.

use vstd::prelude::*;
use crate::game::{GameState, Collision, spec_collision, update_rel, key_transition, fresh_state,
    interval_micros, sat_add_u64, shifted_body, initial_body, initial_head, BASE_VELOCITY};
use crate::geometry::{Key, key_direction, opposite};

verus! {

/// The state after a run of key events, applied first to last.
pub open spec fn apply_keys(s: GameState, keys: Seq<Key>) -> GameState
    decreases keys.len(),
{
    if keys.len() == 0 {
        s
    } else {
        apply_keys(key_transition(s, keys[0]), keys.drop_first())
    }
}

/// Total elapsed time of a run of update calls, in microseconds.
pub open spec fn total_micros(dts: Seq<u64>) -> int
    decreases dts.len(),
{
    if dts.len() == 0 {
        0
    } else {
        dts[0] + total_micros(dts.drop_first())
    }
}

/// A total of unsigned times is never negative.
pub proof fn lemma_total_micros_nonneg(dts: Seq<u64>)
    ensures
        total_micros(dts) >= 0,
    decreases dts.len(),
{
    if dts.len() > 0 {
        lemma_total_micros_nonneg(dts.drop_first());
    }
}

/// While the direction lock is held, a run of key events that contains no
/// restart key leaves the state exactly as it was.
pub proof fn lemma_locked_keys_ignored(s: GameState, keys: Seq<Key>)
    requires
        s.direction_lock,
        forall|i: int| 0 <= i < keys.len() ==> keys[i] != Key::Restart,
    ensures
        apply_keys(s, keys) == s,
    decreases keys.len(),
{
    if keys.len() > 0 {
        assert(key_transition(s, keys[0]) == s);
        assert forall|i: int| 0 <= i < keys.drop_first().len()
            implies keys.drop_first()[i] != Key::Restart by {
            assert(keys.drop_first()[i] == keys[i + 1]);
        }
        lemma_locked_keys_ignored(s, keys.drop_first());
    }
}

/// One-change-per-tick law: starting between ticks, with the direction
/// lock clear, a run of direction keys — none asking for the current
/// direction or its exact reverse — results in exactly one effective
/// direction change. The first key is accepted, turns the snake and takes
/// the lock; every later key of the run is ignored.
pub proof fn lemma_one_change_per_tick(s: GameState, keys: Seq<Key>)
    requires
        !s.direction_lock,
        keys.len() >= 1,
        forall|i: int| 0 <= i < keys.len() ==> (#[trigger] key_direction(keys[i])) is Some,
        forall|i: int| 0 <= i < keys.len() ==> key_direction(keys[i]) != Some(s.direction),
        forall|i: int| 0 <= i < keys.len() ==> key_direction(keys[i]) != Some(opposite(s.direction)),
    ensures
        apply_keys(s, keys) == key_transition(s, keys[0]),
        key_direction(keys[0]) == Some(apply_keys(s, keys).direction),
        apply_keys(s, keys).direction_lock,
    decreases keys.len(),
{
    let s1 = key_transition(s, keys[0]);
    assert(key_direction(keys[0]) is Some);
    assert(s1.direction_lock);
    assert forall|i: int| 0 <= i < keys.drop_first().len()
        implies keys.drop_first()[i] != Key::Restart by {
        assert(key_direction(keys.drop_first()[i]) == key_direction(keys[i + 1]));
    }
    lemma_locked_keys_ignored(s1, keys.drop_first());
}

/// Growth-delay law: a tick that finds the head on the fruit leaves the
/// body length unchanged that tick and only marks growth as pending; the
/// next tick that performs a movement step lengthens the body by exactly
/// one segment.
pub proof fn lemma_growth_delay(s0: GameState, dt1: u64, s1: GameState, dt2: u64, s2: GameState)
    requires
        s0.wf(),
        !s0.restart_requested,
        !s0.growth_pending,
        spec_collision(s0) == Collision::WithFruit,
        sat_add_u64(s0.elapsed_micros as int, dt1 as int) >= interval_micros(s0.velocity),
        update_rel(s0, dt1, s1),
        sat_add_u64(s1.elapsed_micros as int, dt2 as int) >= interval_micros(s1.velocity),
        spec_collision(s1) != Collision::WithSnake,
        spec_collision(s1) != Collision::WithBorder,
        update_rel(s1, dt2, s2),
    ensures
        s1.body@.len() == s0.body@.len(),
        s1.growth_pending,
        s2.body@.len() == s1.body@.len() + 1,
{
    assert(s1.body@ == shifted_body(s0.head, s0.body@, false));
    assert(s1.body@.len() == 1 + s0.body@.drop_last().len());
    assert(s2.body@ == shifted_body(s1.head, s1.body@, true));
}

/// Border-collision law: a tick that starts with the head on the border —
/// x at 0 or the board width, or y at 0 or the board height — ends the
/// game, and nothing moves that tick: head, body, fruit and score are all
/// untouched.
pub proof fn lemma_border_collision(s: GameState, dt: u64, post: GameState)
    requires
        s.wf(),
        !s.restart_requested,
        s.head.x == 0 || s.head.x == s.width || s.head.y == 0 || s.head.y == s.height,
        sat_add_u64(s.elapsed_micros as int, dt as int) >= interval_micros(s.velocity),
        update_rel(s, dt, post),
    ensures
        post.game_over,
        post.head == s.head,
        post.body == s.body,
        post.fruit == s.fruit,
        post.score == s.score,
        post.elapsed_micros == 0,
{
    let c = spec_collision(s);
    assert(c == Collision::WithSnake || c == Collision::WithBorder);
}

/// Self-collision law: a tick that starts with the head on a body cell
/// ends the game, and nothing moves that tick.
pub proof fn lemma_self_collision(s: GameState, dt: u64, post: GameState)
    requires
        s.wf(),
        !s.restart_requested,
        s.body@.contains(s.head),
        sat_add_u64(s.elapsed_micros as int, dt as int) >= interval_micros(s.velocity),
        update_rel(s, dt, post),
    ensures
        post.game_over,
        post.head == s.head,
        post.body == s.body,
        post.fruit == s.fruit,
        post.score == s.score,
        post.elapsed_micros == 0,
{
    assert(spec_collision(s) == Collision::WithSnake);
}

/// Game over is absorbing: once the game has ended, an update call with
/// any elapsed time — whether or not it crosses a tick — leaves head,
/// body, fruit, score, direction and velocity exactly where they were,
/// and the game stays over. Only the restart key leads out of this state.
pub proof fn lemma_game_over_absorbing(s: GameState, dt: u64, post: GameState)
    requires
        s.wf(),
        s.game_over,
        !s.restart_requested,
        update_rel(s, dt, post),
    ensures
        post.game_over,
        post.head == s.head,
        post.body == s.body,
        post.fruit == s.fruit,
        post.score == s.score,
        post.direction == s.direction,
        post.velocity == s.velocity,
{
    // Well-formedness keeps the ended game on its collision: the head
    // still stands on a body or border cell, so a fired tick re-detects
    // the self or border collision and never reaches the movement step.
    let c = spec_collision(s);
    assert(c == Collision::WithSnake || c == Collision::WithBorder);
}

/// Sub-tick idempotence law: a run of update calls whose elapsed times,
/// added to the time already accumulated, stay below the tick interval
/// changes nothing but the time accumulator; head, body, fruit and score
/// are untouched by every call of the run.
pub proof fn lemma_sub_tick_updates(states: Seq<GameState>, dts: Seq<u64>)
    requires
        states.len() == dts.len() + 1,
        states[0].wf(),
        !states[0].restart_requested,
        states[0].elapsed_micros + total_micros(dts) < interval_micros(states[0].velocity),
        forall|i: int| 0 <= i < dts.len() ==> update_rel(#[trigger] states[i], dts[i], states[i + 1]),
    ensures
        states.last() == (GameState {
            elapsed_micros: (states[0].elapsed_micros + total_micros(dts)) as u64,
            ..states[0]
        }),
        states.last().head == states[0].head,
        states.last().body == states[0].body,
        states.last().fruit == states[0].fruit,
        states.last().score == states[0].score,
    decreases dts.len(),
{
    if dts.len() == 0 {
        assert(states.last() == states[0]);
    } else {
        lemma_total_micros_nonneg(dts.drop_first());
        let s0 = states[0];
        let s1 = states[1];
        assert(update_rel(s0, dts[0], s1));
        let acc = sat_add_u64(s0.elapsed_micros as int, dts[0] as int);
        assert(acc == s0.elapsed_micros + dts[0]);
        assert(acc < interval_micros(s0.velocity));
        assert(s1 == GameState { elapsed_micros: acc as u64, ..s0 });
        assert(s1.wf());
        let rest_states = states.drop_first();
        let rest_dts = dts.drop_first();
        assert forall|i: int| 0 <= i < rest_dts.len()
            implies update_rel(#[trigger] rest_states[i], rest_dts[i], rest_states[i + 1]) by {
            assert(rest_states[i] == states[i + 1]);
            assert(rest_states[i + 1] == states[i + 2]);
            assert(rest_dts[i] == dts[i + 1]);
            assert(update_rel(states[i + 1], dts[i + 1], states[i + 2]));
        }
        lemma_sub_tick_updates(rest_states, rest_dts);
        assert(rest_states.last() == states.last());
    }
}

/// Restart law: after a game over, the restart key followed by a single
/// update call — with any elapsed time — rebuilds the initial layout on
/// the same board: head at the grid center, the four-segment body, base
/// velocity, score zero, and the game no longer over.
pub proof fn lemma_restart(s: GameState, dt: u64, post: GameState)
    requires
        s.wf(),
        s.game_over,
        update_rel(key_transition(s, Key::Restart), dt, post),
    ensures
        fresh_state(post, s.width, s.height),
        post.head == initial_head(s.width, s.height),
        post.body@ == initial_body(s.width, s.height),
        post.score == 0,
        post.velocity == BASE_VELOCITY,
        !post.game_over,
{
    assert(key_transition(s, Key::Restart).restart_requested);
}

} // verus!
