//! What holds of the input resolver whatever the keys do.

use vstd::prelude::*;
use crate::components::Direction;
use crate::input::{
    active, after_events, axis_balance, effective, first_active, held, horizontal_balance_of,
    lemma_pressed, lemma_without, pressed, released, transition, vertical_balance_of, without,
    KeyEvent,
};

verus! {

/// Presses of `d` less releases of `d` among the events that are taken.
pub open spec fn net_count(events: Seq<KeyEvent>, d: Direction) -> int
    decreases events.len(),
{
    if events.len() == 0 {
        0
    } else {
        net_count(events.drop_last(), d) + (match transition(events.last()) {
            Some((x, down)) => if x != d {
                0int
            } else if down {
                1int
            } else {
                -1int
            },
            None => 0int,
        })
    }
}

/// True when the events come in pairs: a key goes down only while it is not
/// held and up only while it is held.
pub open spec fn paired(events: Seq<KeyEvent>) -> bool
    decreases events.len(),
{
    if events.len() == 0 {
        true
    } else {
        &&& paired(events.drop_last())
        &&& match transition(events.last()) {
            Some((d, down)) => down != after_events(Seq::empty(), events.drop_last()).contains(d),
            None => true,
        }
    }
}

/// True when every event that is taken lies on one axis: the horizontal one
/// if `horizontal`, else the vertical one.
pub open spec fn on_axis(events: Seq<KeyEvent>, horizontal: bool) -> bool {
    forall|i: int|
        0 <= i < events.len() ==> match transition(#[trigger] events[i]) {
            Some((d, _)) => d.horizontal() == horizontal,
            None => true,
        }
}

/// The direction of an axis that lowers its balance.
pub open spec fn low_end(horizontal: bool) -> Direction {
    if horizontal {
        Direction::Left
    } else {
        Direction::Up
    }
}

/// The direction of an axis that raises its balance.
pub open spec fn high_end(horizontal: bool) -> Direction {
    if horizontal {
        Direction::Right
    } else {
        Direction::Down
    }
}

/// What `first_active` finds: nothing exactly if no direction at or behind
/// `from` is active, and else an active direction of the stack.
pub proof fn lemma_first_active(stack: Seq<Direction>, from: int)
    requires
        0 <= from <= stack.len(),
    ensures
        first_active(stack, from) is None <==> (forall|i: int|
            from <= i < stack.len() ==> !active(stack, #[trigger] stack[i])),
        first_active(stack, from) matches Some(d) ==> stack.contains(d) && active(stack, d),
    decreases stack.len() - from,
{
    if from < stack.len() {
        lemma_first_active(stack, from + 1);
        if active(stack, stack[from]) {
            assert(stack.contains(stack[from]));
        } else {
            assert forall|i: int| from <= i < stack.len() && (forall|j: int|
                from + 1 <= j < stack.len() ==> !active(stack, #[trigger] stack[j])) implies !active(
                stack,
                #[trigger] stack[i],
            ) by {
                if i > from {
                    assert(!active(stack, stack[i]));
                }
            }
        }
    }
}

/// A direction in front of the stack whose axis is not balanced is the
/// effective one.
pub proof fn lemma_front_is_effective(stack: Seq<Direction>)
    requires
        stack.len() > 0,
        active(stack, stack[0]),
    ensures
        effective(stack) == Some(stack[0]),
{
}

/// Whatever events come, no direction is held twice.
pub proof fn lemma_events_keep_stack(stack: Seq<Direction>, events: Seq<KeyEvent>)
    requires
        stack.no_duplicates(),
    ensures
        after_events(stack, events).no_duplicates(),
    decreases events.len(),
{
    if events.len() > 0 {
        lemma_events_keep_stack(stack, events.drop_last());
        let before = after_events(stack, events.drop_last());
        match transition(events.last()) {
            Some((d, down)) => {
                lemma_pressed(before, d);
                lemma_without(before, d);
            },
            None => {},
        }
    }
}

/// After events that all lie on one axis, only directions of that axis are
/// held.
pub proof fn lemma_events_stay_on_axis(events: Seq<KeyEvent>, horizontal: bool)
    requires
        on_axis(events, horizontal),
    ensures
        after_events(Seq::empty(), events).no_duplicates(),
        forall|d: Direction|
            after_events(Seq::empty(), events).contains(d) ==> d.horizontal() == horizontal,
    decreases events.len(),
{
    lemma_events_keep_stack(Seq::empty(), events);
    if events.len() > 0 {
        let front = events.drop_last();
        assert forall|i: int| 0 <= i < front.len() implies match transition(#[trigger] front[i]) {
            Some((d, _)) => d.horizontal() == horizontal,
            None => true,
        } by {
            assert(front[i] == events[i]);
        }
        lemma_events_stay_on_axis(front, horizontal);
        lemma_events_keep_stack(Seq::empty(), front);
        let before = after_events(Seq::empty(), front);
        assert(events.last() == events[events.len() - 1]);
        match transition(events.last()) {
            Some((d, down)) => {
                lemma_pressed(before, d);
                lemma_without(before, d);
            },
            None => {},
        }
    }
}

/// After events on one axis the resolver answers by that axis alone: no
/// direction while both of its keys or none are held, and else the one key
/// that is held.
pub proof fn lemma_single_axis(events: Seq<KeyEvent>, horizontal: bool)
    requires
        on_axis(events, horizontal),
    ensures
        ({
            let stack = after_events(Seq::empty(), events);
            let low = low_end(horizontal);
            let high = high_end(horizontal);
            &&& effective(stack) is None <==> held(stack, low) == held(stack, high)
            &&& effective(stack) is None <==> axis_balance(stack, low) == 0
            &&& held(stack, low) > held(stack, high) ==> effective(stack) == Some(low)
            &&& held(stack, high) > held(stack, low) ==> effective(stack) == Some(high)
        }),
{
    let stack = after_events(Seq::empty(), events);
    let low = low_end(horizontal);
    let high = high_end(horizontal);
    lemma_events_stay_on_axis(events, horizontal);
    lemma_first_active(stack, 0);
    assert forall|i: int| 0 <= i < stack.len() implies active(stack, #[trigger] stack[i]) == (
    axis_balance(stack, low) != 0) by {
        assert(stack.contains(stack[i]));
    }
    if held(stack, low) != held(stack, high) {
        let d = if stack.contains(low) {
            low
        } else {
            high
        };
        let k = stack.index_of(d);
        assert(active(stack, stack[k]));
        match effective(stack) {
            Some(e) => {
                assert(stack.contains(e));
                assert(e.horizontal() == horizontal);
            },
            None => {},
        }
    }
}

/// In paired events the presses of a direction less its releases say
/// whether it is held: the count is 1 or 0.
pub proof fn lemma_net_count_of_paired(events: Seq<KeyEvent>, d: Direction)
    requires
        paired(events),
    ensures
        net_count(events, d) == held(after_events(Seq::empty(), events), d),
    decreases events.len(),
{
    if events.len() > 0 {
        let front = events.drop_last();
        lemma_net_count_of_paired(front, d);
        lemma_events_keep_stack(Seq::empty(), front);
        let before = after_events(Seq::empty(), front);
        match transition(events.last()) {
            Some((x, down)) => {
                lemma_pressed(before, x);
                lemma_without(before, x);
            },
            None => {},
        }
    }
}

/// The balance invariant: after paired events on one axis that do not leave
/// both keys of the axis held, there is no effective direction exactly if
/// the presses less the releases are zero for each of the two directions.
pub proof fn lemma_balance_invariant(events: Seq<KeyEvent>, horizontal: bool)
    requires
        on_axis(events, horizontal),
        paired(events),
        !(after_events(Seq::empty(), events).contains(low_end(horizontal)) && after_events(
            Seq::empty(),
            events,
        ).contains(high_end(horizontal))),
    ensures
        effective(after_events(Seq::empty(), events)) is None <==> (net_count(
            events,
            low_end(horizontal),
        ) == 0 && net_count(events, high_end(horizontal)) == 0),
{
    lemma_single_axis(events, horizontal);
    lemma_net_count_of_paired(events, low_end(horizontal));
    lemma_net_count_of_paired(events, high_end(horizontal));
}

/// Recency with cancellation: where neither key of an axis is held, a press
/// of `d` makes `d` effective; a press of its opposite on top cancels both,
/// so that neither is effective; and the release of the opposite makes `d`
/// effective again, without a new press of `d`.
pub proof fn lemma_recency_with_cancellation(stack: Seq<Direction>, d: Direction)
    requires
        stack.no_duplicates(),
        !stack.contains(d),
        !stack.contains(d.opposite()),
    ensures
        ({
            let one = pressed(stack, d);
            let both = pressed(one, d.opposite());
            let back = released(both, d.opposite());
            &&& effective(one) == Some(d)
            &&& effective(both) != Some(d)
            &&& effective(both) != Some(d.opposite())
            &&& stack.len() == 0 ==> effective(both) is None
            &&& back == one
            &&& effective(back) == Some(d)
        }),
{
    let o = d.opposite();
    let one = pressed(stack, d);
    let both = pressed(one, o);
    let back = released(both, o);
    lemma_pressed(stack, d);
    lemma_pressed(one, o);
    lemma_without(both, o);
    assert(without(stack, d) == stack);
    assert(without(one, o) == one);
    assert(both =~= seq![o] + one);
    assert(both[0] == o);
    let k = both.index_of(o);
    assert(both.contains(o));
    assert(k == 0);
    assert(both.remove(0) =~= one);
    assert(axis_balance(both, d) == 0);
    assert(axis_balance(both, o) == 0);
    lemma_first_active(both, 0);
    lemma_front_is_effective(one);
    if stack.len() == 0 {
        assert(one =~= seq![d]);
        assert(both =~= seq![o, d]);
        assert forall|i: int| 0 <= i < both.len() implies !active(both, #[trigger] both[i]) by {}
    }
}

/// Idempotence: a press of a held direction adds no entry to the stack and
/// changes no balance, and a second press changes nothing more than the
/// first did.
pub proof fn lemma_press_is_idempotent(stack: Seq<Direction>, d: Direction)
    requires
        stack.no_duplicates(),
    ensures
        pressed(stack, d).no_duplicates(),
        pressed(pressed(stack, d), d) == pressed(stack, d),
        stack.contains(d) ==> pressed(stack, d).len() == stack.len(),
        stack.contains(d) ==> horizontal_balance_of(pressed(stack, d)) == horizontal_balance_of(stack),
        stack.contains(d) ==> vertical_balance_of(pressed(stack, d)) == vertical_balance_of(stack),
{
    let once = pressed(stack, d);
    lemma_pressed(stack, d);
    let k = once.index_of(d);
    assert(once[0] == d);
    assert(k == 0);
    assert(once.remove(0) =~= without(stack, d));
    if stack.contains(d) {
        assert forall|x: Direction| once.contains(x) == stack.contains(x) by {}
    }
}

/// The release of a direction that is not held changes nothing, and a
/// second release changes nothing more than the first did.
pub proof fn lemma_release_is_idempotent(stack: Seq<Direction>, d: Direction)
    requires
        stack.no_duplicates(),
    ensures
        !stack.contains(d) ==> released(stack, d) == stack,
        released(released(stack, d), d) == released(stack, d),
        !released(stack, d).contains(d),
{
    lemma_without(stack, d);
}

} // verus!
