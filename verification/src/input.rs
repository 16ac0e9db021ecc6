//! Resolves the arrow keys that are held to at most one direction of
//! movement.
//!
//! The resolver keeps the held directions in the order in which they were
//! pressed, the latest first, and one balance for each axis: the number of
//! held keys that point right (or down) less the number that point left (or
//! up). Two opposite keys that are held together cancel each other, so the
//! direction that counts is the latest that was pressed on an axis whose
//! balance is not zero.
//!
//! A key is either held or not: a second press of a held key only moves it to
//! the front, and the release of a key that is not held changes nothing.

use vstd::prelude::*;
use std::collections::VecDeque;
use crate::components::Direction;

verus! {

/// Key code of the right arrow key.
pub const KEY_RIGHT: i32 = 1073741903;

/// Key code of the left arrow key.
pub const KEY_LEFT: i32 = 1073741904;

/// Key code of the down arrow key.
pub const KEY_DOWN: i32 = 1073741905;

/// Key code of the up arrow key.
pub const KEY_UP: i32 = 1073741906;

/// One key going down or up, as the host reports it.
#[derive(Debug, Clone, Copy, PartialEq, Eq, Structural)]
pub struct KeyEvent {
    pub key_code: i32,
    pub pressed: bool,
    /// Set by the host when the event comes from holding the key down.
    pub is_repeat: bool,
}

/// The direction that a key stands for, if it is an arrow key.
pub open spec fn key_direction(key_code: int) -> Option<Direction> {
    if key_code == KEY_LEFT {
        Some(Direction::Left)
    } else if key_code == KEY_RIGHT {
        Some(Direction::Right)
    } else if key_code == KEY_UP {
        Some(Direction::Up)
    } else if key_code == KEY_DOWN {
        Some(Direction::Down)
    } else {
        None
    }
}

/// The key that stands for a direction.
pub open spec fn key_of(d: Direction) -> i32 {
    match d {
        Direction::Left => KEY_LEFT,
        Direction::Right => KEY_RIGHT,
        Direction::Up => KEY_UP,
        Direction::Down => KEY_DOWN,
    }
}

/// 1 when `d` is held, else 0.
pub open spec fn held(stack: Seq<Direction>, d: Direction) -> int {
    if stack.contains(d) {
        1
    } else {
        0
    }
}

/// Held keys that point right less held keys that point left.
pub open spec fn horizontal_balance_of(stack: Seq<Direction>) -> int {
    held(stack, Direction::Right) - held(stack, Direction::Left)
}

/// Held keys that point down less held keys that point up.
pub open spec fn vertical_balance_of(stack: Seq<Direction>) -> int {
    held(stack, Direction::Down) - held(stack, Direction::Up)
}

/// The balance of the axis that `d` lies on.
pub open spec fn axis_balance(stack: Seq<Direction>, d: Direction) -> int {
    if d.horizontal() {
        horizontal_balance_of(stack)
    } else {
        vertical_balance_of(stack)
    }
}

/// True when the axis of `d` is not balanced, so that a held `d` is not
/// cancelled by its opposite.
pub open spec fn active(stack: Seq<Direction>, d: Direction) -> bool {
    axis_balance(stack, d) != 0
}

/// What a change of `delta` held keys of `direction` adds to the horizontal
/// and to the vertical balance.
pub open spec fn balance_shift(direction: Direction, delta: int) -> (int, int) {
    match direction {
        Direction::Right => (delta, 0),
        Direction::Left => (-delta, 0),
        Direction::Down => (0, delta),
        Direction::Up => (0, -delta),
    }
}

/// The stack with `d` taken out.
pub open spec fn without(stack: Seq<Direction>, d: Direction) -> Seq<Direction> {
    if stack.contains(d) {
        stack.remove(stack.index_of(d))
    } else {
        stack
    }
}

/// The stack after `d` went down: `d` is in front, once.
pub open spec fn pressed(stack: Seq<Direction>, d: Direction) -> Seq<Direction> {
    seq![d] + without(stack, d)
}

/// The stack after `d` went up.
pub open spec fn released(stack: Seq<Direction>, d: Direction) -> Seq<Direction> {
    without(stack, d)
}

/// The first direction at or behind index `from` whose axis is not balanced.
pub open spec fn first_active(stack: Seq<Direction>, from: int) -> Option<Direction>
    decreases stack.len() - from,
{
    if from < 0 || from >= stack.len() {
        None
    } else if active(stack, stack[from]) {
        Some(stack[from])
    } else {
        first_active(stack, from + 1)
    }
}

/// The direction that drives movement: the latest pressed among the held
/// directions that are not cancelled.
pub open spec fn effective(stack: Seq<Direction>) -> Option<Direction> {
    first_active(stack, 0)
}

/// What an event asks for: a direction and whether it went down. Repeats and
/// keys that are no arrow keys ask for nothing.
pub open spec fn transition(event: KeyEvent) -> Option<(Direction, bool)> {
    if event.is_repeat {
        None
    } else {
        match key_direction(event.key_code as int) {
            Some(d) => Some((d, event.pressed)),
            None => None,
        }
    }
}

/// The stack after one event.
pub open spec fn after_event(stack: Seq<Direction>, event: KeyEvent) -> Seq<Direction> {
    match transition(event) {
        Some((d, true)) => pressed(stack, d),
        Some((d, false)) => released(stack, d),
        None => stack,
    }
}

/// The stack after a run of events, taken in order.
pub open spec fn after_events(stack: Seq<Direction>, events: Seq<KeyEvent>) -> Seq<Direction>
    decreases events.len(),
{
    if events.len() == 0 {
        stack
    } else {
        after_event(after_events(stack, events.drop_last()), events.last())
    }
}

/// True when at least one of the events asks for something.
pub open spec fn any_transition(events: Seq<KeyEvent>) -> bool {
    exists|i: int| 0 <= i < events.len() && transition(#[trigger] events[i]) is Some
}

/// Folds key events into the set of held directions and answers which
/// direction, if any, drives movement.
#[derive(Debug)]
pub struct InputHandler {
    direction_stack: VecDeque<Direction>,
    horizontal_balance: i32,
    vertical_balance: i32,
}

/// Takes `d` out of a stack in which nothing occurs twice.
fn remove_direction(stack: &mut VecDeque<Direction>, d: Direction) -> (was_held: bool)
    requires
        old(stack)@.no_duplicates(),
    ensures
        was_held == old(stack)@.contains(d),
        final(stack)@ == without(old(stack)@, d),
{
    let mut i: usize = 0;
    while i < stack.len()
        invariant
            i <= stack@.len(),
            stack@ == old(stack)@,
            stack@.no_duplicates(),
            forall|j: int| 0 <= j < i ==> stack@[j] != d,
        decreases stack@.len() - i,
    {
        if stack[i] == d {
            stack.remove(i);
            return true;
        }
        i = i + 1;
    }
    false
}

impl InputHandler {
    /// The held directions, the latest pressed first.
    pub closed spec fn view(&self) -> Seq<Direction> {
        self.direction_stack@
    }

    /// The balance kept for the horizontal axis.
    pub closed spec fn spec_horizontal_balance(&self) -> int {
        self.horizontal_balance as int
    }

    /// The balance kept for the vertical axis.
    pub closed spec fn spec_vertical_balance(&self) -> int {
        self.vertical_balance as int
    }

    /// No direction is held twice, and each balance is that of the held
    /// directions.
    pub open spec fn wf(&self) -> bool {
        &&& self@.no_duplicates()
        &&& self.spec_horizontal_balance() == horizontal_balance_of(self@)
        &&& self.spec_vertical_balance() == vertical_balance_of(self@)
    }

    /// A resolver with no key held.
    pub fn new() -> (handler: InputHandler)
        ensures
            handler.wf(),
            handler@ == Seq::<Direction>::empty(),
    {
        InputHandler {
            direction_stack: VecDeque::new(),
            horizontal_balance: 0,
            vertical_balance: 0,
        }
    }

    /// Records that the key of `direction` went down. The direction moves to
    /// the front of the stack; the balance of its axis changes only if the
    /// key was not held before.
    pub fn press_key(&mut self, direction: Direction)
        requires
            old(self).wf(),
        ensures
            final(self).wf(),
            final(self)@ == pressed(old(self)@, direction),
    {
        proof {
            lemma_pressed(self@, direction);
        }
        let was_held: bool = remove_direction(&mut self.direction_stack, direction);
        self.direction_stack.push_front(direction);
        if !was_held {
            self.update_balance(direction, 1);
        }
    }

    /// Records that the key of `direction` went up. Nothing changes if the
    /// key was not held.
    pub fn release_key(&mut self, direction: Direction)
        requires
            old(self).wf(),
        ensures
            final(self).wf(),
            final(self)@ == released(old(self)@, direction),
    {
        proof {
            lemma_without(self@, direction);
        }
        let was_held: bool = remove_direction(&mut self.direction_stack, direction);
        if was_held {
            self.update_balance(direction, -1);
        }
    }

    /// Adds `delta` to the balance of the axis of `direction` where it points
    /// right or down, and subtracts it where it points left or up.
    fn update_balance(&mut self, direction: Direction, delta: i32)
        requires
            i32::MIN <= old(self).spec_horizontal_balance() + balance_shift(direction, delta as int).0
                <= i32::MAX,
            i32::MIN <= old(self).spec_vertical_balance() + balance_shift(direction, delta as int).1
                <= i32::MAX,
        ensures
            final(self)@ == old(self)@,
            final(self).spec_horizontal_balance() == old(self).spec_horizontal_balance()
                + balance_shift(direction, delta as int).0,
            final(self).spec_vertical_balance() == old(self).spec_vertical_balance() + balance_shift(
                direction,
                delta as int,
            ).1,
    {
        match direction {
            Direction::Left => {
                self.horizontal_balance = self.horizontal_balance - delta;
            },
            Direction::Right => {
                self.horizontal_balance = self.horizontal_balance + delta;
            },
            Direction::Up => {
                self.vertical_balance = self.vertical_balance - delta;
            },
            Direction::Down => {
                self.vertical_balance = self.vertical_balance + delta;
            },
        }
    }

    /// Returns the current effective direction: the latest pressed of the
    /// held directions that its opposite does not cancel.
    pub fn get_effective_direction(&self) -> (r: Option<Direction>)
        requires
            self.wf(),
        ensures
            r == effective(self@),
    {
        let mut i: usize = 0;
        while i < self.direction_stack.len()
            invariant
                self.wf(),
                i <= self@.len(),
                first_active(self@, i as int) == effective(self@),
            decreases self@.len() - i,
        {
            let direction: Direction = self.direction_stack[i];
            if self.is_direction_active(direction) {
                return Some(direction);
            }
            i = i + 1;
        }
        None
    }

    /// True when the axis of `direction` is not balanced.
    fn is_direction_active(&self, direction: Direction) -> (r: bool)
        requires
            self.wf(),
        ensures
            r == active(self@, direction),
    {
        if direction.is_horizontal() {
            self.horizontal_balance != 0
        } else if direction.is_vertical() {
            self.vertical_balance != 0
        } else {
            false
        }
    }

    /// Folds one event of the host into the held directions. Repeats and keys
    /// that are no arrow keys are ignored; the result says whether the event
    /// was taken.
    pub fn handle_event(&mut self, event: KeyEvent) -> (taken: bool)
        requires
            old(self).wf(),
        ensures
            final(self).wf(),
            final(self)@ == after_event(old(self)@, event),
            taken == (transition(event) is Some),
    {
        if event.is_repeat {
            return false;
        }
        match direction_of_key(event.key_code) {
            Some(direction) => {
                if event.pressed {
                    self.press_key(direction);
                } else {
                    self.release_key(direction);
                }
                true
            },
            None => false,
        }
    }

    /// Folds the events of one frame, in order. The result says whether any
    /// of them was taken.
    pub fn handle_events(&mut self, events: &Vec<KeyEvent>) -> (taken: bool)
        requires
            old(self).wf(),
        ensures
            final(self).wf(),
            final(self)@ == after_events(old(self)@, events@),
            taken == any_transition(events@),
    {
        let mut taken: bool = false;
        let mut i: usize = 0;
        while i < events.len()
            invariant
                i <= events@.len(),
                self.wf(),
                self@ == after_events(old(self)@, events@.take(i as int)),
                taken == any_transition(events@.take(i as int)),
            decreases events@.len() - i,
        {
            let one: bool = self.handle_event(events[i]);
            proof {
                let before = events@.take(i as int);
                let after = events@.take(i as int + 1);
                assert(after.drop_last() =~= before);
            }
            taken = taken || one;
            i = i + 1;
        }
        assert(events@.take(i as int) =~= events@);
        taken
    }

    /// The balance of the horizontal axis: 1 when only the right key is
    /// held, -1 when only the left key is, else 0.
    pub fn horizontal_balance(&self) -> (r: i32)
        requires
            self.wf(),
        ensures
            r == horizontal_balance_of(self@),
    {
        self.horizontal_balance
    }

    /// The balance of the vertical axis: 1 when only the down key is held,
    /// -1 when only the up key is, else 0.
    pub fn vertical_balance(&self) -> (r: i32)
        requires
            self.wf(),
        ensures
            r == vertical_balance_of(self@),
    {
        self.vertical_balance
    }

    /// The held directions, the latest pressed first.
    pub fn held_directions(&self) -> (r: Vec<Direction>)
        ensures
            r@ == self@,
    {
        let mut out: Vec<Direction> = Vec::new();
        let mut i: usize = 0;
        while i < self.direction_stack.len()
            invariant
                i <= self@.len(),
                out@ == self@.take(i as int),
            decreases self@.len() - i,
        {
            out.push(self.direction_stack[i]);
            i = i + 1;
        }
        out
    }
}

/// The direction that a key stands for; `None` for every key but the four
/// arrow keys.
pub fn direction_of_key(key_code: i32) -> (r: Option<Direction>)
    ensures
        r == key_direction(key_code as int),
{
    if key_code == KEY_LEFT {
        Some(Direction::Left)
    } else if key_code == KEY_RIGHT {
        Some(Direction::Right)
    } else if key_code == KEY_UP {
        Some(Direction::Up)
    } else if key_code == KEY_DOWN {
        Some(Direction::Down)
    } else {
        None
    }
}

/// Removing one item of a sequence without duplicates removes that item
/// and no other, and leaves no duplicates.
proof fn lemma_remove_at(stack: Seq<Direction>, k: int)
    requires
        stack.no_duplicates(),
        0 <= k < stack.len(),
    ensures
        stack.remove(k).no_duplicates(),
        !stack.remove(k).contains(stack[k]),
        forall|x: Direction| x != stack[k] ==> stack.remove(k).contains(x) == stack.contains(x),
{
    let rest = stack.remove(k);
    assert(rest.len() == stack.len() - 1);
    assert forall|j: int| 0 <= j < rest.len() implies #[trigger] rest[j] == stack[if j < k { j } else { j + 1 }] by {}
    assert forall|i: int, j: int| 0 <= i < rest.len() && 0 <= j < rest.len() && i != j implies rest[i]
        != rest[j] by {
        let si = if i < k { i } else { i + 1 };
        let sj = if j < k { j } else { j + 1 };
        assert(rest[i] == stack[si]);
        assert(rest[j] == stack[sj]);
    }
    assert forall|j: int| 0 <= j < rest.len() implies #[trigger] rest[j] != stack[k] by {
        let sj = if j < k { j } else { j + 1 };
        assert(rest[j] == stack[sj]);
    }
    assert forall|x: Direction| x != stack[k] implies rest.contains(x) == stack.contains(x) by {
        if stack.contains(x) {
            let i = choose|i: int| 0 <= i < stack.len() && stack[i] == x;
            let ri = if i < k { i } else { i - 1 };
            assert(rest[ri] == x);
        }
        if rest.contains(x) {
            let j = choose|j: int| 0 <= j < rest.len() && rest[j] == x;
            let sj = if j < k { j } else { j + 1 };
            assert(stack[sj] == x);
        }
    }
}

/// Taking a direction out of a stack without duplicates removes that
/// direction and no other, and leaves no duplicates.
pub proof fn lemma_without(stack: Seq<Direction>, d: Direction)
    requires
        stack.no_duplicates(),
    ensures
        without(stack, d).no_duplicates(),
        !without(stack, d).contains(d),
        forall|x: Direction| x != d ==> without(stack, d).contains(x) == stack.contains(x),
        without(stack, d).len() == stack.len() - held(stack, d),
{
    if stack.contains(d) {
        let k = stack.index_of(d);
        assert(0 <= k < stack.len() && stack[k] == d);
        lemma_remove_at(stack, k);
    }
}

/// Pressing a direction puts it in front, keeps every other held direction
/// and leaves no duplicates.
pub proof fn lemma_pressed(stack: Seq<Direction>, d: Direction)
    requires
        stack.no_duplicates(),
    ensures
        pressed(stack, d).no_duplicates(),
        pressed(stack, d)[0] == d,
        pressed(stack, d).contains(d),
        forall|x: Direction| x != d ==> pressed(stack, d).contains(x) == stack.contains(x),
        pressed(stack, d).len() == stack.len() + 1 - held(stack, d),
{
    lemma_without(stack, d);
    let rest = without(stack, d);
    let next = pressed(stack, d);
    assert(next[0] == d);
    assert forall|i: int| 1 <= i < next.len() implies next[i] == rest[i - 1] by {}
    assert forall|x: Direction| x != d implies next.contains(x) == stack.contains(x) by {
        if rest.contains(x) {
            let i = rest.index_of(x);
            assert(next[i + 1] == x);
        }
        if next.contains(x) {
            let i = next.index_of(x);
            assert(rest[i - 1] == x);
        }
    }
    assert forall|i: int, j: int| 0 <= i < next.len() && 0 <= j < next.len() && i != j implies next[i]
        != next[j] by {
        if i >= 1 {
            assert(rest.contains(rest[i - 1]));
        }
        if j >= 1 {
            assert(rest.contains(rest[j - 1]));
        }
    }
}

} // verus!
