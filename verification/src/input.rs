//! Keyboard and mouse button state, advanced once per frame from the events
//! that arrived since the last frame.
//!
//! Buttons and keys are named by integer codes; what a code stands for is up
//! to the window layer that queues the events.

use vstd::prelude::*;

use std::collections::{HashMap, HashSet};

verus! {

broadcast use vstd::std_specs::hash::group_hash_axioms;

/// The button sets that a frame's events act on.
pub struct ButtonSets {
    pub pressed: Set<u64>,
    pub just_pressed: Set<u64>,
    pub just_released: Set<u64>,
}

/// One event on button `code`: pressed when `press`, else released.
///
/// A press of a button that is not held marks it just pressed; a release
/// always marks it just released.
pub open spec fn step(s: ButtonSets, code: u64, press: bool) -> ButtonSets {
    if press {
        ButtonSets {
            pressed: s.pressed.insert(code),
            just_pressed: if s.pressed.contains(code) {
                s.just_pressed
            } else {
                s.just_pressed.insert(code)
            },
            just_released: s.just_released,
        }
    } else {
        ButtonSets {
            pressed: s.pressed.remove(code),
            just_pressed: s.just_pressed,
            just_released: s.just_released.insert(code),
        }
    }
}

/// The events `evs`, applied in order.
pub open spec fn apply_all(s: ButtonSets, evs: Seq<(u64, bool)>) -> ButtonSets
    decreases evs.len(),
{
    if evs.len() == 0 {
        s
    } else {
        step(apply_all(s, evs.drop_last()), evs.last().0, evs.last().1)
    }
}

/// A frame: the "just" sets start empty, the held set carries over.
pub open spec fn frame(pressed: Set<u64>, evs: Seq<(u64, bool)>) -> ButtonSets {
    apply_all(
        ButtonSets { pressed, just_pressed: Set::empty(), just_released: Set::empty() },
        evs,
    )
}

fn apply_button_event(
    pressed: &mut HashSet<u64>,
    just_pressed: &mut HashSet<u64>,
    just_released: &mut HashSet<u64>,
    code: u64,
    press: bool,
)
    ensures
        (ButtonSets {
            pressed: final(pressed)@,
            just_pressed: final(just_pressed)@,
            just_released: final(just_released)@,
        }) == step(
            ButtonSets {
                pressed: old(pressed)@,
                just_pressed: old(just_pressed)@,
                just_released: old(just_released)@,
            },
            code,
            press,
        ),
{
    if press {
        if !pressed.contains(&code) {
            just_pressed.insert(code);
        }
        pressed.insert(code);
    } else {
        pressed.remove(&code);
        just_released.insert(code);
    }
}

/// A queued key event: the key's code, whether it went down, and the event
/// as the window layer delivered it.
pub struct KeyInput<E> {
    pub code: u64,
    pub pressed: bool,
    pub event: E,
}

/// Code and direction of each key event.
pub open spec fn key_codes<E>(evs: Seq<KeyInput<E>>) -> Seq<(u64, bool)> {
    evs.map_values(|e: KeyInput<E>| (e.code, e.pressed))
}

/// The last event of each key among `evs`.
pub open spec fn last_events<E>(evs: Seq<KeyInput<E>>) -> Map<u64, E>
    decreases evs.len(),
{
    if evs.len() == 0 {
        Map::empty()
    } else {
        last_events(evs.drop_last()).insert(evs.last().code, evs.last().event)
    }
}

/// Keyboard state.
pub struct KeyBoardInputs<E> {
    /// Events queued since the last update, oldest first.
    pub next: Vec<KeyInput<E>>,
    pub pressed: HashSet<u64>,
    pub just_released: HashSet<u64>,
    pub just_pressed: HashSet<u64>,
    /// The last event of each key in the last update.
    pub events: HashMap<u64, E>,
}

impl<E> Default for KeyBoardInputs<E> {
    fn default() -> (r: Self)
        ensures
            r.next@.len() == 0,
            r.pressed@.is_empty(),
            r.just_released@.is_empty(),
            r.just_pressed@.is_empty(),
            r.events@.is_empty(),
    {
        KeyBoardInputs {
            next: Vec::new(),
            pressed: HashSet::new(),
            just_released: HashSet::new(),
            just_pressed: HashSet::new(),
            events: HashMap::new(),
        }
    }
}

impl<E> KeyBoardInputs<E> {
    /// Apply the queued events in order: the held keys follow them, the
    /// "just" sets and the event map hold this frame's changes only, and the
    /// queue is emptied.
    pub fn update(&mut self)
        ensures
            (ButtonSets {
                pressed: final(self).pressed@,
                just_pressed: final(self).just_pressed@,
                just_released: final(self).just_released@,
            }) == frame(old(self).pressed@, key_codes(old(self).next@)),
            final(self).events@ == last_events(old(self).next@),
            final(self).next@.len() == 0,
    {
        self.just_released.clear();
        self.just_pressed.clear();
        self.events.clear();
        let mut queued: Vec<KeyInput<E>> = Vec::new();
        std::mem::swap(&mut queued, &mut self.next);
        let ghost evs = queued@;
        let ghost start = ButtonSets {
            pressed: self.pressed@,
            just_pressed: Set::empty(),
            just_released: Set::empty(),
        };
        for ke in it: queued.into_iter()
            invariant
                it.seq() == evs,
                self.next@.len() == 0,
                (ButtonSets {
                    pressed: self.pressed@,
                    just_pressed: self.just_pressed@,
                    just_released: self.just_released@,
                }) == apply_all(start, key_codes(evs.take(it.index() as int))),
                self.events@ == last_events(evs.take(it.index() as int)),
        {
            let ghost i = it.index() as int;
            proof {
                assert(evs.take(i + 1).drop_last() =~= evs.take(i));
                assert(key_codes(evs.take(i + 1)).drop_last() =~= key_codes(evs.take(i)));
            }
            apply_button_event(
                &mut self.pressed,
                &mut self.just_pressed,
                &mut self.just_released,
                ke.code,
                ke.pressed,
            );
            self.events.insert(ke.code, ke.event);
        }
        proof {
            assert(evs.take(evs.len() as int) =~= evs);
        }
    }
}

/// Mouse state; scroll events are carried through as the window layer
/// delivered them.
pub struct MouseInputs<S> {
    /// Button events queued since the last update, oldest first.
    pub next: Vec<(u64, bool)>,
    /// Scroll events queued since the last update.
    pub next_scroll: Vec<S>,
    /// The scroll events of the last update.
    pub scroll: Vec<S>,
    pub pressed: HashSet<u64>,
    pub just_released: HashSet<u64>,
    pub just_pressed: HashSet<u64>,
}

impl<S> Default for MouseInputs<S> {
    fn default() -> (r: Self)
        ensures
            r.next@.len() == 0,
            r.next_scroll@.len() == 0,
            r.scroll@.len() == 0,
            r.pressed@.is_empty(),
            r.just_released@.is_empty(),
            r.just_pressed@.is_empty(),
    {
        MouseInputs {
            next: Vec::new(),
            next_scroll: Vec::new(),
            scroll: Vec::new(),
            pressed: HashSet::new(),
            just_released: HashSet::new(),
            just_pressed: HashSet::new(),
        }
    }
}

impl<S> MouseInputs<S> {
    /// Apply the queued button events in order and hand the queued scroll
    /// events over to `scroll`; both queues are emptied.
    pub fn update(&mut self)
        ensures
            (ButtonSets {
                pressed: final(self).pressed@,
                just_pressed: final(self).just_pressed@,
                just_released: final(self).just_released@,
            }) == frame(old(self).pressed@, old(self).next@),
            final(self).scroll@ == old(self).next_scroll@,
            final(self).next_scroll@.len() == 0,
            final(self).next@.len() == 0,
    {
        self.just_released.clear();
        self.just_pressed.clear();
        self.scroll.clear();
        std::mem::swap(&mut self.scroll, &mut self.next_scroll);
        let ghost evs = self.next@;
        let ghost handed = self.scroll@;
        let ghost start = ButtonSets {
            pressed: self.pressed@,
            just_pressed: Set::empty(),
            just_released: Set::empty(),
        };
        let n = self.next.len();
        let mut i: usize = 0;
        while i < n
            invariant
                i <= n,
                n == evs.len(),
                self.next@ == evs,
                self.scroll@ == handed,
                self.next_scroll@.len() == 0,
                (ButtonSets {
                    pressed: self.pressed@,
                    just_pressed: self.just_pressed@,
                    just_released: self.just_released@,
                }) == apply_all(start, evs.take(i as int)),
            decreases n - i,
        {
            proof {
                assert(evs.take(i + 1).drop_last() =~= evs.take(i as int));
            }
            let (code, press) = self.next[i];
            apply_button_event(
                &mut self.pressed,
                &mut self.just_pressed,
                &mut self.just_released,
                code,
                press,
            );
            i = i + 1;
        }
        proof {
            assert(evs.take(n as int) =~= evs);
        }
        self.next.clear();
    }
}

/// A button that no event of the frame names keeps its state: held or not,
/// and in or out of each "just" set.
pub proof fn lemma_untouched_button_keeps_state(s: ButtonSets, evs: Seq<(u64, bool)>, code: u64)
    requires
        forall|i: int| 0 <= i < evs.len() ==> (#[trigger] evs[i]).0 != code,
    ensures
        apply_all(s, evs).pressed.contains(code) == s.pressed.contains(code),
        apply_all(s, evs).just_pressed.contains(code) == s.just_pressed.contains(code),
        apply_all(s, evs).just_released.contains(code) == s.just_released.contains(code),
    decreases evs.len(),
{
    if evs.len() > 0 {
        let prev = evs.drop_last();
        assert forall|i: int| 0 <= i < prev.len() implies (#[trigger] prev[i]).0 != code by {
            assert(prev[i] == evs[i]);
        }
        lemma_untouched_button_keeps_state(s, prev, code);
        assert(evs.last() == evs[evs.len() - 1]);
    }
}

/// Whether a button is held after the frame is decided by its last event.
pub proof fn lemma_last_event_decides(s: ButtonSets, evs: Seq<(u64, bool)>, i: int)
    requires
        0 <= i < evs.len(),
        forall|j: int| i < j < evs.len() ==> (#[trigger] evs[j]).0 != evs[i].0,
    ensures
        apply_all(s, evs).pressed.contains(evs[i].0) == evs[i].1,
    decreases evs.len(),
{
    if i < evs.len() - 1 {
        let prev = evs.drop_last();
        assert forall|j: int| i < j < prev.len() implies (#[trigger] prev[j]).0 != prev[i].0 by {
            assert(prev[j] == evs[j]);
        }
        lemma_last_event_decides(s, prev, i);
        assert(evs.last() == evs[evs.len() - 1]);
    } else {
        assert(evs.last() == evs[i]);
    }
}

/// In a frame, a button is just released exactly when one of the frame's
/// events releases it.
pub proof fn lemma_just_released_iff_released(pressed: Set<u64>, evs: Seq<(u64, bool)>, code: u64)
    ensures
        frame(pressed, evs).just_released.contains(code) <==> exists|i: int|
            0 <= i < evs.len() && #[trigger] evs[i] == (code, false),
    decreases evs.len(),
{
    if evs.len() > 0 {
        let prev = evs.drop_last();
        lemma_just_released_iff_released(pressed, prev, code);
        if exists|i: int| 0 <= i < prev.len() && #[trigger] prev[i] == (code, false) {
            let i = choose|i: int| 0 <= i < prev.len() && #[trigger] prev[i] == (code, false);
            assert(evs[i] == prev[i]);
        }
        if exists|i: int| 0 <= i < evs.len() && #[trigger] evs[i] == (code, false) {
            let i = choose|i: int| 0 <= i < evs.len() && #[trigger] evs[i] == (code, false);
            if i < evs.len() - 1 {
                assert(prev[i] == evs[i]);
            }
        }
    }
}

/// In a frame, a button is just pressed only when one of the frame's events
/// presses it.
pub proof fn lemma_just_pressed_needs_press(pressed: Set<u64>, evs: Seq<(u64, bool)>, code: u64)
    requires
        frame(pressed, evs).just_pressed.contains(code),
    ensures
        exists|i: int| 0 <= i < evs.len() && #[trigger] evs[i] == (code, true),
    decreases evs.len(),
{
    if evs.len() == 0 {
    } else {
        let prev = evs.drop_last();
        if frame(pressed, prev).just_pressed.contains(code) {
            lemma_just_pressed_needs_press(pressed, prev, code);
            let i = choose|i: int| 0 <= i < prev.len() && #[trigger] prev[i] == (code, true);
            assert(evs[i] == prev[i]);
        } else {
            assert(evs[evs.len() - 1] == (code, true));
        }
    }
}

} // verus!
