//! Tracking which keys are currently held.

use vstd::prelude::*;

use crate::events::KeyEvent;

verus! {

/// The set of codes a sequence of raw codes mentions.
pub open spec fn key_set(codes: Seq<u16>) -> Set<u16> {
    Set::new(|c: u16| codes.contains(c))
}

/// What one event does to the held set: a press inserts its code, a release
/// removes it.
pub open spec fn apply_event(held: Set<u16>, ev: KeyEvent) -> Set<u16> {
    if ev.pressed {
        held.insert(ev.code)
    } else {
        held.remove(ev.code)
    }
}

/// The held set after replaying a whole sequence of events.
pub open spec fn replay(held: Set<u16>, events: Seq<KeyEvent>) -> Set<u16>
    decreases events.len(),
{
    if events.len() == 0 {
        held
    } else {
        apply_event(replay(held, events.drop_last()), events.last())
    }
}

/// The most recent event for code `c` exists and is a press.
pub open spec fn last_event_pressed(events: Seq<KeyEvent>, c: u16) -> bool {
    exists|i: int|
        0 <= i < events.len() && (#[trigger] events[i]).code == c && events[i].pressed && (forall|
            j: int,
        |
            i < j < events.len() ==> events[j].code != c)
}

/// Maintains the set of currently-held key codes from a stream of
/// press/release events. Duplicate presses and stray releases are no-ops on
/// the set.
pub struct KeyStateTracker {
    held: Vec<u16>,
}

impl KeyStateTracker {
    /// The held set.
    pub closed spec fn view(&self) -> Set<u16> {
        key_set(self.held@)
    }

    /// A fresh tracker with nothing held.
    pub fn new() -> (t: KeyStateTracker)
        ensures
            t@ == Set::<u16>::empty(),
    {
        let t = KeyStateTracker { held: Vec::new() };
        proof {
            assert(t@ =~= Set::<u16>::empty());
        }
        t
    }

    /// Whether `code` is currently held.
    pub fn is_held(&self, code: u16) -> (r: bool)
        ensures
            r == self@.contains(code),
    {
        let mut i: usize = 0;
        while i < self.held.len()
            invariant
                i <= self.held@.len(),
                forall|k: int| 0 <= k < i ==> self.held@[k] != code,
            decreases self.held@.len() - i,
        {
            if self.held[i] == code {
                return true;
            }
            i = i + 1;
        }
        false
    }

    /// Apply one press/release event to the held set.
    pub fn apply(&mut self, ev: &KeyEvent)
        ensures
            final(self)@ == apply_event(old(self)@, *ev),
    {
        if ev.pressed {
            if !self.is_held(ev.code) {
                let ghost prev = self.held@;
                self.held.push(ev.code);
                proof {
                    lemma_push_contains(prev, ev.code);
                }
            }
            proof {
                assert(self@ =~= apply_event(old(self)@, *ev));
            }
        } else {
            let ghost orig = self.held@;
            let mut kept: Vec<u16> = Vec::new();
            let mut i: usize = 0;
            while i < self.held.len()
                invariant
                    i <= self.held@.len(),
                    self.held@ == orig,
                    forall|c: u16|
                        #[trigger] kept@.contains(c) ==> orig.contains(c) && c != ev.code,
                    forall|k: int|
                        0 <= k < i ==> orig[k] == ev.code || kept@.contains(#[trigger] orig[k]),
                decreases self.held@.len() - i,
            {
                let code = self.held[i];
                if code != ev.code {
                    let ghost prevk = kept@;
                    kept.push(code);
                    proof {
                        lemma_push_contains(prevk, code);
                        assert(orig[i as int] == code);
                    }
                }
                i = i + 1;
            }
            self.held = kept;
            proof {
                assert forall|c: u16| old(self)@.contains(c) && c != ev.code implies
                    self@.contains(c) by {
                    let k = choose|k: int| 0 <= k < orig.len() && orig[k] == c;
                    assert(kept@.contains(orig[k]));
                }
                assert(self@ =~= apply_event(old(self)@, *ev));
            }
        }
    }

    /// The held codes, for callers outside the proof.
    pub fn snapshot(&self) -> (codes: Vec<u16>)
        ensures
            key_set(codes@) == self@,
    {
        let mut codes: Vec<u16> = Vec::new();
        let mut i: usize = 0;
        while i < self.held.len()
            invariant
                i <= self.held@.len(),
                codes@ =~= self.held@.subrange(0, i as int),
            decreases self.held@.len() - i,
        {
            codes.push(self.held[i]);
            i = i + 1;
        }
        proof {
            assert(codes@ =~= self.held@);
        }
        codes
    }
}

/// Law: applying the same event twice is the same as applying it once:
/// duplicate presses and duplicate releases are no-ops on the held set.
pub proof fn lemma_apply_event_idempotent(held: Set<u16>, ev: KeyEvent)
    ensures
        apply_event(apply_event(held, ev), ev) == apply_event(held, ev),
{
    assert(apply_event(apply_event(held, ev), ev) =~= apply_event(held, ev));
}

/// Pushing an element onto a sequence adds exactly that element to the set
/// of elements the sequence mentions.
proof fn lemma_push_contains(s: Seq<u16>, x: u16)
    ensures
        forall|c: u16| #[trigger] s.push(x).contains(c) <==> (s.contains(c) || c == x),
{
    assert forall|c: u16| #[trigger] s.push(x).contains(c) implies (s.contains(c) || c == x) by {
        let k = choose|k: int| 0 <= k < s.push(x).len() && s.push(x)[k] == c;
        if k < s.len() {
            assert(s[k] == c);
        }
    }
    assert forall|c: u16| s.contains(c) implies s.push(x).contains(c) by {
        let k = choose|k: int| 0 <= k < s.len() && s[k] == c;
        assert(s.push(x)[k] == c);
    }
    assert(s.push(x)[s.len() as int] == x);
}

/// Law: after replaying any sequence of press/release events from an empty
/// tracker, a code is held exactly when its most recent event was a press.
/// Duplicate presses and duplicate releases change nothing beyond that.
pub proof fn lemma_replay_tracks_last_event(events: Seq<KeyEvent>)
    ensures
        forall|c: u16|
            #[trigger] replay(Set::empty(), events).contains(c) <==> last_event_pressed(events, c),
{
    assert forall|c: u16|
        #[trigger] replay(Set::empty(), events).contains(c) <==> last_event_pressed(
            events,
            c,
        ) by {
        lemma_replay_code(events, c);
    }
}

proof fn lemma_replay_code(events: Seq<KeyEvent>, c: u16)
    ensures
        replay(Set::empty(), events).contains(c) <==> last_event_pressed(events, c),
    decreases events.len(),
{
    if events.len() == 0 {
        assert(!last_event_pressed(events, c));
    } else {
        let front = events.drop_last();
        let e = events.last();
        let n = events.len() as int;
        lemma_replay_code(front, c);
        assert(forall|j: int| 0 <= j < n - 1 ==> events[j] == front[j]);
        if e.code == c {
            if e.pressed {
                assert(replay(Set::empty(), events).contains(c));
                assert(last_event_pressed(events, c)) by {
                    assert(events[n - 1].code == c && events[n - 1].pressed && (forall|j: int|
                        n - 1 < j < n ==> events[j].code != c));
                }
            } else {
                assert(!replay(Set::empty(), events).contains(c));
                assert(!last_event_pressed(events, c)) by {
                    if last_event_pressed(events, c) {
                        let i = choose|i: int|
                            0 <= i < n && events[i].code == c && events[i].pressed && (forall|
                                j: int,
                            |
                                i < j < n ==> events[j].code != c);
                        if i < n - 1 {
                            assert(events[n - 1].code != c);
                        }
                        assert(false);
                    }
                }
            }
        } else {
            assert(replay(Set::empty(), events).contains(c) <==> replay(
                Set::empty(),
                front,
            ).contains(c));
            assert(last_event_pressed(front, c) ==> last_event_pressed(events, c)) by {
                if last_event_pressed(front, c) {
                    let i = choose|i: int|
                        0 <= i < front.len() && front[i].code == c && front[i].pressed && (forall|
                            j: int,
                        |
                            i < j < front.len() ==> front[j].code != c);
                    assert(events[i].code == c && events[i].pressed);
                    assert(forall|j: int| i < j < n ==> events[j].code != c) by {
                        assert(forall|j: int| i < j < n - 1 ==> events[j] == front[j]);
                    }
                }
            }
            assert(last_event_pressed(events, c) ==> last_event_pressed(front, c)) by {
                if last_event_pressed(events, c) {
                    let i = choose|i: int|
                        0 <= i < n && events[i].code == c && events[i].pressed && (forall|j: int|
                            i < j < n ==> events[j].code != c);
                    assert(i < n - 1);
                    assert(front[i].code == c && front[i].pressed);
                    assert(forall|j: int| i < j < front.len() ==> front[j].code != c);
                }
            }
        }
    }
}

} // verus!
