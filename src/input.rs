//! Keyboard state. Key events arrive at any time and are buffered by the
//! host; once per frame the buffered batch is folded, in arrival order, into
//! the set of keys that are held, each with the most recent "down" event.
use vstd::prelude::*;

verus! {

/// The parts of a keyboard event that the game reads: the physical key
/// code (`"KeyA"`, `"ArrowLeft"`) and the key value it produced.
#[derive(Debug)]
pub struct KeyEvent {
    pub code: String,
    pub key: String,
}

impl View for KeyEvent {
    type V = (Seq<char>, Seq<char>);

    open spec fn view(&self) -> (Seq<char>, Seq<char>) {
        (self.code@, self.key@)
    }
}

/// One buffered keyboard notification.
#[derive(Debug)]
pub enum KeyPress {
    KeyUp(KeyEvent),
    KeyDown(KeyEvent),
}

/// The key code that a notification is about.
pub open spec fn press_code(p: KeyPress) -> Seq<char> {
    match p {
        KeyPress::KeyUp(e) => e.code@,
        KeyPress::KeyDown(e) => e.code@,
    }
}

/// The held keys after one notification: "down" adds or replaces the key's
/// entry, "up" removes it.
pub open spec fn apply_press(
    held: Map<Seq<char>, (Seq<char>, Seq<char>)>,
    p: KeyPress,
) -> Map<Seq<char>, (Seq<char>, Seq<char>)> {
    match p {
        KeyPress::KeyUp(e) => held.remove(e.code@),
        KeyPress::KeyDown(e) => held.insert(e.code@, e@),
    }
}

/// The held keys after a batch of notifications, folded in order.
pub open spec fn apply_presses(
    held: Map<Seq<char>, (Seq<char>, Seq<char>)>,
    ps: Seq<KeyPress>,
) -> Map<Seq<char>, (Seq<char>, Seq<char>)>
    decreases ps.len(),
{
    if ps.len() == 0 {
        held
    } else {
        apply_press(apply_presses(held, ps.drop_last()), ps.last())
    }
}

/// The last notification of a batch that is about `code`, if any.
pub open spec fn last_press_for(ps: Seq<KeyPress>, code: Seq<char>) -> Option<KeyPress>
    decreases ps.len(),
{
    if ps.len() == 0 {
        None
    } else if press_code(ps.last()) == code {
        Some(ps.last())
    } else {
        last_press_for(ps.drop_last(), code)
    }
}

/// After a batch is folded in, whether a key is held, and with which event,
/// depends only on the last notification about that key in the batch; a key
/// that the batch does not mention keeps its entry.
pub proof fn lemma_last_press_decides(
    held: Map<Seq<char>, (Seq<char>, Seq<char>)>,
    ps: Seq<KeyPress>,
    code: Seq<char>,
)
    ensures
        ({
            let r = apply_presses(held, ps);
            match last_press_for(ps, code) {
                Some(KeyPress::KeyDown(e)) => r.contains_key(code) && r[code] == e@,
                Some(KeyPress::KeyUp(_)) => !r.contains_key(code),
                None => r.contains_key(code) == held.contains_key(code) && (held.contains_key(
                    code,
                ) ==> r[code] == held[code]),
            }
        }),
    decreases ps.len(),
{
    if ps.len() > 0 {
        lemma_last_press_decides(held, ps.drop_last(), code);
    }
}

/// Entries with pairwise distinct key codes.
pub open spec fn codes_unique(s: Seq<KeyEvent>) -> bool {
    forall|i: int, j: int|
        0 <= i < s.len() && 0 <= j < s.len() && i != j ==> s[i].code@ != s[j].code@
}

/// The map from key code to event that a list of entries stands for.
pub open spec fn held_map(s: Seq<KeyEvent>) -> Map<Seq<char>, (Seq<char>, Seq<char>)>
    decreases s.len(),
{
    if s.len() == 0 {
        Map::empty()
    } else {
        held_map(s.drop_last()).insert(s.last().code@, s.last()@)
    }
}

proof fn lemma_held_map_entries(s: Seq<KeyEvent>)
    requires
        codes_unique(s),
    ensures
        forall|c: Seq<char>|
            #[trigger] held_map(s).contains_key(c) <==> exists|i: int|
                0 <= i < s.len() && s[i].code@ == c,
        forall|i: int| 0 <= i < s.len() ==> held_map(s)[#[trigger] s[i].code@] == s[i]@,
    decreases s.len(),
{
    if s.len() > 0 {
        let p = s.drop_last();
        lemma_held_map_entries(p);
        assert forall|c: Seq<char>|
            #[trigger] held_map(s).contains_key(c) <==> exists|i: int|
                0 <= i < s.len() && s[i].code@ == c by {
            if held_map(p).contains_key(c) {
                let i = choose|i: int| 0 <= i < p.len() && p[i].code@ == c;
                assert(s[i].code@ == c);
            }
            if exists|i: int| 0 <= i < s.len() && s[i].code@ == c {
                let i = choose|i: int| 0 <= i < s.len() && s[i].code@ == c;
                if i < s.len() - 1 {
                    assert(p[i].code@ == c);
                }
            }
        }
        assert forall|i: int| 0 <= i < s.len() implies held_map(s)[#[trigger] s[i].code@]
            == s[i]@ by {
            if i < s.len() - 1 {
                assert(p[i] == s[i]);
            }
        }
    }
}

proof fn lemma_held_map_remove(s: Seq<KeyEvent>, k: int)
    requires
        codes_unique(s),
        0 <= k < s.len(),
    ensures
        codes_unique(s.remove(k)),
        held_map(s.remove(k)) == held_map(s).remove(s[k].code@),
    decreases s.len(),
{
    let p = s.drop_last();
    let r = s.remove(k);
    assert(codes_unique(r)) by {
        assert forall|i: int, j: int|
            0 <= i < r.len() && 0 <= j < r.len() && i != j implies r[i].code@ != r[j].code@ by {
            let si = if i < k { i } else { i + 1 };
            let sj = if j < k { j } else { j + 1 };
            assert(r[i] == s[si]);
            assert(r[j] == s[sj]);
        }
    }
    if k == s.len() - 1 {
        assert(r =~= p);
        lemma_held_map_entries(p);
        assert(codes_unique(p));
        assert(!held_map(p).contains_key(s[k].code@)) by {
            if held_map(p).contains_key(s[k].code@) {
                let i = choose|i: int| 0 <= i < p.len() && p[i].code@ == s[k].code@;
                assert(s[i].code@ == s[k].code@);
            }
        }
        assert(held_map(r) =~= held_map(s).remove(s[k].code@));
    } else {
        assert(codes_unique(p));
        lemma_held_map_remove(p, k);
        assert(r.drop_last() =~= p.remove(k));
        assert(r.last() == s.last());
        assert(s.last().code@ != s[k].code@);
        assert(held_map(r) =~= held_map(s).remove(s[k].code@));
    }
}

proof fn lemma_held_map_push(s: Seq<KeyEvent>, e: KeyEvent)
    ensures
        held_map(s.push(e)) == held_map(s).insert(e.code@, e@),
{
    assert(s.push(e).drop_last() =~= s);
}

/// The keys that are held, each with the most recent "down" event for it.
#[derive(Debug)]
pub struct KeyState {
    pressed_keys: Vec<KeyEvent>,
}

impl View for KeyState {
    type V = Map<Seq<char>, (Seq<char>, Seq<char>)>;

    closed spec fn view(&self) -> Map<Seq<char>, (Seq<char>, Seq<char>)> {
        held_map(self.pressed_keys@)
    }
}

impl KeyState {
    /// No key is listed twice.
    pub closed spec fn wf(&self) -> bool {
        codes_unique(self.pressed_keys@)
    }

    /// No key held.
    pub fn new() -> (r: KeyState)
        ensures
            r.wf(),
            r@ == Map::<Seq<char>, (Seq<char>, Seq<char>)>::empty(),
    {
        KeyState { pressed_keys: Vec::new() }
    }

    fn position(&self, code: &String) -> (r: Option<usize>)
        requires
            self.wf(),
        ensures
            match r {
                Some(i) => i < self.pressed_keys@.len() && self.pressed_keys@[i as int].code@
                    == code@,
                None => !self@.contains_key(code@),
            },
    {
        proof {
            lemma_held_map_entries(self.pressed_keys@);
        }
        let mut i: usize = 0;
        while i < self.pressed_keys.len()
            invariant
                i <= self.pressed_keys@.len(),
                forall|j: int| 0 <= j < i ==> self.pressed_keys@[j].code@ != code@,
            decreases self.pressed_keys@.len() - i,
        {
            if self.pressed_keys[i].code == *code {
                return Some(i);
            }
            i = i + 1;
        }
        None
    }

    /// Whether the key with this code is held.
    pub fn is_pressed(&self, code: &str) -> (r: bool)
        requires
            self.wf(),
        ensures
            r == self@.contains_key(code@),
    {
        let code = code.to_owned();
        let found = self.position(&code);
        proof {
            lemma_held_map_entries(self.pressed_keys@);
        }
        found.is_some()
    }

    /// Marks the event's key as held, with this event as its latest.
    fn set_pressed(&mut self, event: KeyEvent)
        requires
            old(self).wf(),
        ensures
            final(self).wf(),
            final(self)@ == old(self)@.insert(event.code@, event@),
    {
        let found = self.position(&event.code);
        let ghost before = self.pressed_keys@;
        if let Some(i) = found {
            self.pressed_keys.remove(i);
            proof {
                lemma_held_map_remove(before, i as int);
            }
        }
        let ghost rest = self.pressed_keys@;
        assert(!held_map(rest).contains_key(event.code@));
        proof {
            lemma_held_map_entries(rest);
            lemma_held_map_push(rest, event);
        }
        self.pressed_keys.push(event);
        assert(codes_unique(self.pressed_keys@)) by {
            assert forall|i: int, j: int|
                0 <= i < self.pressed_keys@.len() && 0 <= j < self.pressed_keys@.len() && i != j
                    implies self.pressed_keys@[i].code@ != self.pressed_keys@[j].code@ by {
                if i < rest.len() && j < rest.len() {
                    assert(self.pressed_keys@[i] == rest[i]);
                    assert(self.pressed_keys@[j] == rest[j]);
                } else if i < rest.len() {
                    assert(self.pressed_keys@[i] == rest[i]);
                    assert(held_map(rest).contains_key(rest[i].code@));
                } else {
                    assert(self.pressed_keys@[j] == rest[j]);
                    assert(held_map(rest).contains_key(rest[j].code@));
                }
            }
        }
        assert(held_map(rest).insert(event.code@, event@) =~= held_map(before).insert(
            event.code@,
            event@,
        ));
    }

    /// Marks the key with this code as no longer held.
    fn set_released(&mut self, code: &str)
        requires
            old(self).wf(),
        ensures
            final(self).wf(),
            final(self)@ == old(self)@.remove(code@),
    {
        let code = code.to_owned();
        let found = self.position(&code);
        let ghost before = self.pressed_keys@;
        match found {
            Some(i) => {
                self.pressed_keys.remove(i);
                proof {
                    lemma_held_map_remove(before, i as int);
                }
            },
            None => {
                assert(held_map(before).remove(code@) =~= held_map(before));
            },
        }
    }
}

/// Folds a drained batch of key notifications into the key state, in the
/// order they arrived, and leaves the batch empty.
pub fn process_input(state: &mut KeyState, events: &mut Vec<KeyPress>)
    requires
        old(state).wf(),
    ensures
        final(state).wf(),
        final(state)@ == apply_presses(old(state)@, old(events)@),
        final(events)@.len() == 0,
{
    let ghost start = state@;
    let ghost batch = events@;
    let ghost mut done: int = 0;
    while events.len() > 0
        invariant
            state.wf(),
            0 <= done <= batch.len(),
            events@ == batch.skip(done),
            state@ == apply_presses(start, batch.take(done)),
        decreases events@.len(),
    {
        let press = events.remove(0);
        assert(batch.take(done + 1).drop_last() =~= batch.take(done));
        assert(press == batch[done]);
        match press {
            KeyPress::KeyUp(evt) => state.set_released(evt.code.as_str()),
            KeyPress::KeyDown(evt) => state.set_pressed(evt),
        }
        proof {
            done = done + 1;
        }
        assert(events@ =~= batch.skip(done));
    }
    assert(batch.take(done) =~= batch);
}

} // verus!
