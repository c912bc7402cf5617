//! Per-display position memory.
//!
//! Each display remembers where the pet was left on it, keyed on the
//! display's identity, and the store remembers which display the pet was
//! last left on. The shell reads monitors and writes the file; everything
//! that decides where the pet opens is here.

use vstd::prelude::*;

use crate::text::{
    decimal, decimal_text, lemma_decimal_digits, lemma_decimal_injective, lemma_signed_decimal_chars,
    lemma_signed_decimal_injective, lemma_split_at_separator, same_text, signed_decimal,
    signed_decimal_text,
};

verus! {

/// A remembered position: physical pixels, absolute across the desktop.
#[derive(Debug, Clone, Copy, PartialEq, Eq, Structural)]
pub struct SavedPosition {
    pub x: i32,
    pub y: i32,
}

/// Which corner to snap to, from the tray menu.
#[derive(Debug, Clone, Copy, PartialEq, Eq, Structural)]
pub enum Corner {
    TopLeft,
    TopRight,
    BottomLeft,
    BottomRight,
}

/// The remembered positions, one per display.
///
/// Held as a list of entries with distinct keys rather than a `BTreeMap`:
/// vstd's map specification holds only for key types that obey its ordering
/// model, which it establishes for integers and tuples of them but not for
/// `String`, so over display keys it would prove nothing about a lookup. The
/// map's one promise, a key at most once, is kept as the store's invariant
/// (`wf`) instead, and the entries' order is never read.
pub struct PositionStore {
    /// One entry per display, keyed on its identity; no key twice.
    monitors: Vec<(String, SavedPosition)>,
    /// The display the pet was last left on.
    ///
    /// Without this, start-up takes whichever display enumerates first and
    /// has any saved entry, so once two displays are remembered, dragging to
    /// the second one would be undone on every launch.
    last_used: Option<String>,
}

/// The store as values: remembered positions by display key, and the
/// display last used.
pub struct PositionStoreView {
    pub monitors: Map<Seq<char>, SavedPosition>,
    pub last_used: Option<Seq<char>>,
}

/// The position stored under `key`, if any.
pub open spec fn lookup(entries: Seq<(String, SavedPosition)>, key: Seq<char>) -> Option<
    SavedPosition,
>
    decreases entries.len(),
{
    if entries.len() == 0 {
        None
    } else if entries[0].0@ == key {
        Some(entries[0].1)
    } else {
        lookup(entries.drop_first(), key)
    }
}

pub open spec fn entries_map(entries: Seq<(String, SavedPosition)>) -> Map<Seq<char>, SavedPosition> {
    Map::new(|k: Seq<char>| lookup(entries, k) is Some, |k: Seq<char>| lookup(entries, k)->0)
}

/// `m` with each entry inserted in turn, so a later entry for a key wins.
pub open spec fn inserted_all(
    m: Map<Seq<char>, SavedPosition>,
    entries: Seq<(String, SavedPosition)>,
) -> Map<Seq<char>, SavedPosition>
    decreases entries.len(),
{
    if entries.len() == 0 {
        m
    } else {
        inserted_all(m, entries.drop_last()).insert(entries.last().0@, entries.last().1)
    }
}

pub open spec fn distinct_keys(entries: Seq<(String, SavedPosition)>) -> bool {
    forall|i: int, j: int|
        0 <= i < j < entries.len() ==> #[trigger] entries[i].0@ != #[trigger] entries[j].0@
}

impl View for PositionStore {
    type V = PositionStoreView;

    closed spec fn view(&self) -> PositionStoreView {
        PositionStoreView {
            monitors: entries_map(self.monitors@),
            last_used: match self.last_used {
                Some(k) => Some(k@),
                None => None,
            },
        }
    }
}

proof fn lemma_lookup_index(entries: Seq<(String, SavedPosition)>, key: Seq<char>, i: int)
    requires
        0 <= i < entries.len(),
        entries[i].0@ == key,
        forall|j: int| 0 <= j < i ==> #[trigger] entries[j].0@ != key,
    ensures
        lookup(entries, key) == Some(entries[i].1),
    decreases i,
{
    if i > 0 {
        let t = entries.drop_first();
        assert forall|j: int| 0 <= j < i - 1 implies #[trigger] t[j].0@ != key by {
            assert(t[j] == entries[j + 1]);
        }
        lemma_lookup_index(t, key, i - 1);
    }
}

proof fn lemma_lookup_absent(entries: Seq<(String, SavedPosition)>, key: Seq<char>)
    requires
        forall|j: int| 0 <= j < entries.len() ==> #[trigger] entries[j].0@ != key,
    ensures
        lookup(entries, key) is None,
    decreases entries.len(),
{
    if entries.len() > 0 {
        let t = entries.drop_first();
        assert forall|j: int| 0 <= j < t.len() implies #[trigger] t[j].0@ != key by {
            assert(t[j] == entries[j + 1]);
        }
        lemma_lookup_absent(t, key);
    }
}

/// With distinct keys, the entry at `i` is what `lookup` finds.
proof fn lemma_lookup_distinct(entries: Seq<(String, SavedPosition)>, i: int)
    requires
        distinct_keys(entries),
        0 <= i < entries.len(),
    ensures
        lookup(entries, entries[i].0@) == Some(entries[i].1),
{
    lemma_lookup_index(entries, entries[i].0@, i);
}

/// With distinct keys, a key is found exactly when some entry has it.
proof fn lemma_lookup_found(entries: Seq<(String, SavedPosition)>, key: Seq<char>)
    requires
        distinct_keys(entries),
    ensures
        lookup(entries, key) is Some <==> exists|i: int|
            0 <= i < entries.len() && #[trigger] entries[i].0@ == key,
        forall|i: int|
            0 <= i < entries.len() && #[trigger] entries[i].0@ == key ==> lookup(entries, key)
                == Some(entries[i].1),
{
    if exists|i: int| 0 <= i < entries.len() && #[trigger] entries[i].0@ == key {
        let i = choose|i: int| 0 <= i < entries.len() && #[trigger] entries[i].0@ == key;
        lemma_lookup_distinct(entries, i);
    } else {
        lemma_lookup_absent(entries, key);
    }
    assert forall|i: int| 0 <= i < entries.len() && #[trigger] entries[i].0@ == key implies lookup(
        entries,
        key,
    ) == Some(entries[i].1) by {
        lemma_lookup_distinct(entries, i);
    }
}

/// Lookups after an entry's position is replaced in place.
proof fn lemma_replace_entry(
    before: Seq<(String, SavedPosition)>,
    after: Seq<(String, SavedPosition)>,
    f: int,
    key: Seq<char>,
    position: SavedPosition,
)
    requires
        distinct_keys(before),
        0 <= f < before.len(),
        before[f].0@ == key,
        after.len() == before.len(),
        after[f].0@ == key,
        after[f].1 == position,
        forall|j: int| 0 <= j < before.len() && j != f ==> #[trigger] after[j] == before[j],
    ensures
        distinct_keys(after),
        entries_map(after) == entries_map(before).insert(key, position),
{
    assert forall|a: int, b: int| 0 <= a < b < after.len() implies #[trigger] after[a].0@
        != #[trigger] after[b].0@ by {
        if a != f {
            assert(after[a] == before[a]);
        }
        if b != f {
            assert(after[b] == before[b]);
        }
        assert(before[a].0@ != before[b].0@);
    }
    assert forall|k: Seq<char>| #[trigger] lookup(after, k) == (if k == key {
        Some(position)
    } else {
        lookup(before, k)
    }) by {
        lemma_lookup_found(after, k);
        lemma_lookup_found(before, k);
        if k == key {
            lemma_lookup_distinct(after, f);
        } else {
            if exists|j: int| 0 <= j < after.len() && #[trigger] after[j].0@ == k {
                let j = choose|j: int| 0 <= j < after.len() && #[trigger] after[j].0@ == k;
                assert(j != f);
                assert(after[j] == before[j]);
                assert(before[j].0@ == k);
            }
            if exists|j: int| 0 <= j < before.len() && #[trigger] before[j].0@ == k {
                let j = choose|j: int| 0 <= j < before.len() && #[trigger] before[j].0@ == k;
                assert(j != f);
                assert(after[j] == before[j]);
                assert(after[j].0@ == k);
            }
        }
    }
    assert(entries_map(after) =~= entries_map(before).insert(key, position));
}

/// Lookups after a new entry is appended.
proof fn lemma_append_entry(
    before: Seq<(String, SavedPosition)>,
    after: Seq<(String, SavedPosition)>,
    key: Seq<char>,
    position: SavedPosition,
)
    requires
        distinct_keys(before),
        forall|j: int| 0 <= j < before.len() ==> #[trigger] before[j].0@ != key,
        after.len() == before.len() + 1,
        after[before.len() as int].0@ == key,
        after[before.len() as int].1 == position,
        forall|j: int| 0 <= j < before.len() ==> #[trigger] after[j] == before[j],
    ensures
        distinct_keys(after),
        entries_map(after) == entries_map(before).insert(key, position),
{
    let n = before.len() as int;
    assert forall|a: int, b: int| 0 <= a < b < after.len() implies #[trigger] after[a].0@
        != #[trigger] after[b].0@ by {
        assert(after[a] == before[a]);
        if b < n {
            assert(after[b] == before[b]);
        }
    }
    assert forall|k: Seq<char>| #[trigger] lookup(after, k) == (if k == key {
        Some(position)
    } else {
        lookup(before, k)
    }) by {
        lemma_lookup_found(after, k);
        lemma_lookup_found(before, k);
        if k == key {
            lemma_lookup_distinct(after, n);
        } else {
            if exists|j: int| 0 <= j < after.len() && #[trigger] after[j].0@ == k {
                let j = choose|j: int| 0 <= j < after.len() && #[trigger] after[j].0@ == k;
                assert(j < n);
                assert(after[j] == before[j]);
                assert(before[j].0@ == k);
            }
            if exists|j: int| 0 <= j < before.len() && #[trigger] before[j].0@ == k {
                let j = choose|j: int| 0 <= j < before.len() && #[trigger] before[j].0@ == k;
                assert(after[j] == before[j]);
                assert(after[j].0@ == k);
            }
        }
    }
    assert(entries_map(after) =~= entries_map(before).insert(key, position));
}

impl PositionStore {
    /// No display key is stored twice.
    pub closed spec fn wf(&self) -> bool {
        distinct_keys(self.monitors@)
    }

    /// An empty store: nothing remembered, no display last used.
    pub fn new() -> (r: PositionStore)
        ensures
            r.wf(),
            r@.monitors == Map::<Seq<char>, SavedPosition>::empty(),
            r@.last_used is None,
    {
        let r = PositionStore { monitors: Vec::new(), last_used: None };
        assert(entries_map(r.monitors@) =~= Map::<Seq<char>, SavedPosition>::empty());
        r
    }

    /// A store rebuilt from what was written out: each entry remembered in
    /// turn (a later entry for the same display wins), and `last_used` as
    /// given.
    pub fn from_entries(entries: Vec<(String, SavedPosition)>, last_used: Option<String>) -> (r:
        PositionStore)
        ensures
            r.wf(),
            r@.monitors == inserted_all(Map::empty(), entries@),
            r@.last_used == match last_used {
                Some(k) => Some(k@),
                None => None,
            },
    {
        let mut store = PositionStore::new();
        let n = entries.len();
        let mut i: usize = 0;
        while i < n
            invariant
                n == entries@.len(),
                i <= n,
                store.wf(),
                store@.monitors == inserted_all(Map::empty(), entries@.take(i as int)),
            decreases n - i,
        {
            let (key, position) = (entries[i].0.clone(), entries[i].1);
            store.remember(key, position);
            assert(entries@.take(i + 1).drop_last() =~= entries@.take(i as int));
            i = i + 1;
        }
        assert(entries@.take(n as int) =~= entries@);
        store.last_used = last_used;
        store
    }

    /// Remember where the pet was left on the display `key`, and that this
    /// is the display it was last left on.
    pub fn remember(&mut self, key: String, position: SavedPosition)
        requires
            old(self).wf(),
        ensures
            final(self).wf(),
            final(self)@.monitors == old(self)@.monitors.insert(key@, position),
            final(self)@.last_used == Some(key@),
    {
        let ghost before = self.monitors@;
        let n = self.monitors.len();
        let mut i: usize = 0;
        let mut found: Option<usize> = None;
        while i < n
            invariant
                n == self.monitors@.len(),
                self.monitors@ == before,
                i <= n,
                found is None ==> forall|j: int| 0 <= j < i ==> #[trigger] before[j].0@ != key@,
                found matches Some(f) ==> f < n && before[f as int].0@ == key@,
            decreases n - i,
        {
            if found.is_none() && same_text(self.monitors[i].0.as_str(), key.as_str()) {
                found = Some(i);
            }
            i = i + 1;
        }
        match found {
            Some(f) => {
                let entry = (self.monitors[f].0.clone(), position);
                self.monitors.set(f, entry);
                proof {
                    lemma_replace_entry(before, self.monitors@, f as int, key@, position);
                }
            },
            None => {
                self.monitors.push((key.clone(), position));
                proof {
                    lemma_append_entry(before, self.monitors@, key@, position);
                }
            },
        }
        self.last_used = Some(key);
    }

    /// Forget every remembered display.
    pub fn forget_all(&mut self)
        ensures
            final(self).wf(),
            final(self)@.monitors == Map::<Seq<char>, SavedPosition>::empty(),
            final(self)@.last_used is None,
    {
        self.monitors.clear();
        self.last_used = None;
        assert(entries_map(self.monitors@) =~= Map::<Seq<char>, SavedPosition>::empty());
    }

    /// Where the pet was left on the display `key`, if it was.
    pub fn get(&self, key: &str) -> (r: Option<SavedPosition>)
        ensures
            r == (if self@.monitors.contains_key(key@) {
                Some(self@.monitors[key@])
            } else {
                None
            }),
    {
        let n = self.monitors.len();
        let mut i: usize = 0;
        while i < n
            invariant
                n == self.monitors@.len(),
                i <= n,
                forall|j: int| 0 <= j < i ==> #[trigger] self.monitors@[j].0@ != key@,
            decreases n - i,
        {
            if same_text(self.monitors[i].0.as_str(), key) {
                proof {
                    lemma_lookup_index(self.monitors@, key@, i as int);
                }
                return Some(self.monitors[i].1);
            }
            i = i + 1;
        }
        proof {
            lemma_lookup_absent(self.monitors@, key@);
        }
        None
    }

    /// The display the pet was last left on.
    pub fn last_used(&self) -> (r: Option<&str>)
        ensures
            match r {
                Some(k) => self@.last_used == Some(k@),
                None => self@.last_used is None,
            },
    {
        match &self.last_used {
            Some(k) => Some(k.as_str()),
            None => None,
        }
    }

    /// Every remembered display with its position, each once, for writing the
    /// store out.
    pub fn entries(&self) -> (r: Vec<(String, SavedPosition)>)
        requires
            self.wf(),
        ensures
            distinct_keys(r@),
            entries_map(r@) == self@.monitors,
    {
        let n = self.monitors.len();
        let mut out: Vec<(String, SavedPosition)> = Vec::new();
        let mut i: usize = 0;
        while i < n
            invariant
                n == self.monitors@.len(),
                i <= n,
                out@.len() == i,
                forall|j: int|
                    0 <= j < i ==> #[trigger] out@[j].0@ == self.monitors@[j].0@ && out@[j].1
                        == self.monitors@[j].1,
            decreases n - i,
        {
            let key = self.monitors[i].0.clone();
            out.push((key, self.monitors[i].1));
            i = i + 1;
        }
        proof {
            assert forall|k: Seq<char>| #[trigger] lookup(out@, k) == lookup(self.monitors@, k) by {
                lemma_lookup_found(self.monitors@, k);
                assert(distinct_keys(out@));
                lemma_lookup_found(out@, k);
                if exists|j: int| 0 <= j < out@.len() && #[trigger] out@[j].0@ == k {
                    let j = choose|j: int| 0 <= j < out@.len() && #[trigger] out@[j].0@ == k;
                    assert(self.monitors@[j].0@ == k);
                }
                if exists|j: int|
                    0 <= j < self.monitors@.len() && #[trigger] self.monitors@[j].0@ == k {
                    let j = choose|j: int|
                        0 <= j < self.monitors@.len() && #[trigger] self.monitors@[j].0@ == k;
                    assert(out@[j].0@ == k);
                }
            }
            assert(entries_map(out@) =~= entries_map(self.monitors@));
        }
        out
    }
}

/// Which display the window should open on, and what is remembered there.
#[derive(Debug, Clone, PartialEq, Eq)]
pub struct Placement {
    /// The display's key.
    pub monitor: String,
    /// `None` means nothing is remembered for this display: use the corner.
    pub saved: Option<SavedPosition>,
}

pub open spec fn saved_at(m: Map<Seq<char>, SavedPosition>, k: Seq<char>) -> Option<SavedPosition> {
    if m.contains_key(k) {
        Some(m[k])
    } else {
        None
    }
}

/// The first of `ms` that has a remembered position.
pub open spec fn first_remembered(m: Map<Seq<char>, SavedPosition>, ms: Seq<Seq<char>>) -> Option<
    Seq<char>,
>
    decreases ms.len(),
{
    if ms.len() == 0 {
        None
    } else if m.contains_key(ms[0]) {
        Some(ms[0])
    } else {
        first_remembered(m, ms.drop_first())
    }
}

/// Where the pet opens: the display it was last left on, if that display is
/// present; else the first present display with a remembered spot; else the
/// primary display (or the first one) with nothing remembered.
pub open spec fn placement_for(
    store: PositionStoreView,
    ms: Seq<Seq<char>>,
    primary: Option<Seq<char>>,
) -> Option<(Seq<char>, Option<SavedPosition>)> {
    let last = match store.last_used {
        Some(k) => if ms.contains(k) {
            Some(k)
        } else {
            None
        },
        None => None,
    };
    let chosen = if last is Some {
        last
    } else {
        first_remembered(store.monitors, ms)
    };
    match chosen {
        Some(k) => Some((k, saved_at(store.monitors, k))),
        None => match primary {
            Some(p) => Some((p, None)),
            None => if ms.len() > 0 {
                Some((ms[0], None))
            } else {
                None
            },
        },
    }
}

pub open spec fn keys_of(v: Seq<String>) -> Seq<Seq<char>> {
    v.map_values(|s: String| s@)
}

proof fn lemma_first_remembered_skip(m: Map<Seq<char>, SavedPosition>, ms: Seq<Seq<char>>, i: int)
    requires
        0 <= i < ms.len(),
        !m.contains_key(ms[i]),
    ensures
        first_remembered(m, ms.skip(i)) == first_remembered(m, ms.skip(i + 1)),
{
    assert(ms.skip(i)[0] == ms[i]);
    assert(ms.skip(i).drop_first() =~= ms.skip(i + 1));
}

/// Which display the window should open on, given the keys of the displays
/// present and of the primary one.
///
/// Prefers the display the pet was last left on, then any other remembered
/// one, then the primary. A remembered display that is gone falls through.
pub fn startup_placement(store: &PositionStore, monitors: &Vec<String>, primary: Option<&str>) -> (r:
    Option<Placement>)
    ensures
        match r {
            Some(p) => placement_for(
                store@,
                keys_of(monitors@),
                match primary {
                    Some(k) => Some(k@),
                    None => None,
                },
            ) == Some((p.monitor@, p.saved)),
            None => placement_for(
                store@,
                keys_of(monitors@),
                match primary {
                    Some(k) => Some(k@),
                    None => None,
                },
            ) is None,
        },
{
    let ghost ms = keys_of(monitors@);
    let ghost pr = match primary {
        Some(k) => Some(k@),
        None => None,
    };
    let n = monitors.len();
    if let Some(last) = store.last_used() {
        let mut i: usize = 0;
        while i < n
            invariant
                n == monitors@.len(),
                ms == keys_of(monitors@),
                i <= n,
                forall|j: int| 0 <= j < i ==> #[trigger] ms[j] != last@,
                store@.last_used == Some(last@),
                pr == (match primary {
                    Some(k) => Some(k@),
                    None => None,
                }),
            decreases n - i,
        {
            if same_text(monitors[i].as_str(), last) {
                assert(ms[i as int] == last@);
                assert(ms.contains(last@));
                let saved = store.get(last);

                return Some(Placement { monitor: last.to_owned(), saved });
            }
            i = i + 1;
        }
        assert(!ms.contains(last@));
    }
    let mut i: usize = 0;
    assert(ms.skip(0) =~= ms);
    while i < n
        invariant
            n == monitors@.len(),
            ms == keys_of(monitors@),
            i <= n,
            first_remembered(store@.monitors, ms) == first_remembered(
                store@.monitors,
                ms.skip(i as int),
            ),
            store@.last_used matches Some(k) ==> !ms.contains(k),
        decreases n - i,
    {
        let saved = store.get(monitors[i].as_str());
        if saved.is_some() {
            assert(ms.skip(i as int)[0] == ms[i as int]);
            return Some(Placement { monitor: monitors[i].clone(), saved });
        }
        proof {
            lemma_first_remembered_skip(store@.monitors, ms, i as int);
        }
        i = i + 1;
    }
    assert(ms.skip(n as int).len() == 0);
    match primary {
        Some(p) => Some(Placement { monitor: p.to_owned(), saved: None }),
        None => if n > 0 {
            Some(Placement { monitor: monitors[0].clone(), saved: None })
        } else {
            None
        },
    }
}

/// A display's identity: its name (or "display"), its resolution and its
/// desktop origin, as `name@WIDTHxHEIGHT+X+Y`.
pub open spec fn display_key(name: Option<Seq<char>>, width: u32, height: u32, x: i32, y: i32) -> Seq<
    char,
> {
    (match name {
        Some(n) => n,
        None => "display"@,
    }) + "@"@ + decimal(width as nat) + "x"@ + decimal(height as nat) + "+"@ + signed_decimal(
        x as int,
    ) + "+"@ + signed_decimal(y as int)
}

/// A display's identity.
///
/// Name alone is not enough (two identical external displays report the
/// same one), so the resolution and desktop origin are folded in.
pub fn monitor_key(name: Option<&str>, width: u32, height: u32, x: i32, y: i32) -> (r: String)
    ensures
        r@ == display_key(
            match name {
                Some(n) => Some(n@),
                None => None,
            },
            width,
            height,
            x,
            y,
        ),
{
    let mut r = match name {
        Some(n) => n.to_owned(),
        None => "display".to_owned(),
    };
    r.append("@");
    let w = decimal_text(width as u64);
    r.append(w.as_str());
    r.append("x");
    let h = decimal_text(height as u64);
    r.append(h.as_str());
    r.append("+");
    let px = signed_decimal_text(x as i64);
    r.append(px.as_str());
    r.append("+");
    let py = signed_decimal_text(y as i64);
    r.append(py.as_str());
    r
}

/// The part of a display key after the name and the `@`.
spec fn key_after_name(w: nat, h: nat, x: int, y: int) -> Seq<char> {
    decimal(w) + (seq!['x'] + (decimal(h) + (seq!['+'] + (signed_decimal(x) + (seq!['+']
        + signed_decimal(y))))))
}

proof fn lemma_key_shape(name: Option<Seq<char>>, w: u32, h: u32, x: i32, y: i32)
    ensures
        display_key(name, w, h, x, y) == (match name {
            Some(n) => n,
            None => "display"@,
        }) + "@"@ + key_after_name(w as nat, h as nat, x as int, y as int),
{
    reveal_strlit("x");
    reveal_strlit("+");
    assert(display_key(name, w, h, x, y) =~= (match name {
        Some(n) => n,
        None => "display"@,
    }) + "@"@ + key_after_name(w as nat, h as nat, x as int, y as int));
}

proof fn lemma_key_after_name_injective(
    w1: nat,
    h1: nat,
    x1: int,
    y1: int,
    w2: nat,
    h2: nat,
    x2: int,
    y2: int,
)
    requires
        key_after_name(w1, h1, x1, y1) == key_after_name(w2, h2, x2, y2),
    ensures
        w1 == w2 && h1 == h2 && x1 == x2 && y1 == y2,
{
    lemma_decimal_digits(w1);
    lemma_decimal_digits(w2);
    lemma_split_at_separator(
        decimal(w1),
        decimal(h1) + (seq!['+'] + (signed_decimal(x1) + (seq!['+'] + signed_decimal(y1)))),
        decimal(w2),
        decimal(h2) + (seq!['+'] + (signed_decimal(x2) + (seq!['+'] + signed_decimal(y2)))),
        'x',
    );
    lemma_decimal_injective(w1, w2);
    lemma_decimal_digits(h1);
    lemma_decimal_digits(h2);
    lemma_split_at_separator(
        decimal(h1),
        signed_decimal(x1) + (seq!['+'] + signed_decimal(y1)),
        decimal(h2),
        signed_decimal(x2) + (seq!['+'] + signed_decimal(y2)),
        '+',
    );
    lemma_decimal_injective(h1, h2);
    lemma_signed_decimal_chars(x1);
    lemma_signed_decimal_chars(x2);
    lemma_split_at_separator(
        signed_decimal(x1),
        signed_decimal(y1),
        signed_decimal(x2),
        signed_decimal(y2),
        '+',
    );
    lemma_signed_decimal_injective(x1, x2);
    lemma_signed_decimal_injective(y1, y2);
}

/// Two displays with the same name get the same key only when their
/// resolution and desktop origin agree too, so two identical external
/// displays each keep their own position.
pub proof fn law_display_keys_tell_displays_apart(
    name: Option<Seq<char>>,
    w1: u32,
    h1: u32,
    x1: i32,
    y1: i32,
    w2: u32,
    h2: u32,
    x2: i32,
    y2: i32,
)
    requires
        display_key(name, w1, h1, x1, y1) == display_key(name, w2, h2, x2, y2),
    ensures
        w1 == w2 && h1 == h2 && x1 == x2 && y1 == y2,
{
    lemma_key_shape(name, w1, h1, x1, y1);
    lemma_key_shape(name, w2, h2, x2, y2);
    let p = (match name {
        Some(n) => n,
        None => "display"@,
    }) + "@"@;
    let r1 = key_after_name(w1 as nat, h1 as nat, x1 as int, y1 as int);
    let r2 = key_after_name(w2 as nat, h2 as nat, x2 as int, y2 as int);
    assert(r1 =~= (p + r1).skip(p.len() as int));
    assert(r2 =~= (p + r2).skip(p.len() as int));
    lemma_key_after_name_injective(
        w1 as nat,
        h1 as nat,
        x1 as int,
        y1 as int,
        w2 as nat,
        h2 as nat,
        x2 as int,
        y2 as int,
    );
}

proof fn lemma_nothing_remembered(ms: Seq<Seq<char>>)
    ensures
        first_remembered(Map::empty(), ms) is None,
    decreases ms.len(),
{
    if ms.len() > 0 {
        lemma_nothing_remembered(ms.drop_first());
    }
}

/// A store with nothing in it (as `forget_all` leaves it) opens the pet on the
/// primary display, or else the first one, with no remembered position.
pub proof fn law_an_empty_store_opens_on_the_primary(
    store: PositionStoreView,
    ms: Seq<Seq<char>>,
    primary: Option<Seq<char>>,
)
    requires
        store.monitors == Map::<Seq<char>, SavedPosition>::empty(),
        store.last_used is None,
    ensures
        placement_for(store, ms, primary) == match primary {
            Some(p) => Some((p, None::<SavedPosition>)),
            None => if ms.len() > 0 {
                Some((ms[0], None::<SavedPosition>))
            } else {
                None
            },
        },
{
    lemma_nothing_remembered(ms);
}

/// Read after write: remembering a position and then asking for that display
/// gives the position back, and every other display keeps its own.
pub proof fn law_remember_then_get(
    before: PositionStoreView,
    after: PositionStoreView,
    key: Seq<char>,
    position: SavedPosition,
    other: Seq<char>,
)
    requires
        after.monitors == before.monitors.insert(key, position),
    ensures
        after.monitors.contains_key(key) && after.monitors[key] == position,
        other != key ==> (after.monitors.contains_key(other) == before.monitors.contains_key(
            other,
        ) && (before.monitors.contains_key(other) ==> after.monitors[other]
            == before.monitors[other])),
{
}

} // verus!
