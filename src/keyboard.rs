//! Keys as switches, and the keymaps that give them their symbols.
use vstd::prelude::*;
use crate::layout::ButtonPosition;
use crate::keycodes::{KEY_1, KEY_A, KEY_BACKSLASH, KEY_Q, KEY_UNKNOWN, KEYCODE_OFFSET};
use crate::keycode_laws::lemma_codes_in_range;
use crate::keymap::entries_fit;
use crate::placements::{entries_view, placed, placement_table, placements};

verus! {

/// Whether a key is held down.
#[derive(Debug, Clone, Copy, PartialEq, Eq, Structural)]
pub enum PressType {
    Released,
    Pressed,
}

/// The extended, unambiguous keycode of a key: a code inside one of several
/// parallel 256-slot keymaps, and the index of that keymap.
#[derive(Debug, Clone, Copy, PartialEq, Eq, Structural)]
pub struct KeyCode {
    pub code: u32,
    pub keymap_idx: usize,
}

/// A stable, comparable identity of a key whose submitted actions are
/// tracked: its position, which survives a reshuffle of the layout's tables.
#[derive(Debug, Clone, Copy, PartialEq, Eq, Structural)]
pub struct KeyStateId(pub ButtonPosition);

impl From<&ButtonPosition> for KeyStateId {
    fn from(v: &ButtonPosition) -> Self {
        KeyStateId(*v)
    }
}

impl vstd::std_specs::convert::FromSpecImpl<&ButtonPosition> for KeyStateId {
    open spec fn obeys_from_spec() -> bool {
        true
    }

    open spec fn from_spec(v: &ButtonPosition) -> KeyStateId {
        KeyStateId(*v)
    }
}

/// A key of the panel, with the keycodes that its submitted text takes under
/// the current keymaps.
#[derive(Clone)]
pub struct Key {
    pub keycodes: Vec<KeyCode>,
}

/// The state of one key on the panel.
#[derive(Debug, Clone, Copy)]
pub struct KeyState {
    pub pressed: PressType,
}

impl KeyState {
    /// The same key, released.
    pub fn into_released(self) -> (r: KeyState)
        ensures
            r.pressed == PressType::Released,
    {
        KeyState { pressed: PressType::Released, ..self }
    }

    /// The same key, pressed.
    pub fn into_pressed(self) -> (r: KeyState)
        ensures
            r.pressed == PressType::Pressed,
    {
        KeyState { pressed: PressType::Pressed, ..self }
    }
}

/// Lexicographic order on character sequences, comparing code points.
/// On strings it is the order of their UTF-8 bytes, which is `str`'s order.
pub open spec fn lex_le(a: Seq<char>, b: Seq<char>) -> bool
    decreases a.len(),
{
    if a.len() == 0 {
        true
    } else if b.len() == 0 {
        false
    } else if a[0] != b[0] {
        (a[0] as u32) < (b[0] as u32)
    } else {
        lex_le(a.drop_first(), b.drop_first())
    }
}

/// Every name comes no later than those after it.
pub open spec fn lex_sorted(s: Seq<Seq<char>>) -> bool {
    forall|i: int, j: int| 0 <= i < j < s.len() ==> lex_le(s[i], s[j])
}

/// The character sequences of a list of strings.
pub open spec fn names_view(s: Seq<String>) -> Seq<Seq<char>> {
    s.map_values(|n: String| n@)
}

/// Relies on `slice::sort`: the same strings, in ascending order of `str`'s `Ord`,
/// which compares the UTF-8 bytes lexicographically.
#[verifier::external_body]
fn sort_names(names: &mut Vec<String>)
    ensures
        names_view(final(names)@).to_multiset() == names_view(old(names)@).to_multiset(),
        lex_sorted(names_view(final(names)@)),
{
    names.sort();
}

/// How many codes the generic pass cycles through in each keymap.
pub const CYCLE_LEN: usize = 47;

/// The `j`-th code of the generic pass: the keys of the four character rows
/// (digits, QWERTY, ASDF and ZXCV rows), which clients read as plain
/// characters even when they take the keymap for an evdev device.
pub open spec fn cycle_code(j: int) -> u32 {
    if j < 12 {
        (KEY_1 + KEYCODE_OFFSET + j) as u32
    } else if j < 24 {
        (KEY_Q + KEYCODE_OFFSET + (j - 12)) as u32
    } else if j < 36 {
        (KEY_A + KEYCODE_OFFSET + (j - 24)) as u32
    } else {
        (KEY_BACKSLASH + KEYCODE_OFFSET + (j - 36)) as u32
    }
}

/// The keycode that the generic pass gives to the `i`-th name in sorted order:
/// the codes are cycled through, and each full cycle moves on to the next
/// keymap, starting at keymap 2 (keymaps 0 and 1 hold the fixed placements).
pub open spec fn cycled_keycode(i: int) -> KeyCode {
    KeyCode { code: cycle_code(i % (CYCLE_LEN as int)), keymap_idx: (i / (CYCLE_LEN as int) + 2) as usize }
}

/// The first fixed placement of `n` in `t`.
pub open spec fn placement_in(t: Seq<(Seq<char>, KeyCode)>, n: Seq<char>) -> Option<KeyCode>
    decreases t.len(),
{
    if t.len() == 0 {
        None
    } else if t[0].0 == n {
        Some(t[0].1)
    } else {
        placement_in(t.drop_first(), n)
    }
}

/// The fixed placement of a well-known name, if it has one.
pub open spec fn placement_of(n: Seq<char>) -> Option<KeyCode> {
    placement_in(placements(), n)
}

/// The last position of `n` in `s`, or -1.
pub open spec fn last_index(s: Seq<Seq<char>>, n: Seq<char>) -> int
    decreases s.len(),
{
    if s.len() == 0 {
        -1
    } else if s.last() == n {
        s.len() - 1
    } else {
        last_index(s.drop_last(), n)
    }
}

/// The keycode of `n` after the generic pass and the fixed placements,
/// with `sorted` the names in ascending order.
pub open spec fn placed_or_cycled(sorted: Seq<Seq<char>>, n: Seq<char>) -> KeyCode {
    match placement_of(n) {
        Some(kc) => kc,
        None => cycled_keycode(last_index(sorted, n)),
    }
}

/// The keycode of the placeholder that stands in for a missing Return key.
pub open spec fn unknown_keycode() -> KeyCode {
    placed(KEY_UNKNOWN, 0)
}

/// Whether the placeholder `Unknown` is added: when no name is `Return`.
pub open spec fn needs_placeholder(sorted: Seq<Seq<char>>) -> bool {
    !sorted.contains("Return"@)
}

/// The names that get a keycode.
pub open spec fn assigned_names(sorted: Seq<Seq<char>>) -> Set<Seq<char>> {
    Set::new(|n: Seq<char>| sorted.contains(n) || (n == "Unknown"@ && needs_placeholder(sorted)))
}

/// The keycode of each name, with `sorted` the names in ascending order.
pub open spec fn keycode_assignment(sorted: Seq<Seq<char>>) -> Map<Seq<char>, KeyCode> {
    Map::new(
        |n: Seq<char>| assigned_names(sorted).contains(n),
        |n: Seq<char>|
            if n == "Unknown"@ && needs_placeholder(sorted) {
                unknown_keycode()
            } else {
                placed_or_cycled(sorted, n)
            },
    )
}

/// No name occurs twice.
pub open spec fn unique_names(r: Seq<(Seq<char>, KeyCode)>) -> bool {
    forall|i: int, j: int| 0 <= i < j < r.len() ==> r[i].0 != r[j].0
}

/// The map that a list of entries with unique names stands for.
pub open spec fn entries_map(r: Seq<(Seq<char>, KeyCode)>) -> Map<Seq<char>, KeyCode> {
    Map::new(
        |n: Seq<char>| exists|k: int| 0 <= k < r.len() && r[k].0 == n,
        |n: Seq<char>| r[choose|k: int| 0 <= k < r.len() && r[k].0 == n].1,
    )
}

proof fn lemma_entries_map_push(r: Seq<(Seq<char>, KeyCode)>, n: Seq<char>, kc: KeyCode)
    requires
        unique_names(r),
        !entries_map(r).contains_key(n),
    ensures
        unique_names(r.push((n, kc))),
        entries_map(r.push((n, kc))) == entries_map(r).insert(n, kc),
{
    let r2 = r.push((n, kc));
    assert forall|i: int, j: int| 0 <= i < j < r2.len() implies r2[i].0 != r2[j].0 by {
        if j == r.len() {
            if r2[i].0 == n {
                assert(r[i].0 == n);
            }
        }
    }
    assert forall|m: Seq<char>| #[trigger] entries_map(r2).contains_key(m) == entries_map(r).insert(n, kc).contains_key(m) by {
        if m != n && entries_map(r2).contains_key(m) {
            let k = choose|k: int| 0 <= k < r2.len() && r2[k].0 == m;
            assert(r[k].0 == m);
        }
        if m == n {
            assert(r2[r.len() as int].0 == n);
        }
        if m != n && entries_map(r).contains_key(m) {
            let k = choose|k: int| 0 <= k < r.len() && r[k].0 == m;
            assert(r2[k].0 == m);
        }
    }
    assert forall|m: Seq<char>| #[trigger] entries_map(r2).contains_key(m) implies entries_map(r2)[m] == entries_map(r).insert(n, kc)[m] by {
        let k2 = choose|k: int| 0 <= k < r2.len() && r2[k].0 == m;
        if m == n {
            assert(r2[r.len() as int].0 == n);
            assert(k2 == r.len());
        } else {
            let k1 = choose|k: int| 0 <= k < r.len() && r[k].0 == m;
            assert(r2[k1].0 == m);
            assert(k1 == k2);
        }
    }
    assert(entries_map(r2) =~= entries_map(r).insert(n, kc));
}

proof fn lemma_entries_map_update(r: Seq<(Seq<char>, KeyCode)>, k: int, kc: KeyCode)
    requires
        unique_names(r),
        0 <= k < r.len(),
    ensures
        unique_names(r.update(k, (r[k].0, kc))),
        entries_map(r.update(k, (r[k].0, kc))) == entries_map(r).insert(r[k].0, kc),
{
    let n = r[k].0;
    let r2 = r.update(k, (n, kc));
    assert forall|i: int, j: int| 0 <= i < j < r2.len() implies r2[i].0 != r2[j].0 by {
        assert(r2[i].0 == r[i].0 && r2[j].0 == r[j].0);
    }
    assert forall|m: Seq<char>| #[trigger] entries_map(r2).contains_key(m) == entries_map(r).insert(n, kc).contains_key(m) by {
        if entries_map(r2).contains_key(m) {
            let k2 = choose|i: int| 0 <= i < r2.len() && r2[i].0 == m;
            assert(r[k2].0 == m);
        }
        if entries_map(r).contains_key(m) {
            let k1 = choose|i: int| 0 <= i < r.len() && r[i].0 == m;
            assert(r2[k1].0 == m);
        }
        assert(r2[k].0 == n);
    }
    assert forall|m: Seq<char>| #[trigger] entries_map(r2).contains_key(m) implies entries_map(r2)[m] == entries_map(r).insert(n, kc)[m] by {
        let k2 = choose|i: int| 0 <= i < r2.len() && r2[i].0 == m;
        if m == n {
            assert(r2[k].0 == n);
            assert(k2 == k);
        } else {
            let k1 = choose|i: int| 0 <= i < r.len() && r[i].0 == m;
            assert(r2[k1].0 == m);
            assert(k1 == k2);
        }
    }
    assert(entries_map(r2) =~= entries_map(r).insert(n, kc));
}

/// Gives `name` the keycode `kc`, in place of any it had.
fn upsert(r: &mut Vec<(String, KeyCode)>, name: String, kc: KeyCode)
    requires
        unique_names(entries_view(old(r)@)),
    ensures
        unique_names(entries_view(final(r)@)),
        entries_map(entries_view(final(r)@)) == entries_map(entries_view(old(r)@)).insert(name@, kc),
{
    let ghost n = name@;
    let mut k: usize = 0;
    while k < r.len()
        invariant
            k <= r.len(),
            r@ == old(r)@,
            n == name@,
            unique_names(entries_view(old(r)@)),
            forall|i: int| 0 <= i < k ==> r@[i].0@ != n,
        decreases r.len() - k,
    {
        if r[k].0 == name {
            let ghost e = entries_view(r@);
            proof {
                lemma_entries_map_update(e, k as int, kc);
            }
            r.set(k, (name, kc));
            assert(entries_view(r@) =~= e.update(k as int, (e[k as int].0, kc)));
            return;
        }
        k += 1;
    }
    let ghost e = entries_view(r@);
    proof {
        assert(!entries_map(e).contains_key(n)) by {
            if entries_map(e).contains_key(n) {
                let i = choose|i: int| 0 <= i < e.len() && e[i].0 == n;
                assert(r@[i].0@ == n);
            }
        }
        lemma_entries_map_push(e, n, kc);
    }
    r.push((name, kc));
    assert(entries_view(r@) =~= e.push((n, kc)));
}

/// Searches a table of fixed placements for `name`.
fn find_placement(table: &Vec<(String, KeyCode)>, name: &String) -> (r: Option<KeyCode>)
    ensures
        r == placement_in(entries_view(table@), name@),
{
    let ghost t = entries_view(table@);
    let mut k: usize = 0;
    assert(t.subrange(0, t.len() as int) =~= t);
    while k < table.len()
        invariant
            k <= table.len(),
            t == entries_view(table@),
            placement_in(t, name@) == placement_in(t.subrange(k as int, t.len() as int), name@),
        decreases table.len() - k,
    {
        let ghost rest = t.subrange(k as int, t.len() as int);
        assert(rest.drop_first() =~= t.subrange(k + 1, t.len() as int));
        if table[k].0 == *name {
            return Some(table[k].1);
        }
        k += 1;
    }
    None
}

/// The keycode that the generic pass gives to the `i`-th name in sorted order.
fn cycled(i: usize) -> (r: KeyCode)
    ensures
        r == cycled_keycode(i as int),
{
    let j = i % CYCLE_LEN;
    let code: u32 = if j < 12 {
        KEY_1 + KEYCODE_OFFSET + j as u32
    } else if j < 24 {
        KEY_Q + KEYCODE_OFFSET + (j - 12) as u32
    } else if j < 36 {
        KEY_A + KEYCODE_OFFSET + (j - 24) as u32
    } else {
        KEY_BACKSLASH + KEYCODE_OFFSET + (j - 36) as u32
    };
    KeyCode { code, keymap_idx: i / CYCLE_LEN + 2 }
}

/// Whether some entry is named `name`.
fn contains_name(r: &Vec<(String, KeyCode)>, name: &String) -> (b: bool)
    ensures
        b == entries_map(entries_view(r@)).contains_key(name@),
{
    let ghost e = entries_view(r@);
    let mut k: usize = 0;
    while k < r.len()
        invariant
            k <= r.len(),
            e == entries_view(r@),
            forall|i: int| 0 <= i < k ==> e[i].0 != name@,
        decreases r.len() - k,
    {
        if r[k].0 == *name {
            assert(e[k as int].0 == name@);
            return true;
        }
        k += 1;
    }
    proof {
        if entries_map(e).contains_key(name@) {
            let i = choose|i: int| 0 <= i < e.len() && e[i].0 == name@;
            assert(e[i].0 == name@);
        }
    }
    false
}

proof fn lemma_last_index_extend(s: Seq<Seq<char>>, i: int, n: Seq<char>)
    requires
        0 <= i < s.len(),
    ensures
        last_index(s.take(i + 1), n) == if s[i] == n { i } else { last_index(s.take(i), n) },
        s.take(i + 1).contains(n) == (s.take(i).contains(n) || s[i] == n),
{
    let longer = s.take(i + 1);
    let shorter = s.take(i);
    assert(longer.drop_last() =~= shorter);
    assert(longer.last() == s[i]);
    if longer.contains(n) && s[i] != n {
        let k = choose|k: int| 0 <= k < longer.len() && #[trigger] longer[k] == n;
        assert(shorter[k] == n);
    }
    if shorter.contains(n) {
        let k = choose|k: int| 0 <= k < shorter.len() && #[trigger] shorter[k] == n;
        assert(longer[k] == n);
    }
    if s[i] == n {
        assert(longer[i] == n);
    }
}

/// The map of the generic pass and the fixed placements, before the placeholder.
pub open spec fn placed_or_cycled_map(sorted: Seq<Seq<char>>) -> Map<Seq<char>, KeyCode> {
    Map::new(|n: Seq<char>| sorted.contains(n), |n: Seq<char>| placed_or_cycled(sorted, n))
}

/// Gives each of the names, already in ascending order, its keycode: the
/// generic pass, then the fixed placements, then the placeholder `Unknown`
/// where no name is `Return`. A name that occurs twice keeps the keycode of its
/// last occurrence. The result has each name once.
pub fn assign_keycodes(sorted: &Vec<String>) -> (r: Vec<(String, KeyCode)>)
    ensures
        unique_names(entries_view(r@)),
        entries_map(entries_view(r@)) == keycode_assignment(names_view(sorted@)),
{
    let ghost s = names_view(sorted@);
    let table = placement_table();
    let mut r: Vec<(String, KeyCode)> = Vec::new();
    let mut i: usize = 0;
    assert(entries_map(entries_view(r@)) =~= placed_or_cycled_map(s.take(0)));
    while i < sorted.len()
        invariant
            i <= sorted.len(),
            s == names_view(sorted@),
            entries_view(table@) == placements(),
            unique_names(entries_view(r@)),
            entries_map(entries_view(r@)) == placed_or_cycled_map(s.take(i as int)),
        decreases sorted.len() - i,
    {
        let name = sorted[i].clone();
        let kc = match find_placement(&table, &name) {
            Some(kc) => kc,
            None => cycled(i),
        };
        let ghost before = entries_map(entries_view(r@));
        upsert(&mut r, name, kc);
        proof {
            let n = s[i as int];
            assert(n == name@);
            let after = placed_or_cycled_map(s.take(i + 1));
            assert forall|m: Seq<char>| #[trigger] after.contains_key(m) == before.insert(n, kc).contains_key(m) by {
                lemma_last_index_extend(s, i as int, m);
            }
            assert forall|m: Seq<char>| #[trigger] after.contains_key(m) implies after[m] == before.insert(n, kc)[m] by {
                lemma_last_index_extend(s, i as int, m);
            }
            assert(after =~= before.insert(n, kc));
            assert(entries_map(entries_view(r@)) == before.insert(n, kc));
            assert(entries_map(entries_view(r@)) =~= placed_or_cycled_map(s.take(i + 1)));
        }
        i += 1;
    }
    assert(s.take(sorted.len() as int) =~= s);
    let ret = String::from_str("Return");
    if !contains_name(&r, &ret) {
        let unknown = String::from_str("Unknown");
        upsert(&mut r, unknown, KeyCode { code: KEY_UNKNOWN + KEYCODE_OFFSET, keymap_idx: 0 });
    }
    assert(entries_map(entries_view(r@)) =~= keycode_assignment(s));
    r
}

proof fn lemma_entry_in_map(m: Seq<(Seq<char>, KeyCode)>, k: int)
    requires
        unique_names(m),
        0 <= k < m.len(),
    ensures
        entries_map(m).contains_key(m[k].0),
        entries_map(m)[m[k].0] == m[k].1,
{
    let n = m[k].0;
    assert(m[k].0 == n);
    let c = choose|j: int| 0 <= j < m.len() && m[j].0 == n;
    if c != k {
        if c < k {
            assert(m[c].0 != m[k].0);
        } else {
            assert(m[k].0 != m[c].0);
        }
    }
}

/// Gives each name a keycode: the names are sorted, so that the result does
/// not depend on their order, and then assigned as `assign_keycodes` says.
/// No code is below 9 or above 255, and the result fits `generate_keymaps`.
pub fn generate_keycodes(key_names: Vec<String>) -> (r: Vec<(String, KeyCode)>)
    ensures
        exists|sorted: Seq<Seq<char>>|
            #![trigger keycode_assignment(sorted)]
            lex_sorted(sorted) && sorted.to_multiset() == names_view(key_names@).to_multiset()
                && entries_map(entries_view(r@)) == keycode_assignment(sorted),
        unique_names(entries_view(r@)),
        entries_fit(r@),
        forall|i: int| 0 <= i < r@.len() ==> 9 <= (#[trigger] r@[i]).1.code <= 255,
{
    let mut names = key_names;
    sort_names(&mut names);
    let r = assign_keycodes(&names);
    proof {
        let s = names_view(names@);
        let m = entries_view(r@);
        assert forall|i: int| 0 <= i < r@.len() implies (#[trigger] r@[i]).1.code < 256
            && r@[i].1.keymap_idx < usize::MAX && 9 <= r@[i].1.code by {
            assert(m[i] == (r@[i].0@, r@[i].1));
            lemma_entry_in_map(m, i);
            lemma_codes_in_range(s, m[i].0);
        }
    }
    r
}
} // verus!
