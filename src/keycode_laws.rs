//! Laws of keycode assignment and of the keymaps built from it.
use vstd::prelude::*;
use crate::keyboard::{
    assigned_names, cycle_code, cycled_keycode, entries_map, keycode_assignment, last_index,
    needs_placeholder, placement_in, placement_of, placed_or_cycled, unique_names, unknown_keycode,
    KeyCode, CYCLE_LEN,
};
use crate::keymap::{
    bin_count, bin_table, keycode_line, keycode_lines, keymap_text, slot_occupant, symbol_line,
    symbol_lines, KEYMAP_FOOTER, KEYMAP_HEADER, KEYMAP_MIDDLE,
};
use crate::placements::{
    base_placements, lemma_base_placements_ascend, lemma_shifted_placements_ascend, placements,
    shifted_placements,
};

verus! {

proof fn lemma_ascending_pairwise(s: Seq<(Seq<char>, KeyCode)>, i: int, j: int)
    requires
        forall|k: int| 0 <= k < s.len() - 1 ==> (#[trigger] s[k]).1.code < s[k + 1].1.code,
        0 <= i < j < s.len(),
    ensures
        s[i].1.code < s[j].1.code,
    decreases j - i,
{
    if j > i + 1 {
        lemma_ascending_pairwise(s, i, j - 1);
        assert(s[j - 1].1.code < s[j].1.code);
    } else {
        assert(s[i].1.code < s[i + 1].1.code);
    }
}

proof fn lemma_placement_found(t: Seq<(Seq<char>, KeyCode)>, n: Seq<char>)
    requires
        placement_in(t, n) is Some,
    ensures
        exists|i: int| 0 <= i < t.len() && t[i].0 == n && Some(t[i].1) == placement_in(t, n),
    decreases t.len(),
{
    if t[0].0 == n {
        assert(t[0].0 == n);
    } else {
        lemma_placement_found(t.drop_first(), n);
        let i = choose|i: int| 0 <= i < t.len() - 1 && t.drop_first()[i].0 == n && Some(t.drop_first()[i].1)
            == placement_in(t.drop_first(), n);
        assert(t[i + 1] == t.drop_first()[i]);
    }
}

/// Facts of the fixed placements: bins 0 and 1 only, codes in 9..=147, and no
/// two entries on the same slot.
proof fn lemma_placements_facts()
    ensures
        forall|i: int| 0 <= i < placements().len() ==> (#[trigger] placements()[i]).1.keymap_idx <= 1
            && 9 <= placements()[i].1.code <= 147,
        forall|i: int, j: int| 0 <= i < j < placements().len() ==> (#[trigger] placements()[i]).1
            != (#[trigger] placements()[j]).1,
{
    lemma_base_placements_ascend();
    lemma_shifted_placements_ascend();
    let b = base_placements();
    let s = shifted_placements();
    let t = placements();
    assert forall|i: int| 0 <= i < t.len() implies (#[trigger] t[i]).1.keymap_idx <= 1 && 9 <= t[i].1.code <= 147 by {
        if i < 76 {
            assert(t[i] == b[i]);
        } else {
            assert(t[i] == s[i - 76]);
        }
    }
    assert forall|i: int, j: int| 0 <= i < j < t.len() implies (#[trigger] t[i]).1 != (#[trigger] t[j]).1 by {
        if j < 76 {
            assert(t[i] == b[i] && t[j] == b[j]);
            lemma_ascending_pairwise(b, i, j);
        } else if i >= 76 {
            assert(t[i] == s[i - 76] && t[j] == s[j - 76]);
            lemma_ascending_pairwise(s, i - 76, j - 76);
        } else {
            assert(t[i] == b[i] && t[j] == s[j - 76]);
        }
    }
}

proof fn lemma_last_index_found(s: Seq<Seq<char>>, n: Seq<char>)
    requires
        s.contains(n),
    ensures
        0 <= last_index(s, n) < s.len(),
        s[last_index(s, n)] == n,
    decreases s.len(),
{
    if s.last() != n {
        let k = choose|k: int| 0 <= k < s.len() && s[k] == n;
        assert(s.drop_last()[k] == n);
        lemma_last_index_found(s.drop_last(), n);
    }
}

proof fn lemma_cycled_injective(i1: int, i2: int)
    requires
        0 <= i1,
        0 <= i2,
        i1 < usize::MAX,
        i2 < usize::MAX,
        cycled_keycode(i1) == cycled_keycode(i2),
    ensures
        i1 == i2,
{
    let n = CYCLE_LEN as int;
    assert(i1 / n + 2 <= usize::MAX && i2 / n + 2 <= usize::MAX);
    let j1 = i1 % n;
    let j2 = i2 % n;
    assert(0 <= j1 < n && 0 <= j2 < n);
    assert(cycle_code(j1) == cycle_code(j2));
    assert(j1 == j2);
    assert(i1 / n == i2 / n);
    assert(i1 == n * (i1 / n) + j1) by (nonlinear_arith)
        requires
            n > 0,
            j1 == i1 % n;
    assert(i2 == n * (i2 / n) + j2) by (nonlinear_arith)
        requires
            n > 0,
            j2 == i2 % n;
}

/// Every code assigned to a name is between 9 and 255, whatever the names:
/// the generic pass uses codes 10 to 61 and the fixed placements 9 to 147,
/// with the placeholder at 248. Every bin index stays below `usize::MAX`.
pub proof fn lemma_codes_in_range(sorted: Seq<Seq<char>>, n: Seq<char>)
    requires
        sorted.len() <= usize::MAX,
        assigned_names(sorted).contains(n),
    ensures
        9 <= keycode_assignment(sorted)[n].code <= 255,
        keycode_assignment(sorted)[n].keymap_idx < usize::MAX,
{
    lemma_placements_facts();
    if !(n == "Unknown"@ && needs_placeholder(sorted)) {
        if let Some(kc) = placement_of(n) {
            lemma_placement_found(placements(), n);
        } else {
            lemma_last_index_found(sorted, n);
            let i = last_index(sorted, n);
            let j = i % (CYCLE_LEN as int);
            assert(0 <= j < CYCLE_LEN);
            assert(i / (CYCLE_LEN as int) <= i) by (nonlinear_arith)
                requires
                    i >= 0;
            assert(i / (CYCLE_LEN as int) + 2 < usize::MAX) by (nonlinear_arith)
                requires
                    0 <= i < usize::MAX,
                    i / 47 <= i,
                    CYCLE_LEN == 47;
        }
    }
}

/// Different names get different slots: no two share a code in one bin.
pub proof fn lemma_slots_distinct(sorted: Seq<Seq<char>>, n1: Seq<char>, n2: Seq<char>)
    requires
        sorted.len() < usize::MAX,
        assigned_names(sorted).contains(n1),
        assigned_names(sorted).contains(n2),
        n1 != n2,
    ensures
        keycode_assignment(sorted)[n1] != keycode_assignment(sorted)[n2],
{
    lemma_placements_facts();
    let a = keycode_assignment(sorted);
    let u1 = n1 == "Unknown"@ && needs_placeholder(sorted);
    let u2 = n2 == "Unknown"@ && needs_placeholder(sorted);
    let t = placements();
    if !u1 {
        if placement_of(n1) is Some {
            lemma_placement_found(t, n1);
        } else {
            lemma_last_index_found(sorted, n1);
            assert(a[n1].keymap_idx >= 2);
        }
    }
    if !u2 {
        if placement_of(n2) is Some {
            lemma_placement_found(t, n2);
        } else {
            lemma_last_index_found(sorted, n2);
            assert(a[n2].keymap_idx >= 2);
        }
    }
    if !u1 && !u2 {
        if placement_of(n1) is Some && placement_of(n2) is Some {
            let i1 = choose|i: int| 0 <= i < t.len() && t[i].0 == n1 && Some(t[i].1) == placement_in(t, n1);
            let i2 = choose|i: int| 0 <= i < t.len() && t[i].0 == n2 && Some(t[i].1) == placement_in(t, n2);
            assert(i1 != i2);
            if i1 < i2 {
                assert(t[i1].1 != t[i2].1);
            } else {
                assert(t[i2].1 != t[i1].1);
            }
        } else if placement_of(n1) is None && placement_of(n2) is None {
            if a[n1] == a[n2] {
                lemma_cycled_injective(last_index(sorted, n1), last_index(sorted, n2));
            }
        }
    } else if u1 {
        if placement_of(n2) is Some {
            let i2 = choose|i: int| 0 <= i < t.len() && t[i].0 == n2 && Some(t[i].1) == placement_in(t, n2);
            assert(t[i2].1.code <= 147);
        }
    } else {
        if placement_of(n1) is Some {
            let i1 = choose|i: int| 0 <= i < t.len() && t[i].0 == n1 && Some(t[i].1) == placement_in(t, n1);
            assert(t[i1].1.code <= 147);
        }
    }
}

proof fn lemma_occupant(m: Seq<(Seq<char>, KeyCode)>, n: Seq<char>, kc: KeyCode)
    requires
        exists|k: int| 0 <= k < m.len() && m[k] == (n, kc),
        forall|k: int| 0 <= k < m.len() && (#[trigger] m[k]).1 == kc ==> m[k].0 == n,
    ensures
        slot_occupant(m, kc.keymap_idx as int, kc.code as int) == Some(n),
        kc.keymap_idx < bin_count(m),
    decreases m.len(),
{
    if m.last().1 != kc {
        let k = choose|k: int| 0 <= k < m.len() && m[k] == (n, kc);
        let r = m.drop_last();
        assert(r[k] == (n, kc));
        assert forall|j: int| 0 <= j < r.len() && (#[trigger] r[j]).1 == kc implies r[j].0 == n by {
            assert(r[j] == m[j]);
        }
        lemma_occupant(r, n, kc);
    } else {
        assert(m[m.len() - 1].1 == kc);
    }
}

proof fn lemma_lines_prefix(t: Seq<Option<Seq<char>>>, c: int, b: int)
    requires
        0 <= c <= b,
    ensures
        exists|post: Seq<char>| symbol_lines(t, b) == symbol_lines(t, c) + post,
        exists|post: Seq<char>| keycode_lines(t, b) == keycode_lines(t, c) + post,
    decreases b - c,
{
    if b == c {
        assert(symbol_lines(t, b) == symbol_lines(t, c) + Seq::<char>::empty());
        assert(keycode_lines(t, b) == keycode_lines(t, c) + Seq::<char>::empty());
    } else {
        let b1 = b - 1;
        lemma_lines_prefix(t, c, b1);
        let p1 = choose|post: Seq<char>| symbol_lines(t, b1) == symbol_lines(t, c) + post;
        let p2 = choose|post: Seq<char>| keycode_lines(t, b1) == keycode_lines(t, c) + post;
        assert(symbol_lines(t, b) == symbol_lines(t, c) + (p1 + symbol_line(t, b1)));
        assert(keycode_lines(t, b) == keycode_lines(t, c) + (p2 + keycode_line(t, b1)));
    }
}

/// The keymap text of a table holds, for each code, its binding and its
/// symbol line as contiguous pieces.
pub proof fn lemma_text_holds_code(t: Seq<Option<Seq<char>>>, c: int)
    requires
        0 <= c < 256,
    ensures
        exists|pre: Seq<char>, post: Seq<char>| keymap_text(t) == pre + symbol_line(t, c) + post,
        exists|pre: Seq<char>, post: Seq<char>| keymap_text(t) == pre + keycode_line(t, c) + post,
{
    let c1 = c + 1;
    lemma_lines_prefix(t, c1, 256);
    let ps = choose|post: Seq<char>| symbol_lines(t, 256) == symbol_lines(t, c1) + post;
    let pk = choose|post: Seq<char>| keycode_lines(t, 256) == keycode_lines(t, c1) + post;
    assert(symbol_lines(t, c1) == symbol_lines(t, c) + symbol_line(t, c));
    assert(keycode_lines(t, c1) == keycode_lines(t, c) + keycode_line(t, c));
    let pre_s = KEYMAP_HEADER@ + keycode_lines(t, 256) + KEYMAP_MIDDLE@ + symbol_lines(t, c);
    assert(keymap_text(t) == pre_s + symbol_line(t, c) + (ps + KEYMAP_FOOTER@));
    let pre_k = KEYMAP_HEADER@ + keycode_lines(t, c);
    assert(keymap_text(t) == pre_k + keycode_line(t, c) + (pk + KEYMAP_MIDDLE@ + symbol_lines(t, 256)
        + KEYMAP_FOOTER@));
}

/// For any names, the keycodes assigned to them and the keymaps built from
/// those keycodes agree: each name's code lies within its bin's table, the
/// name alone occupies that slot, and the bin's keymap text binds the code
/// and gives it that name.
pub proof fn lemma_keymap_round_trip(sorted: Seq<Seq<char>>, m: Seq<(Seq<char>, KeyCode)>, n: Seq<char>)
    requires
        sorted.len() < usize::MAX,
        unique_names(m),
        entries_map(m) == keycode_assignment(sorted),
        entries_map(m).contains_key(n),
    ensures
        ({
            let kc = entries_map(m)[n];
            let t = bin_table(m, kc.keymap_idx as int);
            &&& kc.keymap_idx < bin_count(m)
            &&& 9 <= kc.code <= 255
            &&& t[kc.code as int] == Some(n)
            &&& exists|pre: Seq<char>, post: Seq<char>| keymap_text(t) == pre + symbol_line(t, kc.code as int) + post
            &&& exists|pre: Seq<char>, post: Seq<char>| keymap_text(t) == pre + keycode_line(t, kc.code as int) + post
        }),
{
    let a = keycode_assignment(sorted);
    let kc = a[n];
    lemma_codes_in_range(sorted, n);
    let k = choose|k: int| 0 <= k < m.len() && m[k].0 == n;
    assert(m[k] == (n, kc)) by {
        let c = choose|j: int| 0 <= j < m.len() && m[j].0 == n;
        if c != k {
            if c < k {
                assert(m[c].0 != m[k].0);
            } else {
                assert(m[k].0 != m[c].0);
            }
        }
    }
    assert forall|j: int| 0 <= j < m.len() && (#[trigger] m[j]).1 == kc implies m[j].0 == n by {
        let n2 = m[j].0;
        assert(entries_map(m).contains_key(n2));
        let c = choose|i: int| 0 <= i < m.len() && m[i].0 == n2;
        if c != j {
            if c < j {
                assert(m[c].0 != m[j].0);
            } else {
                assert(m[j].0 != m[c].0);
            }
        }
        if n2 != n {
            lemma_slots_distinct(sorted, n, n2);
        }
    }
    lemma_occupant(m, n, kc);
    lemma_text_holds_code(bin_table(m, kc.keymap_idx as int), kc.code as int);
}

} // verus!
