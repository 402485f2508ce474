//! Keymap text: the description that an XKB compiler turns into a keymap,
//! one per bin of keycodes.
use vstd::prelude::*;
use crate::keyboard::KeyCode;
use crate::placements::entries_view;

verus! {

/// The opening of a keymap, up to the keycode bindings.
pub const KEYMAP_HEADER: &'static str = "xkb_keymap {\n\n    xkb_keycodes \"squeekboard\" {\n        minimum = 8;\n        maximum = 255;\n";

/// Between the keycode bindings and the symbols: the one indicator that
/// Xwayland asks for, and the opening of the symbols section.
pub const KEYMAP_MIDDLE: &'static str = "\n        indicator 1 = \"Caps Lock\"; // Xwayland won't accept without it.\n    };\n    \n    xkb_symbols \"squeekboard\" {\n\n";

/// After the symbols: the key types and the compatibility rule that Xwayland
/// needs.
pub const KEYMAP_FOOTER: &'static str = "\n    };\n\n    xkb_types \"squeekboard\" {\n        virtual_modifiers Squeekboard; // No modifiers! Needed for Xorg for some reason.\n    \n        // Those names are needed for Xwayland.\n        type \"ONE_LEVEL\" {\n            modifiers= none;\n            level_name[Level1]= \"Any\";\n        };\n        type \"TWO_LEVEL\" {\n            level_name[Level1]= \"Base\";\n        };\n        type \"ALPHABETIC\" {\n            level_name[Level1]= \"Base\";\n        };\n        type \"KEYPAD\" {\n            level_name[Level1]= \"Base\";\n        };\n        type \"SHIFT+ALT\" {\n            level_name[Level1]= \"Base\";\n        };\n\n    };\n\n    xkb_compatibility \"squeekboard\" {\n        // Needed for Xwayland again.\n        interpret Any+AnyOf(all) {\n            action= SetMods(modifiers=modMapMods,clearLocks);\n        };\n    };\n};\n";

/// An error while the text of a keymap is put together.
#[derive(Debug, Clone, Copy, PartialEq, Eq, Structural)]
pub enum FormattingError {
    /// The assembled bytes were not UTF-8.
    Utf,
    /// A piece could not be written.
    Format,
}

/// One keymap's table: index is the code, the entry the name that occupies it.
pub struct KeymapTable {
    pub slots: Vec<Option<String>>,
}

/// The character sequence of an occupant, if any.
pub open spec fn occupant_view(o: Option<String>) -> Option<Seq<char>> {
    match o {
        Some(s) => Some(s@),
        None => None,
    }
}

impl KeymapTable {
    /// A table has a slot for each of the 256 codes.
    pub open spec fn wf(&self) -> bool {
        self.slots@.len() == 256
    }

    /// The occupant of each code.
    pub open spec fn view(&self) -> Seq<Option<Seq<char>>> {
        self.slots@.map_values(|o: Option<String>| occupant_view(o))
    }

    /// A table with every slot empty.
    pub fn new() -> (r: KeymapTable)
        ensures
            r.wf(),
            forall|c: int| 0 <= c < 256 ==> r.view()[c] == None::<Seq<char>>,
    {
        let mut slots: Vec<Option<String>> = Vec::new();
        let mut c: usize = 0;
        while c < 256
            invariant
                c <= 256,
                slots@.len() == c,
                forall|i: int| 0 <= i < c ==> slots@[i] == None::<String>,
            decreases 256 - c,
        {
            slots.push(None);
            c += 1;
        }
        KeymapTable { slots }
    }

    /// Puts `name` at `code`, in place of any occupant.
    pub fn set(&mut self, code: usize, name: String)
        requires
            old(self).wf(),
            code < 256,
        ensures
            final(self).wf(),
            final(self).view() == old(self).view().update(code as int, Some(name@)),
    {
        self.slots.set(code, Some(name));
        assert(self.view() =~= old(self).view().update(code as int, Some(name@)));
    }
}

/// The text of a decimal digit.
pub open spec fn digit_text(d: nat) -> Seq<char> {
    if d == 0 {
        "0"@
    } else if d == 1 {
        "1"@
    } else if d == 2 {
        "2"@
    } else if d == 3 {
        "3"@
    } else if d == 4 {
        "4"@
    } else if d == 5 {
        "5"@
    } else if d == 6 {
        "6"@
    } else if d == 7 {
        "7"@
    } else if d == 8 {
        "8"@
    } else {
        "9"@
    }
}

/// The decimal text of a natural number, without leading zeros.
pub open spec fn decimal(n: nat) -> Seq<char>
    decreases n,
{
    if n < 10 {
        digit_text(n)
    } else {
        decimal(n / 10) + digit_text(n % 10)
    }
}

fn append_digit(out: &mut String, d: u32)
    requires
        d < 10,
    ensures
        final(out)@ == old(out)@ + digit_text(d as nat),
{
    let t = match d {
        0 => "0",
        1 => "1",
        2 => "2",
        3 => "3",
        4 => "4",
        5 => "5",
        6 => "6",
        7 => "7",
        8 => "8",
        _ => "9",
    };
    out.append(t);
}

/// Appends the decimal text of a code.
fn append_decimal(out: &mut String, n: u32)
    requires
        n < 1000,
    ensures
        final(out)@ == old(out)@ + decimal(n as nat),
{
    let ghost start = out@;
    if n >= 100 {
        append_digit(out, n / 100);
        append_digit(out, (n / 10) % 10);
        append_digit(out, n % 10);
        assert((n / 10) / 10 == n / 100);
        assert(decimal((n / 100) as nat) == digit_text((n / 100) as nat));
        assert(decimal((n / 10) as nat) == decimal((n / 100) as nat) + digit_text(((n / 10) % 10) as nat));
        assert(decimal(n as nat) == decimal((n / 10) as nat) + digit_text((n % 10) as nat));
    } else if n >= 10 {
        append_digit(out, n / 10);
        append_digit(out, n % 10);
        assert(decimal((n / 10) as nat) == digit_text((n / 10) as nat));
        assert(decimal(n as nat) == decimal((n / 10) as nat) + digit_text((n % 10) as nat));
    } else {
        append_digit(out, n);
    }
    assert(out@ =~= start + decimal(n as nat));
}

/// The binding of code `c` in the keycodes section, if the slot is occupied.
pub open spec fn keycode_line(t: Seq<Option<Seq<char>>>, c: int) -> Seq<char> {
    match t[c] {
        Some(_) => "\n        <I"@ + decimal(c as nat) + "> = "@ + decimal(c as nat) + ";"@,
        None => Seq::empty(),
    }
}

/// The symbol of code `c` in the symbols section, if the slot is occupied.
pub open spec fn symbol_line(t: Seq<Option<Seq<char>>>, c: int) -> Seq<char> {
    match t[c] {
        Some(name) => "\nkey <I"@ + decimal(c as nat) + "> { [ "@ + name + " ] };"@,
        None => Seq::empty(),
    }
}

/// The keycode bindings of the codes below `c`.
pub open spec fn keycode_lines(t: Seq<Option<Seq<char>>>, c: int) -> Seq<char>
    decreases c,
{
    if c <= 0 {
        Seq::empty()
    } else {
        keycode_lines(t, c - 1) + keycode_line(t, c - 1)
    }
}

/// The symbols of the codes below `c`.
pub open spec fn symbol_lines(t: Seq<Option<Seq<char>>>, c: int) -> Seq<char>
    decreases c,
{
    if c <= 0 {
        Seq::empty()
    } else {
        symbol_lines(t, c - 1) + symbol_line(t, c - 1)
    }
}

/// The whole keymap text of a table.
pub open spec fn keymap_text(t: Seq<Option<Seq<char>>>) -> Seq<char> {
    KEYMAP_HEADER@ + keycode_lines(t, 256) + KEYMAP_MIDDLE@ + symbol_lines(t, 256) + KEYMAP_FOOTER@
}

/// Generates a de-facto single level keymap from one table.
pub fn generate_keymap(table: &KeymapTable) -> (r: Result<String, FormattingError>)
    requires
        table.wf(),
    ensures
        r is Ok,
        r.unwrap()@ == keymap_text(table.view()),
{
    let ghost t = table.view();
    let mut out = String::new();
    out.append(KEYMAP_HEADER);
    let mut c: usize = 0;
    while c < 256
        invariant
            c <= 256,
            t == table.view(),
            table.wf(),
            out@ == KEYMAP_HEADER@ + keycode_lines(t, c as int),
        decreases 256 - c,
    {
        let ghost before = out@;
        if let Some(_) = &table.slots[c] {
            out.append("\n        <I");
            append_decimal(&mut out, c as u32);
            out.append("> = ");
            append_decimal(&mut out, c as u32);
            out.append(";");
        }
        assert(out@ =~= before + keycode_line(t, c as int));
        c += 1;
    }
    out.append(KEYMAP_MIDDLE);
    let ghost mid = out@;
    assert(mid == KEYMAP_HEADER@ + keycode_lines(t, 256) + KEYMAP_MIDDLE@);
    c = 0;
    while c < 256
        invariant
            c <= 256,
            t == table.view(),
            table.wf(),
            out@ == mid + symbol_lines(t, c as int),
        decreases 256 - c,
    {
        let ghost before = out@;
        if let Some(name) = &table.slots[c] {
            out.append("\nkey <I");
            append_decimal(&mut out, c as u32);
            out.append("> { [ ");
            out.append(name.as_str());
            out.append(" ] };");
        }
        assert(out@ =~= before + symbol_line(t, c as int));
        c += 1;
    }
    out.append(KEYMAP_FOOTER);
    assert(out@ =~= keymap_text(t));
    Ok(out)
}

/// The name at `code` of bin `bin`: that of the last entry placed there.
pub open spec fn slot_occupant(m: Seq<(Seq<char>, KeyCode)>, bin: int, code: int) -> Option<Seq<char>>
    decreases m.len(),
{
    if m.len() == 0 {
        None
    } else if m.last().1.keymap_idx == bin && m.last().1.code == code {
        Some(m.last().0)
    } else {
        slot_occupant(m.drop_last(), bin, code)
    }
}

/// The number of bins: one past the highest bin of any entry.
pub open spec fn bin_count(m: Seq<(Seq<char>, KeyCode)>) -> nat
    decreases m.len(),
{
    if m.len() == 0 {
        0
    } else {
        let rest = bin_count(m.drop_last());
        let own = (m.last().1.keymap_idx + 1) as nat;
        if rest < own {
            own
        } else {
            rest
        }
    }
}

/// The table of bin `bin`.
pub open spec fn bin_table(m: Seq<(Seq<char>, KeyCode)>, bin: int) -> Seq<Option<Seq<char>>> {
    Seq::new(256, |c: int| slot_occupant(m, bin, c))
}

/// The entries fit the tables: each code is below 256, and each bin can be
/// counted past.
pub open spec fn entries_fit(m: Seq<(String, KeyCode)>) -> bool {
    forall|i: int| 0 <= i < m.len() ==> (#[trigger] m[i]).1.code < 256 && m[i].1.keymap_idx < usize::MAX
}

/// Sorts the entries into one table per bin, and writes the keymap of each.
/// Where two entries share a code in one bin, the later one occupies it.
pub fn generate_keymaps(symbolmap: Vec<(String, KeyCode)>) -> (r: Result<Vec<String>, FormattingError>)
    requires
        entries_fit(symbolmap@),
    ensures
        r is Ok,
        r.unwrap()@.len() == bin_count(entries_view(symbolmap@)),
        forall|b: int| 0 <= b < r.unwrap()@.len() ==>
            #[trigger] r.unwrap()@[b]@ == keymap_text(bin_table(entries_view(symbolmap@), b)),
{
    let ghost m = entries_view(symbolmap@);
    let mut bins: Vec<KeymapTable> = Vec::new();
    let mut i: usize = 0;
    while i < symbolmap.len()
        invariant
            i <= symbolmap.len(),
            m == entries_view(symbolmap@),
            entries_fit(symbolmap@),
            bins@.len() == bin_count(m.take(i as int)),
            forall|b: int| 0 <= b < bins@.len() ==> (#[trigger] bins@[b]).wf()
                && bins@[b].view() == bin_table(m.take(i as int), b),
        decreases symbolmap.len() - i,
    {
        let ghost prev = m.take(i as int);
        let ghost next = m.take(i + 1);
        assert(next.drop_last() =~= prev);
        assert(next.last() == m[i as int]);
        let name = symbolmap[i].0.clone();
        let kc = symbolmap[i].1;
        let idx = kc.keymap_idx;
        while bins.len() <= idx
            invariant
                bins@.len() == bin_count(prev) || bin_count(prev) <= bins@.len() <= idx + 1,
                idx < usize::MAX,
                forall|b: int| 0 <= b < bins@.len() ==> (#[trigger] bins@[b]).wf()
                    && bins@[b].view() == bin_table(prev, b),
            decreases idx + 1 - bins@.len(),
        {
            let fresh = KeymapTable::new();
            proof {
                let b = bins@.len() as int;
                assert forall|c: int| 0 <= c < 256 implies slot_occupant(prev, b, c) == None::<Seq<char>> by {
                    lemma_no_occupant_past_count(prev, b, c);
                }
                assert(fresh.view() =~= bin_table(prev, b));
            }
            bins.push(fresh);
        }
        let mut table = bins.remove(idx);
        table.set(kc.code as usize, name);
        bins.insert(idx, table);
        proof {
            assert forall|b: int| 0 <= b < bins@.len() implies (#[trigger] bins@[b]).wf()
                && bins@[b].view() == bin_table(next, b) by {
                assert(bins@[b].view() =~= bin_table(next, b));
            }
        }
        i += 1;
    }
    assert(m.take(symbolmap.len() as int) =~= m);
    let mut out: Vec<String> = Vec::new();
    let mut b: usize = 0;
    while b < bins.len()
        invariant
            b <= bins@.len(),
            out@.len() == b,
            bins@.len() == bin_count(m),
            forall|k: int| 0 <= k < bins@.len() ==> (#[trigger] bins@[k]).wf()
                && bins@[k].view() == bin_table(m, k),
            forall|k: int| 0 <= k < b ==> #[trigger] out@[k]@ == keymap_text(bin_table(m, k)),
        decreases bins@.len() - b,
    {
        let text = generate_keymap(&bins[b]);
        match text {
            Ok(t) => out.push(t),
            Err(e) => return Err(e),
        }
        b += 1;
    }
    Ok(out)
}

proof fn lemma_no_occupant_past_count(m: Seq<(Seq<char>, KeyCode)>, b: int, c: int)
    requires
        b >= bin_count(m),
    ensures
        slot_occupant(m, b, c) == None::<Seq<char>>,
    decreases m.len(),
{
    if m.len() > 0 {
        lemma_no_occupant_past_count(m.drop_last(), b, c);
    }
}

} // verus!
