//! The layout descriptions, as a read-only repository handed in by the
//! program, and the overlays that it must hold.
use vstd::prelude::*;

verus! {

/// Layout descriptions by name.
pub struct Resources {
    pub layouts: Vec<(String, String)>,
}

/// The description of the first layout named `needle`.
pub open spec fn layout_lookup(layouts: Seq<(String, String)>, needle: Seq<char>) -> Option<Seq<char>>
    decreases layouts.len(),
{
    if layouts.len() == 0 {
        None
    } else if layouts[0].0@ == needle {
        Some(layouts[0].1@)
    } else {
        layout_lookup(layouts.drop_first(), needle)
    }
}

impl Resources {
    /// A repository of the given (name, description) pairs.
    pub fn new(layouts: Vec<(String, String)>) -> (r: Resources)
        ensures
            r.layouts@ == layouts@,
    {
        Resources { layouts }
    }
}

/// The description of the layout named `needle`, if the repository has one.
pub fn get_keyboard<'a>(resources: &'a Resources, needle: &str) -> (r: Option<&'a str>)
    ensures
        match r {
            Some(text) => layout_lookup(resources.layouts@, needle@) == Some(text@),
            None => layout_lookup(resources.layouts@, needle@).is_none(),
        },
{
    let ghost t = resources.layouts@;
    let wanted = String::from_str(needle);
    let mut k: usize = 0;
    assert(t.subrange(0, t.len() as int) =~= t);
    while k < resources.layouts.len()
        invariant
            k <= t.len(),
            t == resources.layouts@,
            wanted@ == needle@,
            layout_lookup(t, needle@) == layout_lookup(t.subrange(k as int, t.len() as int), needle@),
        decreases t.len() - k,
    {
        assert(t.subrange(k as int, t.len() as int).drop_first() =~= t.subrange(k + 1, t.len() as int));
        if resources.layouts[k].0 == wanted {
            return Some(resources.layouts[k].1.as_str());
        }
        k += 1;
    }
    None
}

/// The namespaces of the overlay layouts; each must have a layout "<name>/us".
pub fn get_overlays() -> (r: Vec<&'static str>)
    ensures
        r@.len() == 2,
        r@[0]@ == "emoji"@,
        r@[1]@ == "terminal"@,
{
    let mut r: Vec<&'static str> = Vec::new();
    r.push("emoji");
    r.push("terminal");
    r
}

} // verus!
