//! Displays and what is known of their geometry.
use vstd::prelude::*;

verus! {

/// The identity of a display.
#[derive(Debug, Clone, Copy, PartialEq, Eq, Structural)]
pub struct OutputId(pub u64);

/// The current video mode of a display, in pixels.
#[derive(Debug, Clone, Copy, PartialEq, Eq, Structural)]
pub struct Mode {
    pub width: u32,
    pub height: u32,
}

/// A physical size in millimeters; either side may be unknown.
#[derive(Debug, Clone, Copy, PartialEq, Eq, Structural)]
pub struct Size {
    pub width: Option<u32>,
    pub height: Option<u32>,
}

/// How the picture is turned on the display.
#[derive(Debug, Clone, Copy, PartialEq, Eq, Structural)]
pub enum Transform {
    Normal,
    Rotated90,
    Rotated180,
    Rotated270,
    Flipped,
    FlippedRotated90,
    FlippedRotated180,
    FlippedRotated270,
}

/// The physical layout of a display.
#[derive(Debug, Clone, Copy, PartialEq, Eq, Structural)]
pub struct Geometry {
    pub transform: Transform,
    pub phys_size: Size,
}

/// What is known of one display.
#[derive(Debug, Clone, Copy, PartialEq, Eq, Structural)]
pub struct OutputState {
    pub current_mode: Option<Mode>,
    pub geometry: Option<Geometry>,
    pub scale: u32,
}

/// A size in pixels.
#[derive(Debug, Clone, Copy, PartialEq, Eq, Structural)]
pub struct SizePixels {
    pub width: u32,
    pub height: u32,
}

/// Whether the transform turns the picture by a quarter.
pub open spec fn turned(t: Transform) -> bool {
    match t {
        Transform::Rotated90 | Transform::Rotated270 | Transform::FlippedRotated90
        | Transform::FlippedRotated270 => true,
        _ => false,
    }
}

/// Whether the output's picture is turned by a quarter.
pub open spec fn output_turned(o: OutputState) -> bool {
    match o.geometry {
        Some(g) => turned(g.transform),
        None => false,
    }
}

/// The size of the picture in pixels, as the panel sees it.
pub open spec fn pixel_size(o: OutputState) -> Option<SizePixels> {
    match o.current_mode {
        None => None,
        Some(m) => Some(
            if output_turned(o) {
                SizePixels { width: m.height, height: m.width }
            } else {
                SizePixels { width: m.width, height: m.height }
            },
        ),
    }
}

/// The physical size, turned as the picture is.
pub open spec fn physical_size(o: OutputState) -> Option<Size> {
    match o.geometry {
        None => None,
        Some(g) => Some(
            if turned(g.transform) {
                Size { width: g.phys_size.height, height: g.phys_size.width }
            } else {
                g.phys_size
            },
        ),
    }
}

fn is_turned(t: Transform) -> (r: bool)
    ensures
        r == turned(t),
{
    match t {
        Transform::Rotated90 | Transform::Rotated270 | Transform::FlippedRotated90
        | Transform::FlippedRotated270 => true,
        _ => false,
    }
}

impl OutputState {
    /// The size of the picture in pixels, as the panel sees it.
    pub fn get_pixel_size(&self) -> (r: Option<SizePixels>)
        ensures
            r == pixel_size(*self),
    {
        let t = match self.geometry {
            Some(g) => is_turned(g.transform),
            None => false,
        };
        match self.current_mode {
            None => None,
            Some(m) => Some(
                if t {
                    SizePixels { width: m.height, height: m.width }
                } else {
                    SizePixels { width: m.width, height: m.height }
                },
            ),
        }
    }

    /// The physical size, turned as the picture is.
    pub fn get_physical_size(&self) -> (r: Option<Size>)
        ensures
            r == physical_size(*self),
    {
        match self.geometry {
            None => None,
            Some(g) => Some(
                if is_turned(g.transform) {
                    Size { width: g.phys_size.height, height: g.phys_size.width }
                } else {
                    g.phys_size
                },
            ),
        }
    }
}

/// How a display changed.
#[derive(Debug, Clone, Copy, PartialEq, Eq, Structural)]
pub enum ChangeType {
    /// The display is new, or what is known of it changed.
    Altered(OutputState),
    /// The display went away.
    Removed,
}

/// A change to one display.
#[derive(Debug, Clone, Copy, PartialEq, Eq, Structural)]
pub struct Event {
    pub output: OutputId,
    pub change: ChangeType,
}

/// The displays, one entry each, in ascending order of identity.
pub open spec fn outputs_wf(s: Seq<(OutputId, OutputState)>) -> bool {
    forall|i: int, j: int| 0 <= i < j < s.len() ==> s[i].0.0 < s[j].0.0
}

/// The map that a list of displays stands for.
pub open spec fn output_map(s: Seq<(OutputId, OutputState)>) -> Map<OutputId, OutputState> {
    Map::new(
        |id: OutputId| exists|k: int| 0 <= k < s.len() && s[k].0 == id,
        |id: OutputId| s[choose|k: int| 0 <= k < s.len() && s[k].0 == id].1,
    )
}

/// The display of lowest identity, if any.
pub open spec fn lowest_output(m: Map<OutputId, OutputState>) -> Option<OutputId> {
    if m.dom().is_empty() {
        None
    } else {
        Some(choose|id: OutputId| m.contains_key(id) && forall|o: OutputId| #[trigger] m.contains_key(o) ==> id.0 <= o.0)
    }
}

proof fn lemma_output_at(s: Seq<(OutputId, OutputState)>, k: int)
    requires
        outputs_wf(s),
        0 <= k < s.len(),
    ensures
        output_map(s).contains_key(s[k].0),
        output_map(s)[s[k].0] == s[k].1,
{
    let id = s[k].0;
    assert(s[k].0 == id);
    let c = choose|j: int| 0 <= j < s.len() && s[j].0 == id;
    if c != k {
        if c < k {
            assert(s[c].0.0 < s[k].0.0);
        } else {
            assert(s[k].0.0 < s[c].0.0);
        }
    }
}

/// Gives the display `id` the state `st`, keeping the list in order.
pub fn upsert_output(s: &mut Vec<(OutputId, OutputState)>, id: OutputId, st: OutputState)
    requires
        outputs_wf(old(s)@),
    ensures
        outputs_wf(final(s)@),
        output_map(final(s)@) == output_map(old(s)@).insert(id, st),
{
    let ghost s0 = s@;
    let mut p: usize = 0;
    while p < s.len() && s[p].0.0 < id.0
        invariant
            p <= s.len(),
            s@ == s0,
            outputs_wf(s0),
            forall|i: int| 0 <= i < p ==> s0[i].0.0 < id.0,
        decreases s.len() - p,
    {
        p += 1;
    }
    if p < s.len() && s[p].0.0 == id.0 {
        s.set(p, (id, st));
        proof {
            let s1 = s@;
            assert(s0[p as int].0 == id);
            assert(outputs_wf(s1)) by {
                assert forall|i: int, j: int| 0 <= i < j < s1.len() implies s1[i].0.0 < s1[j].0.0 by {
                    assert(s1[i].0.0 == s0[i].0.0 && s1[j].0.0 == s0[j].0.0);
                }
            }
            let m0 = output_map(s0).insert(id, st);
            assert forall|o: OutputId| #[trigger] output_map(s1).contains_key(o) == m0.contains_key(o) by {
                if output_map(s1).contains_key(o) {
                    let k = choose|k: int| 0 <= k < s1.len() && s1[k].0 == o;
                    assert(s0[k].0 == o);
                }
                if output_map(s0).contains_key(o) {
                    let k = choose|k: int| 0 <= k < s0.len() && s0[k].0 == o;
                    assert(s1[k].0 == o);
                }
                lemma_output_at(s1, p as int);
            }
            assert forall|o: OutputId| #[trigger] output_map(s1).contains_key(o) implies output_map(s1)[o] == m0[o] by {
                let k = choose|k: int| 0 <= k < s1.len() && s1[k].0 == o;
                lemma_output_at(s1, k);
                if k != p {
                    lemma_output_at(s0, k);
                }
            }
            assert(output_map(s1) =~= m0);
        }
    } else {
        s.insert(p, (id, st));
        proof {
            let s1 = s@;
            assert(outputs_wf(s1)) by {
                assert forall|i: int, j: int| 0 <= i < j < s1.len() implies s1[i].0.0 < s1[j].0.0 by {
                    if j < p {
                    } else if j == p {
                    } else if i < p {
                        assert(s1[j] == s0[j - 1]);
                    } else if i == p {
                        assert(s1[j] == s0[j - 1]);
                        assert(s0[p as int].0.0 > id.0);
                        if j - 1 > p {
                            assert(s0[p as int].0.0 < s0[j - 1].0.0);
                        }
                    } else {
                        assert(s1[i] == s0[i - 1] && s1[j] == s0[j - 1]);
                    }
                }
            }
            let m0 = output_map(s0).insert(id, st);
            assert forall|o: OutputId| #[trigger] output_map(s1).contains_key(o) == m0.contains_key(o) by {
                if output_map(s1).contains_key(o) && o != id {
                    let k = choose|k: int| 0 <= k < s1.len() && s1[k].0 == o;
                    if k < p {
                        assert(s0[k].0 == o);
                    } else {
                        assert(s0[k - 1].0 == o);
                    }
                }
                if output_map(s0).contains_key(o) {
                    let k = choose|k: int| 0 <= k < s0.len() && s0[k].0 == o;
                    if k < p {
                        assert(s1[k].0 == o);
                    } else {
                        assert(s1[k + 1].0 == o);
                    }
                }
                lemma_output_at(s1, p as int);
            }
            assert forall|o: OutputId| #[trigger] output_map(s1).contains_key(o) implies output_map(s1)[o] == m0[o] by {
                let k = choose|k: int| 0 <= k < s1.len() && s1[k].0 == o;
                lemma_output_at(s1, k);
                if k < p {
                    lemma_output_at(s0, k);
                } else if k > p {
                    assert(s1[k] == s0[k - 1]);
                    lemma_output_at(s0, k - 1);
                }
            }
            assert(output_map(s1) =~= m0);
        }
    }
}

/// Removes the display `id`, if it is there.
pub fn remove_output(s: &mut Vec<(OutputId, OutputState)>, id: OutputId)
    requires
        outputs_wf(old(s)@),
    ensures
        outputs_wf(final(s)@),
        output_map(final(s)@) == output_map(old(s)@).remove(id),
{
    let ghost s0 = s@;
    let mut p: usize = 0;
    while p < s.len() && s[p].0.0 != id.0
        invariant
            p <= s.len(),
            s@ == s0,
            outputs_wf(s0),
            forall|i: int| 0 <= i < p ==> s0[i].0 != id,
        decreases s.len() - p,
    {
        p += 1;
    }
    if p < s.len() {
        s.remove(p);
        proof {
            let s1 = s@;
            assert(s0[p as int].0 == id);
            assert(outputs_wf(s1)) by {
                assert forall|i: int, j: int| 0 <= i < j < s1.len() implies s1[i].0.0 < s1[j].0.0 by {
                    if i < p && j >= p {
                        assert(s1[j] == s0[j + 1]);
                    } else if i >= p {
                        assert(s1[i] == s0[i + 1] && s1[j] == s0[j + 1]);
                    }
                }
            }
            let m0 = output_map(s0).remove(id);
            assert forall|o: OutputId| #[trigger] output_map(s1).contains_key(o) == m0.contains_key(o) by {
                if output_map(s1).contains_key(o) {
                    let k = choose|k: int| 0 <= k < s1.len() && s1[k].0 == o;
                    if k < p {
                        assert(s0[k].0 == o);
                        assert(s0[k].0.0 < s0[p as int].0.0);
                    } else {
                        assert(s0[k + 1].0 == o);
                        assert(s0[p as int].0.0 < s0[k + 1].0.0);
                    }
                }
                if output_map(s0).contains_key(o) && o != id {
                    let k = choose|k: int| 0 <= k < s0.len() && s0[k].0 == o;
                    if k < p {
                        assert(s1[k].0 == o);
                    } else {
                        assert(s1[k - 1].0 == o);
                    }
                }
            }
            assert forall|o: OutputId| #[trigger] output_map(s1).contains_key(o) implies output_map(s1)[o] == m0[o] by {
                let k = choose|k: int| 0 <= k < s1.len() && s1[k].0 == o;
                lemma_output_at(s1, k);
                if k < p {
                    lemma_output_at(s0, k);
                } else {
                    assert(s1[k] == s0[k + 1]);
                    lemma_output_at(s0, k + 1);
                }
            }
            assert(output_map(s1) =~= m0);
        }
    } else {
        proof {
            assert(!output_map(s0).contains_key(id)) by {
                if output_map(s0).contains_key(id) {
                    let k = choose|k: int| 0 <= k < s0.len() && s0[k].0 == id;
                    assert(s0[k].0 == id);
                }
            }
            assert(output_map(s0).remove(id) =~= output_map(s0));
        }
    }
}

/// The display of lowest identity.
pub fn first_output(s: &Vec<(OutputId, OutputState)>) -> (r: Option<OutputId>)
    requires
        outputs_wf(s@),
    ensures
        r == lowest_output(output_map(s@)),
        r matches Some(id) ==> output_map(s@).contains_key(id),
{
    if s.len() == 0 {
        proof {
            assert(output_map(s@).dom() =~= Set::empty());
        }
        None
    } else {
        let id = s[0].0;
        proof {
            let m = output_map(s@);
            lemma_output_at(s@, 0);
            assert(!m.dom().is_empty()) by {
                assert(m.dom().contains(id));
            }
            assert forall|o: OutputId| #[trigger] m.contains_key(o) implies id.0 <= o.0 by {
                let k = choose|k: int| 0 <= k < s@.len() && s@[k].0 == o;
                if k > 0 {
                    assert(s@[0].0.0 < s@[k].0.0);
                }
            }
            let c = choose|c: OutputId| m.contains_key(c) && forall|o: OutputId| #[trigger] m.contains_key(o) ==> c.0 <= o.0;
            assert(c.0 <= id.0);
            assert(c == id);
        }
        Some(id)
    }
}


/// The state of a display that is in the list.
pub fn find_output(s: &Vec<(OutputId, OutputState)>, id: OutputId) -> (r: OutputState)
    requires
        outputs_wf(s@),
        output_map(s@).contains_key(id),
    ensures
        r == output_map(s@)[id],
{
    let mut p: usize = 0;
    while p < s.len()
        invariant
            p <= s.len(),
            outputs_wf(s@),
            output_map(s@).contains_key(id),
            forall|i: int| 0 <= i < p ==> s@[i].0 != id,
        decreases s.len() - p,
    {
        if s[p].0.0 == id.0 {
            proof {
                lemma_output_at(s@, p as int);
            }
            return s[p].1;
        }
        p += 1;
    }
    proof {
        let k = choose|k: int| 0 <= k < s@.len() && s@[k].0 == id;
        assert(s@[k].0 == id);
    }
    s[0].1
}

} // verus!
