//! Choosing the monitor that the overlay covers.

use vstd::prelude::*;

verus! {

/// A monitor as the display enumeration reports it (its scale factor is
/// applied where the window is sized).
#[derive(Debug, Clone, Copy, PartialEq, Eq, Structural)]
pub struct DisplaySpec {
    pub x: i32,
    pub y: i32,
    pub width: u32,
    pub height: u32,
    pub is_primary: bool,
}

/// The position of the first primary monitor, or the number of monitors
/// where none is primary.
pub open spec fn first_primary(displays: Seq<DisplaySpec>) -> int
    decreases displays.len(),
{
    if displays.len() == 0 {
        0
    } else if displays[0].is_primary {
        0
    } else {
        1 + first_primary(displays.drop_first())
    }
}

/// The position of the first primary monitor, or of the first monitor
/// where none is primary.
pub open spec fn primary_index(displays: Seq<DisplaySpec>) -> int {
    if first_primary(displays) < displays.len() {
        first_primary(displays)
    } else {
        0
    }
}

proof fn lemma_primary_index(displays: Seq<DisplaySpec>, k: int)
    requires
        0 <= k <= displays.len(),
        forall|j: int| 0 <= j < k ==> !(#[trigger] displays[j]).is_primary,
        k == displays.len() || displays[k].is_primary,
    ensures
        first_primary(displays) == k,
    decreases k,
{
    if k > 0 {
        let t = displays.drop_first();
        assert forall|j: int| 0 <= j < k - 1 implies !(#[trigger] t[j]).is_primary by {
            assert(t[j] == displays[j + 1]);
        }
        lemma_primary_index(t, k - 1);
    }
}

/// The monitor to cover: the configured one where its index is in range,
/// else the first primary monitor, else the first monitor.
pub open spec fn chosen_display(display_idx: Option<usize>, displays: Seq<DisplaySpec>) -> int {
    match display_idx {
        Some(i) if i < displays.len() => i as int,
        _ => primary_index(displays),
    }
}

/// The position, in `displays`, of the monitor that the overlay covers.
pub fn specific_monitor_or_primary(display_idx: Option<usize>, displays: &Vec<DisplaySpec>) -> (r: usize)
    requires
        displays@.len() > 0,
    ensures
        r == chosen_display(display_idx, displays@),
        r < displays@.len(),
{
    if let Some(idx) = display_idx {
        if idx < displays.len() {
            return idx;
        }
    }
    let mut i: usize = 0;
    while i < displays.len()
        invariant
            i <= displays@.len(),
            displays@.len() > 0,
            match display_idx {
                Some(x) => x >= displays@.len(),
                None => true,
            },
            forall|j: int| 0 <= j < i ==> !(#[trigger] displays@[j]).is_primary,
        decreases displays.len() - i,
    {
        if displays[i].is_primary {
            proof {
                lemma_primary_index(displays@, i as int);
            }
            return i;
        }
        i = i + 1;
    }
    proof {
        lemma_primary_index(displays@, i as int);
    }
    0
}

/// The window's size in physical pixels before scaling: one pixel wider and
/// one pixel lower than the monitor, which keeps a transparent window from
/// being treated as full-screen and clear of a hidden taskbar.
pub fn window_extent(width: u32, height: u32) -> (r: (u64, u32))
    requires
        height >= 1,
    ensures
        r.0 == width + 1,
        r.1 == height - 1,
{
    ((width as u64) + 1, height - 1)
}

} // verus!
