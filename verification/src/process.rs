//! Detecting another running instance of the overlay.

use vstd::prelude::*;
use vstd::string::*;
use crate::text::{ascii_lower, to_ascii_lowercase};

verus! {

/// A running process: its name, where it is valid UTF-8, and its id.
#[derive(Debug)]
pub struct ProcessEntry {
    pub name: Option<String>,
    pub pid: u32,
}

/// Whether `needle` occurs in `hay`.
pub open spec fn contains_seq(hay: Seq<char>, needle: Seq<char>) -> bool {
    exists|i: int| 0 <= i && i + needle.len() <= hay.len() && #[trigger] hay.subrange(i, i + needle.len()) == needle
}

/// Whether `needle` occurs in `hay`.
pub fn str_contains(hay: &str, needle: &str) -> (r: bool)
    ensures
        r == contains_seq(hay@, needle@),
{
    let h = crate::text::to_chars(hay);
    let n = crate::text::to_chars(needle);
    let hl = h.len();
    let nl = n.len();
    if nl > hl {
        return false;
    }
    let mut i: usize = 0;
    while i <= hl - nl
        invariant
            h@ == hay@,
            n@ == needle@,
            hl == h@.len(),
            nl == n@.len(),
            nl <= hl,
            i <= hl - nl + 1,
            forall|k: int| 0 <= k < i ==> #[trigger] hay@.subrange(k, k + nl) != needle@,
        decreases hl - nl + 1 - i,
    {
        let mut j: usize = 0;
        let mut same = true;
        while j < nl
            invariant
                h@ == hay@,
                n@ == needle@,
                hl == h@.len(),
                nl == n@.len(),
                i + nl <= hl,
                j <= nl,
                same == forall|t: int| 0 <= t < j ==> hay@[i + t] == needle@[t],
            decreases nl - j,
        {
            if h[i + j] != n[j] {
                same = false;
            }
            j = j + 1;
        }
        if same {
            assert(hay@.subrange(i as int, i + nl) =~= needle@);
            return true;
        }
        proof {
            let t = choose|t: int| 0 <= t < nl && hay@[i + t] != needle@[t];
            assert(hay@.subrange(i as int, i + nl)[t] != needle@[t]);
        }
        i = i + 1;
    }
    assert forall|k: int| 0 <= k && k + needle@.len() <= hay@.len() implies #[trigger] hay@.subrange(k, k + needle@.len()) != needle@ by {
        assert(k < i);
    }
    false
}

/// Whether a process is another instance of the overlay: its name contains
/// `lumina` in any ASCII case, and it is not this process. A name that is
/// not valid UTF-8 never matches.
pub open spec fn is_other_instance(p: ProcessEntry, own_pid: u32) -> bool {
    &&& p.name matches Some(n) && contains_seq(ascii_lower(n@), "lumina"@)
    &&& p.pid != own_pid
}

/// Whether another instance of the overlay is running among `processes`.
pub fn is_already_running(processes: &Vec<ProcessEntry>, own_pid: u32) -> (r: bool)
    ensures
        r == exists|i: int| 0 <= i < processes@.len() && is_other_instance(#[trigger] processes@[i], own_pid),
{
    let mut i: usize = 0;
    while i < processes.len()
        invariant
            i <= processes@.len(),
            forall|k: int| 0 <= k < i ==> !is_other_instance(#[trigger] processes@[k], own_pid),
        decreases processes.len() - i,
    {
        let p = &processes[i];
        if let Some(name) = &p.name {
            let lower = to_ascii_lowercase(name.as_str());
            if str_contains(lower.as_str(), "lumina") && p.pid != own_pid {
                assert(is_other_instance(processes@[i as int], own_pid));
                return true;
            }
        }
        i = i + 1;
    }
    false
}

} // verus!
