//! Avatar bytes: the cache of fetched images, the decision whether to fetch,
//! and the key under which a processed avatar is kept.

use vstd::prelude::*;
use vstd::string::*;

verus! {

/// The word that identifies a ring colour given as alpha, red, green, blue.
pub open spec fn argb_word(a: u8, r: u8, g: u8, b: u8) -> int {
    (a as u32) * 0x100_0000 + (r as u32) * 0x1_0000 + (g as u32) * 0x100 + (b as u32)
}

/// The cache key of a ring colour.
pub fn border_key(border: Option<(u8, u8, u8, u8)>) -> (r: Option<u32>)
    ensures
        match border {
            Some((a, rr, g, b)) => r matches Some(k) && k == argb_word(a, rr, g, b),
            None => r is None,
        },
{
    match border {
        Some((a, r, g, b)) => {
            let (a32, r32, g32, b32) = (a as u32, r as u32, g as u32, b as u32);
            let k = (a32 << 24u32) | (r32 << 16u32) | (g32 << 8u32) | b32;
            assert(k == a32 * 0x100_0000 + r32 * 0x1_0000 + g32 * 0x100 + b32) by (bit_vector)
                requires
                    a32 < 256,
                    r32 < 256,
                    g32 < 256,
                    b32 < 256,
                    k == (a32 << 24u32) | (r32 << 16u32) | (g32 << 8u32) | b32,
            ;
            Some(k)
        },
        None => None,
    }
}

/// Fetched avatar images by address.
#[derive(Debug)]
pub struct AvatarCache {
    entries: Vec<(String, Vec<u8>)>,
}

/// The images that a list of entries holds; a later entry for an address
/// wins.
pub open spec fn entries_map(s: Seq<(String, Vec<u8>)>) -> Map<Seq<char>, Seq<u8>>
    decreases s.len(),
{
    if s.len() == 0 {
        Map::empty()
    } else {
        entries_map(s.drop_last()).insert(s.last().0@, s.last().1@)
    }
}

/// Whether no address occurs twice.
pub open spec fn unique_keys(s: Seq<(String, Vec<u8>)>) -> bool {
    forall|i: int, j: int| 0 <= i < j < s.len() ==> s[i].0@ != s[j].0@
}

proof fn lemma_entries_map_lookup(s: Seq<(String, Vec<u8>)>, k: Seq<char>)
    requires
        unique_keys(s),
    ensures
        entries_map(s).contains_key(k) <==> exists|i: int| 0 <= i < s.len() && (#[trigger] s[i]).0@ == k,
        forall|i: int| 0 <= i < s.len() && (#[trigger] s[i]).0@ == k ==> entries_map(s)[k] == s[i].1@,
    decreases s.len(),
{
    if s.len() > 0 {
        let t = s.drop_last();
        assert forall|i: int, j: int| 0 <= i < j < t.len() implies t[i].0@ != t[j].0@ by {
            assert(t[i] == s[i] && t[j] == s[j]);
        }
        lemma_entries_map_lookup(t, k);
        if entries_map(s).contains_key(k) && s.last().0@ != k {
            let i = choose|i: int| 0 <= i < t.len() && (#[trigger] t[i]).0@ == k;
            assert(s[i] == t[i]);
        }
        assert forall|i: int| 0 <= i < s.len() && (#[trigger] s[i]).0@ == k implies entries_map(s)[k] == s[i].1@ by {
            if i < s.len() - 1 {
                assert(t[i] == s[i]);
            }
        }
        if exists|i: int| 0 <= i < s.len() && (#[trigger] s[i]).0@ == k {
            let i = choose|i: int| 0 <= i < s.len() && (#[trigger] s[i]).0@ == k;
            if i < s.len() - 1 {
                assert(t[i] == s[i]);
            }
        }
    }
}

proof fn lemma_entries_map_update(s: Seq<(String, Vec<u8>)>, i: int, e: (String, Vec<u8>))
    requires
        unique_keys(s),
        0 <= i < s.len(),
        s[i].0@ == e.0@,
    ensures
        unique_keys(s.update(i, e)),
        entries_map(s.update(i, e)) == entries_map(s).insert(e.0@, e.1@),
{
    let u = s.update(i, e);
    assert forall|a: int, b: int| 0 <= a < b < u.len() implies u[a].0@ != u[b].0@ by {}
    assert forall|k: Seq<char>| #[trigger] entries_map(u).contains_key(k) <==> entries_map(s).insert(e.0@, e.1@).contains_key(k) by {
        lemma_entries_map_lookup(s, k);
        lemma_entries_map_lookup(u, k);
        if exists|j: int| 0 <= j < s.len() && (#[trigger] s[j]).0@ == k {
            let j = choose|j: int| 0 <= j < s.len() && (#[trigger] s[j]).0@ == k;
            assert(u[j].0@ == k);
        }
        if exists|j: int| 0 <= j < u.len() && (#[trigger] u[j]).0@ == k {
            let j = choose|j: int| 0 <= j < u.len() && (#[trigger] u[j]).0@ == k;
            assert(s[j].0@ == k);
        }
    }
    assert forall|k: Seq<char>| #[trigger] entries_map(u).contains_key(k) implies entries_map(u)[k] == entries_map(s).insert(e.0@, e.1@)[k] by {
        lemma_entries_map_lookup(s, k);
        lemma_entries_map_lookup(u, k);
        let j = choose|j: int| 0 <= j < u.len() && (#[trigger] u[j]).0@ == k;
        assert(s[j].0@ == k);
    }
    assert(entries_map(u) =~= entries_map(s).insert(e.0@, e.1@));
}

fn copy_bytes(v: &Vec<u8>) -> (r: Vec<u8>)
    ensures
        r@ == v@,
{
    let mut r: Vec<u8> = Vec::new();
    let mut i: usize = 0;
    while i < v.len()
        invariant
            i <= v@.len(),
            r@ == v@.subrange(0, i as int),
        decreases v.len() - i,
    {
        r.push(v[i]);
        assert(r@ =~= v@.subrange(0, i + 1));
        i = i + 1;
    }
    assert(v@.subrange(0, v@.len() as int) =~= v@);
    r
}

impl View for AvatarCache {
    type V = Map<Seq<char>, Seq<u8>>;

    closed spec fn view(&self) -> Map<Seq<char>, Seq<u8>> {
        entries_map(self.entries@)
    }
}

impl AvatarCache {
    /// The cache's consistency: no address is held twice.
    pub closed spec fn wf(&self) -> bool {
        unique_keys(self.entries@)
    }

    /// An empty cache.
    pub fn new() -> (r: Self)
        ensures
            r.wf(),
            r@ == Map::<Seq<char>, Seq<u8>>::empty(),
    {
        AvatarCache { entries: Vec::new() }
    }

    fn position(&self, url: &str) -> (r: usize)
        requires
            self.wf(),
        ensures
            r <= self.entries@.len(),
            r < self.entries@.len() ==> self.entries@[r as int].0@ == url@,
            r == self.entries@.len() ==> forall|i: int| 0 <= i < self.entries@.len() ==> (#[trigger] self.entries@[i]).0@ != url@,
    {
        let mut i: usize = 0;
        while i < self.entries.len()
            invariant
                i <= self.entries@.len(),
                forall|j: int| 0 <= j < i ==> (#[trigger] self.entries@[j]).0@ != url@,
            decreases self.entries.len() - i,
        {
            if crate::text::str_eq(self.entries[i].0.as_str(), url) {
                return i;
            }
            i = i + 1;
        }
        i
    }

    /// A copy of the image fetched from `url`, if there is one.
    pub fn get(&self, url: &str) -> (r: Option<Vec<u8>>)
        requires
            self.wf(),
        ensures
            match r {
                Some(b) => self@.contains_key(url@) && b@ == self@[url@],
                None => !self@.contains_key(url@),
            },
    {
        let i = self.position(url);
        proof {
            lemma_entries_map_lookup(self.entries@, url@);
        }
        if i < self.entries.len() {
            Some(copy_bytes(&self.entries[i].1))
        } else {
            None
        }
    }

    /// Keeps the image fetched from `url`, replacing an earlier one.
    pub fn insert(&mut self, url: String, bytes: Vec<u8>)
        requires
            old(self).wf(),
        ensures
            final(self).wf(),
            final(self)@ == old(self)@.insert(url@, bytes@),
    {
        let i = self.position(url.as_str());
        let ghost key = url@;
        let ghost val = bytes@;
        if i < self.entries.len() {
            let ghost before = self.entries@;
            let _ = self.entries.remove(i);
            self.entries.insert(i, (url, bytes));
            proof {
                assert(self.entries@ =~= before.update(i as int, self.entries@[i as int]));
                lemma_entries_map_update(before, i as int, self.entries@[i as int]);
            }
        } else {
            let ghost before = self.entries@;
            self.entries.push((url, bytes));
            proof {
                assert(self.entries@.drop_last() =~= before);
                assert forall|a: int, b: int| 0 <= a < b < self.entries@.len() implies self.entries@[a].0@ != self.entries@[b].0@ by {
                    if b == before.len() {
                        assert(self.entries@[a] == before[a]);
                    } else {
                        assert(self.entries@[a] == before[a] && self.entries@[b] == before[b]);
                    }
                }
            }
        }
        assert(self@ == old(self)@.insert(key, val));
    }
}

/// After `insert(url, bytes)` on a consistent cache, `get(url)` gives back
/// `bytes`, and `get` at any other address gives what it gave before.
pub proof fn cache_read_after_write(before: AvatarCache, after: AvatarCache, url: Seq<char>, bytes: Seq<u8>, other: Seq<char>)
    requires
        before.wf(),
        after.wf(),
        after@ == before@.insert(url, bytes),
        other != url,
    ensures
        after@.contains_key(url),
        after@[url] == bytes,
        after@.contains_key(other) == before@.contains_key(other),
        before@.contains_key(other) ==> after@[other] == before@[other],
{
}

/// The key under which a processed avatar is kept: its address and the key
/// of its ring colour.
pub fn avatar_image_key(url: &str, border: Option<(u8, u8, u8, u8)>) -> (r: (String, Option<u32>))
    ensures
        r.0@ == url@,
        match border {
            Some((a, rr, g, b)) => r.1 matches Some(k) && k == argb_word(a, rr, g, b),
            None => r.1 is None,
        },
{
    (String::from_str(url), border_key(border))
}

/// What becomes of a processed avatar.
#[derive(Debug, Clone, Copy, PartialEq, Eq, Structural)]
pub enum ProcessedAvatarPlan {
    /// Nothing came out of processing: show the default avatar, keep nothing.
    UseDefault,
    /// Decode the image, keep it under its key, and show it.
    DecodeAndCache,
}

/// Decides what becomes of the bytes that processing an avatar produced.
pub fn processed_avatar_plan(processed: &Vec<u8>) -> (r: ProcessedAvatarPlan)
    ensures
        r == if processed@.len() == 0 {
            ProcessedAvatarPlan::UseDefault
        } else {
            ProcessedAvatarPlan::DecodeAndCache
        },
{
    if processed.len() == 0 {
        ProcessedAvatarPlan::UseDefault
    } else {
        ProcessedAvatarPlan::DecodeAndCache
    }
}

/// Where an avatar's bytes come from.
#[derive(Debug)]
pub enum IconPlan {
    /// Fetched before: these bytes.
    Cached(Vec<u8>),
    /// No address and a placeholder wanted: the default avatar.
    Placeholder,
    /// Fetch from the address (and keep the result in the cache).
    Fetch,
}

/// Decides where the bytes of the avatar at `url` come from: the cache
/// first, then the default avatar for an empty address when a placeholder
/// is wanted, else the network.
pub fn plan_icon_fetch(cache: &AvatarCache, url: &str, placeholder: bool) -> (r: IconPlan)
    requires
        cache.wf(),
    ensures
        cache@.contains_key(url@) ==> (r matches IconPlan::Cached(b) && b@ == cache@[url@]),
        !cache@.contains_key(url@) && url@.len() == 0 && placeholder ==> r is Placeholder,
        !cache@.contains_key(url@) && !(url@.len() == 0 && placeholder) ==> r is Fetch,
{
    match cache.get(url) {
        Some(b) => IconPlan::Cached(b),
        None => {
            if url.is_empty() && placeholder {
                IconPlan::Placeholder
            } else {
                IconPlan::Fetch
            }
        },
    }
}

} // verus!
