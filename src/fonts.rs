//! Bookkeeping of the loaded fonts: each `(font path, point size)` is loaded
//! once, into the next free slot, and found again by later text requests.
//! The slots index an arena of loaded fonts kept by the renderer.

use vstd::prelude::*;

verus! {

/// Key of one loaded font.
#[derive(Debug)]
pub struct FontKey {
    pub path: String,
    pub size: u16,
}

/// Where a text request finds its font.
#[derive(Clone, Copy, Debug, PartialEq, Eq, Structural)]
pub enum FontLookup {
    /// Already loaded, in this slot.
    Loaded(usize),
    /// Not loaded yet: load it, then record it.
    Missing,
}

/// The slots of the loaded fonts.
#[derive(Debug)]
pub struct FontCache {
    keys: Vec<FontKey>,
}

/// Slot `i` of `keys` holds the font `(path, size)`.
pub open spec fn holds(keys: Seq<(Seq<char>, u16)>, i: int, path: Seq<char>, size: u16) -> bool {
    0 <= i < keys.len() && keys[i] == (path, size)
}

impl FontCache {
    /// The key of each slot, in slot order.
    pub closed spec fn keys(self) -> Seq<(Seq<char>, u16)> {
        self.keys@.map_values(|k: FontKey| (k.path@, k.size))
    }

    /// No font is held in two slots.
    pub open spec fn wf(self) -> bool {
        forall|i: int, j: int|
            0 <= i < self.keys().len() && 0 <= j < self.keys().len() && i != j ==> self.keys()[i]
                != self.keys()[j]
    }

    /// A cache with no font.
    pub fn new() -> (r: FontCache)
        ensures
            r.wf(),
            r.keys().len() == 0,
    {
        let r = FontCache { keys: Vec::new() };
        assert(r.keys() =~= Seq::empty());
        r
    }

    /// Number of slots in use.
    pub fn len(&self) -> (r: usize)
        ensures
            r == self.keys().len(),
    {
        self.keys.len()
    }

    fn position(&self, path: &String, size: u16) -> (r: Option<usize>)
        ensures
            r matches Some(i) ==> holds(self.keys(), i as int, path@, size),
            r is None ==> forall|i: int| !holds(self.keys(), i, path@, size),
    {
        let mut i: usize = 0;
        while i < self.keys.len()
            invariant
                i <= self.keys@.len(),
                forall|j: int| 0 <= j < i ==> !holds(self.keys(), j, path@, size),
            decreases self.keys@.len() - i,
        {
            let k = &self.keys[i];
            if k.size == size && k.path == *path {
                return Some(i);
            }
            i = i + 1;
        }
        None
    }

    /// Where the font `(path, size)` is, if it is loaded.
    pub fn find(&self, path: &str, size: u16) -> (r: FontLookup)
        requires
            self.wf(),
        ensures
            r matches FontLookup::Loaded(i) ==> holds(self.keys(), i as int, path@, size),
            r is Missing <==> forall|i: int| !holds(self.keys(), i, path@, size),
    {
        let p = path.to_owned();
        match self.position(&p, size) {
            Some(i) => FontLookup::Loaded(i),
            None => FontLookup::Missing,
        }
    }

    /// Records that the font `(path, size)` is loaded and returns its slot:
    /// the slot it already had, or else the next one.
    pub fn insert(&mut self, path: &str, size: u16) -> (r: usize)
        requires
            old(self).wf(),
        ensures
            final(self).wf(),
            holds(final(self).keys(), r as int, path@, size),
            (exists|i: int| holds(old(self).keys(), i, path@, size)) ==> final(self).keys() == old(
                self,
            ).keys(),
            (forall|i: int| !holds(old(self).keys(), i, path@, size)) ==> final(self).keys()
                == old(self).keys().push((path@, size)) && r == old(self).keys().len(),
    {
        let p = path.to_owned();
        match self.position(&p, size) {
            Some(i) => i,
            None => {
                let n = self.keys.len();
                let ghost before = self.keys();
                self.keys.push(FontKey { path: p, size });
                assert(self.keys() =~= before.push((path@, size)));
                assert forall|i: int, j: int|
                    0 <= i < self.keys().len() && 0 <= j < self.keys().len() && i != j
                        implies self.keys()[i] != self.keys()[j] by {
                    if i < n as int && j < n as int {
                    } else if i < n as int {
                        assert(!holds(before, i, path@, size));
                    } else {
                        assert(!holds(before, j, path@, size));
                    }
                }
                n
            },
        }
    }
}

} // verus!
