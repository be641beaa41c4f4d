//! The font cache: human font names mapped to an externally owned asset
//! handle and, once the asset has been imported into the rasterizer, a
//! stable rasterizer font id.
//!
//! Entries start out pending; the per-frame load tick promotes a pending
//! entry to ready exactly once, and a ready entry's id never changes.
use vstd::prelude::*;
use vstd::pervasive::VecAdditionalExecFns;

verus! {

/// Whether a font's bytes have been handed to the rasterizer yet, and
/// under which rasterizer font id if so.
#[derive(Clone, Copy, Debug, PartialEq, Eq, Structural)]
pub enum FontState {
    Pending,
    Ready(usize),
}

/// One named font of the cache.
pub struct FontEntry {
    pub name: String,
    pub handle: u64,
    pub state: FontState,
}

/// The mathematical value of one entry: the asset handle and the load
/// state under the font's name.
#[derive(Clone, Copy, Debug, PartialEq, Eq, Structural)]
pub struct FontRecord {
    pub handle: u64,
    pub state: FontState,
}

/// The map described by an entry list, later entries winning.
pub open spec fn map_of(s: Seq<FontEntry>) -> Map<Seq<char>, FontRecord>
    decreases s.len(),
{
    if s.len() == 0 {
        Map::empty()
    } else {
        map_of(s.drop_last()).insert(
            s.last().name@,
            FontRecord { handle: s.last().handle, state: s.last().state },
        )
    }
}

/// Mapping from font name to asset handle and rasterizer font id.
pub struct FontCache {
    entries: Vec<FontEntry>,
}

impl View for FontCache {
    type V = Map<Seq<char>, FontRecord>;

    closed spec fn view(&self) -> Map<Seq<char>, FontRecord> {
        map_of(self.entries@)
    }
}

impl FontCache {
    /// Each name occurs at most once.
    pub closed spec fn wf(self) -> bool {
        forall|i: int, j: int|
            0 <= i < j < self.entries@.len() ==> self.entries@[i].name@ != self.entries@[j].name@
    }

    /// The record under `name`, if the name is known.
    pub open spec fn spec_get(self, name: Seq<char>) -> Option<FontRecord> {
        if self@.contains_key(name) {
            Some(self@[name])
        } else {
            None
        }
    }

    /// The rasterizer font id under `name`, if that font is ready.
    pub open spec fn spec_get_id(self, name: Seq<char>) -> Option<usize> {
        match self.spec_get(name) {
            Some(r) => match r.state {
                FontState::Ready(id) => Some(id),
                FontState::Pending => None,
            },
            None => None,
        }
    }

    /// An empty cache.
    pub fn new() -> (c: FontCache)
        ensures
            c.wf(),
            c@ == Map::<Seq<char>, FontRecord>::empty(),
    {
        FontCache { entries: Vec::new() }
    }

    /// Registers `font_name` under `font_handle` and (re)marks it
    /// pending, so the next load tick imports it.
    pub fn insert(&mut self, font_name: String, font_handle: u64)
        requires
            old(self).wf(),
        ensures
            final(self).wf(),
            final(self)@ == old(self)@.insert(
                font_name@,
                FontRecord { handle: font_handle, state: FontState::Pending },
            ),
    {
        match self.find(&font_name) {
            Option::Some(i) => {
                proof {
                    lemma_map_of_update(
                        self.entries@,
                        i as int,
                        FontEntry {
                            name: font_name,
                            handle: font_handle,
                            state: FontState::Pending,
                        },
                    );
                }
                self.entries.set(
                    i,
                    FontEntry { name: font_name, handle: font_handle, state: FontState::Pending },
                );
            },
            Option::None => {
                let ghost name = font_name@;
                proof {
                    lemma_map_of_contains(self.entries@, name);
                }
                self.entries.push(
                    FontEntry { name: font_name, handle: font_handle, state: FontState::Pending },
                );
                proof {
                    assert(self.entries@.drop_last() =~= old(self).entries@);
                    assert forall|i: int, j: int|
                        0 <= i < j < self.entries@.len() implies self.entries@[i].name@
                        != self.entries@[j].name@ by {
                        if j == self.entries@.len() - 1 {
                            assert(old(self).entries@[i] == self.entries@[i]);
                            assert(self.entries@[i].name@ != name);
                        } else {
                            assert(old(self).entries@[i] == self.entries@[i]);
                            assert(old(self).entries@[j] == self.entries@[j]);
                        }
                    }
                }
            },
        }
    }

    /// The asset handle under `font_name`, if the name is known.
    pub fn get_handle(&self, font_name: &String) -> (r: Option<u64>)
        requires
            self.wf(),
        ensures
            r == (match self.spec_get(font_name@) {
                Some(rec) => Some(rec.handle),
                None => None::<u64>,
            }),
    {
        match self.find(font_name) {
            Option::Some(i) => Some(self.entries[i].handle),
            Option::None => None,
        }
    }

    /// The rasterizer font id under `font_name`, if that font is ready.
    pub fn get_id(&self, font_name: &String) -> (r: Option<usize>)
        requires
            self.wf(),
        ensures
            r == self.spec_get_id(font_name@),
    {
        match self.find(font_name) {
            Option::Some(i) => match self.entries[i].state {
                FontState::Ready(id) => Some(id),
                FontState::Pending => None,
            },
            Option::None => None,
        }
    }

    /// Whether `font_name` is registered and still waiting for its asset.
    pub fn is_pending(&self, font_name: &String) -> (r: bool)
        requires
            self.wf(),
        ensures
            r == (self.spec_get(font_name@) matches Some(rec) && rec.state is Pending),
    {
        match self.find(font_name) {
            Option::Some(i) => match self.entries[i].state {
                FontState::Pending => true,
                FontState::Ready(_) => false,
            },
            Option::None => false,
        }
    }

    /// Promotes a known font to ready under the rasterizer id it was
    /// imported as; unknown names are ignored.
    pub fn mark_loaded(&mut self, font_name: &String, id: usize)
        requires
            old(self).wf(),
        ensures
            final(self).wf(),
            old(self)@.contains_key(font_name@) ==> final(self)@ == old(self)@.insert(
                font_name@,
                FontRecord {
                    handle: old(self)@[font_name@].handle,
                    state: FontState::Ready(id),
                },
            ),
            !old(self)@.contains_key(font_name@) ==> final(self)@ == old(self)@,
    {
        match self.find(font_name) {
            Option::Some(i) => {
                let handle = self.entries[i].handle;
                let name = self.entries[i].name.clone();
                proof {
                    lemma_map_of_update(
                        self.entries@,
                        i as int,
                        FontEntry { name, handle, state: FontState::Ready(id) },
                    );
                }
                self.entries.set(i, FontEntry { name, handle, state: FontState::Ready(id) });
            },
            Option::None => {},
        }
    }

    /// The index of `font_name` in the entry list, if present.
    fn find(&self, font_name: &String) -> (r: Option<usize>)
        requires
            self.wf(),
        ensures
            r matches Some(i) ==> i < self.entries@.len() && self.entries@[i as int].name@
                == font_name@ && self@.contains_key(font_name@) && self@[font_name@] == (FontRecord {
                handle: self.entries@[i as int].handle,
                state: self.entries@[i as int].state,
            }),
            r is None ==> !self@.contains_key(font_name@),
    {
        let n = self.entries.len();
        for i in 0..n
            invariant
                n == self.entries@.len(),
                self.wf(),
                forall|k: int| 0 <= k < i ==> self.entries@[k].name@ != font_name@,
        {
            if self.entries[i].name == *font_name {
                proof {
                    lemma_map_of_index(self.entries@, i as int);
                }
                return Some(i);
            }
        }
        proof {
            lemma_map_of_contains(self.entries@, font_name@);
        }
        None
    }
}

/// Under unique names, each entry is visible in the map.
proof fn lemma_map_of_index(s: Seq<FontEntry>, i: int)
    requires
        forall|p: int, q: int| 0 <= p < q < s.len() ==> s[p].name@ != s[q].name@,
        0 <= i < s.len(),
    ensures
        map_of(s).contains_key(s[i].name@),
        map_of(s)[s[i].name@] == (FontRecord { handle: s[i].handle, state: s[i].state }),
    decreases s.len(),
{
    if i == s.len() - 1 {
    } else {
        lemma_map_of_index(s.drop_last(), i);
        assert(s.drop_last()[i] == s[i]);
        assert(s.last().name@ != s[i].name@);
    }
}

/// The map's domain is exactly the entry names.
proof fn lemma_map_of_contains(s: Seq<FontEntry>, name: Seq<char>)
    ensures
        map_of(s).contains_key(name) <==> exists|i: int| 0 <= i < s.len() && s[i].name@ == name,
    decreases s.len(),
{
    if s.len() > 0 {
        lemma_map_of_contains(s.drop_last(), name);
        if s.last().name@ == name {
            assert(s[s.len() - 1].name@ == name);
        } else if map_of(s).contains_key(name) {
            let i = choose|i: int| 0 <= i < s.drop_last().len() && s.drop_last()[i].name@ == name;
            assert(s[i].name@ == name);
        } else {
            assert forall|i: int| 0 <= i < s.len() implies s[i].name@ != name by {
                if i < s.len() - 1 {
                    assert(s.drop_last()[i].name@ != name);
                }
            }
        }
    }
}

/// Replacing an entry by one with the same name overwrites exactly that
/// name's record.
proof fn lemma_map_of_update(s: Seq<FontEntry>, i: int, e: FontEntry)
    requires
        forall|p: int, q: int| 0 <= p < q < s.len() ==> s[p].name@ != s[q].name@,
        0 <= i < s.len(),
        e.name@ == s[i].name@,
    ensures
        map_of(s.update(i, e)) == map_of(s).insert(
            e.name@,
            FontRecord { handle: e.handle, state: e.state },
        ),
        forall|p: int, q: int|
            0 <= p < q < s.update(i, e).len() ==> s.update(i, e)[p].name@ != s.update(
                i,
                e,
            )[q].name@,
    decreases s.len(),
{
    let v = FontRecord { handle: e.handle, state: e.state };
    if i == s.len() - 1 {
        assert(s.update(i, e).drop_last() =~= s.drop_last());
        assert(map_of(s.update(i, e)) =~= map_of(s).insert(e.name@, v));
    } else {
        lemma_map_of_update(s.drop_last(), i, e);
        assert(s.update(i, e).drop_last() =~= s.drop_last().update(i, e));
        assert(s.update(i, e).last() == s.last());
        assert(s.last().name@ != e.name@);
        assert(map_of(s.update(i, e)) =~= map_of(s).insert(e.name@, v));
    }
}

} // verus!
