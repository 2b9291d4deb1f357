//! Fonts as tables of outlines, and the cache of glyph fragments made from
//! them.

use crate::geometry::{Affine, PathEl};
use crate::scene::{clip_view, Brush, FragmentKey};
use vstd::prelude::*;

verus! {

/// A font, as far as a scene needs it: an identity, the number of design
/// units per em, and for each glyph id its outline in design units, if the
/// font has one. An outline has the y axis pointing up.
#[derive(Clone, Debug, PartialEq, Eq)]
pub struct Font {
    pub id: u64,
    pub units_per_em: u16,
    pub outlines: Vec<Option<Vec<PathEl>>>,
}

/// What a font holds, with its outlines as sequences.
pub struct FontView {
    pub id: u64,
    pub units_per_em: u16,
    pub outlines: Seq<Option<Seq<PathEl>>>,
}

impl View for Font {
    type V = FontView;

    open spec fn view(&self) -> FontView {
        FontView {
            id: self.id,
            units_per_em: self.units_per_em,
            outlines: self.outlines@.map_values(|o: Option<Vec<PathEl>>| clip_view(o)),
        }
    }
}

impl FontView {
    /// The outline of `glyph`. A font without units, a glyph id beyond the
    /// table and an empty entry of the table give none.
    pub open spec fn outline(self, glyph: u16) -> Option<Seq<PathEl>> {
        if self.units_per_em > 0 && (glyph as int) < self.outlines.len() {
            self.outlines[glyph as int]
        } else {
            None
        }
    }

    /// The factor from design units to a font size: `size / units_per_em`,
    /// rounded down to a multiple of 1/65536. A size that is not positive
    /// gives nought.
    pub open spec fn scale(self, size: i32) -> i32 {
        if size > 0 && self.units_per_em > 0 {
            (size as int / self.units_per_em as int) as i32
        } else {
            0
        }
    }
}

/// The table `outlines`, made as long as it takes to hold an entry for
/// `glyph`, with that entry set to `outline`. The entries that are added on
/// the way are empty.
pub open spec fn with_outline(
    outlines: Seq<Option<Seq<PathEl>>>,
    glyph: u16,
    outline: Option<Seq<PathEl>>,
) -> Seq<Option<Seq<PathEl>>> {
    Seq::new(
        if outlines.len() > glyph {
            outlines.len()
        } else {
            (glyph + 1) as nat
        },
        |i: int|
            if i == glyph {
                outline
            } else if i < outlines.len() {
                outlines[i]
            } else {
                None
            },
    )
}

impl Font {
    /// A font without outlines.
    pub fn new(id: u64, units_per_em: u16) -> (f: Font)
        ensures
            f@ == (FontView { id, units_per_em, outlines: Seq::empty() }),
    {
        let f = Font { id, units_per_em, outlines: Vec::new() };
        assert(f@.outlines =~= Seq::empty());
        f
    }

    /// Sets the outline of `glyph`, or takes it away.
    pub fn set_outline(&mut self, glyph: u16, outline: Option<Vec<PathEl>>)
        ensures
            final(self)@ == (FontView {
                id: old(self)@.id,
                units_per_em: old(self)@.units_per_em,
                outlines: with_outline(old(self)@.outlines, glyph, clip_view(outline)),
            }),
    {
        let at: usize = glyph as usize;
        let ghost before = self@.outlines;
        while self.outlines.len() <= at
            invariant
                at == glyph,
                self.id == old(self).id,
                self.units_per_em == old(self).units_per_em,
                before.len() <= self.outlines@.len(),
                self.outlines@.len() <= at + 1 || self.outlines@.len() == before.len(),
                forall|i: int|
                    0 <= i < before.len() ==> clip_view(#[trigger] self.outlines@[i]) == before[i],
                forall|i: int|
                    before.len() <= i < self.outlines@.len() ==> (
                    #[trigger] self.outlines@[i]) is None,
            decreases at + 1 - self.outlines.len(),
        {
            self.outlines.push(None);
        }
        self.outlines.set(at, outline);
        assert forall|i: int| 0 <= i < self@.outlines.len() implies self@.outlines[i]
            == with_outline(before, glyph, clip_view(outline))[i] by {
            assert(self@.outlines[i] == clip_view(self.outlines@[i]));
        }
        assert(self@.outlines =~= with_outline(before, glyph, clip_view(outline)));
    }

    /// The outline of `glyph`, if the font has one.
    pub fn outline(&self, glyph: u16) -> (r: Option<&Vec<PathEl>>)
        ensures
            r matches Some(path) ==> self@.outline(glyph) == Some(path@),
            r is None ==> self@.outline(glyph) is None,
    {
        if self.units_per_em > 0 && (glyph as usize) < self.outlines.len() {
            match &self.outlines[glyph as usize] {
                Some(path) => Some(path),
                None => None,
            }
        } else {
            None
        }
    }

    /// The factor from design units to `size`.
    pub fn scale(&self, size: i32) -> (s: i32)
        ensures
            s == self@.scale(size),
    {
        if size > 0 && self.units_per_em > 0 {
            size / (self.units_per_em as i32)
        } else {
            0
        }
    }
}

/// The filled outline of one glyph at one size, painted with one brush.
#[derive(Clone, Debug, PartialEq, Eq)]
pub struct Fragment {
    pub brush: Brush,
    pub path: Vec<PathEl>,
}

/// What a fragment holds, with its path as a sequence.
pub struct FragmentView {
    pub brush: Brush,
    pub path: Seq<PathEl>,
}

impl View for Fragment {
    type V = FragmentView;

    open spec fn view(&self) -> FragmentView {
        FragmentView { brush: self.brush, path: self.path@ }
    }
}

/// The fragment for an outline: each of its points scaled by `scale`.
pub open spec fn glyph_fragment(outline: Seq<PathEl>, scale: i32, brush: Brush) -> FragmentView {
    FragmentView {
        brush,
        path: outline.map_values(|el: PathEl| Affine::scale_spec(scale).apply_el_spec(el)),
    }
}

/// The key under which the fragment of a glyph is kept.
pub open spec fn fragment_key(font: FontView, size: i32, glyph: u16, brush: Brush) -> FragmentKey {
    FragmentKey { font: font.id, size, glyph, brush }
}

/// What a cache holds after it was asked for a glyph. A glyph without an
/// outline changes nothing, and so does one whose key is present. Any
/// other adds its fragment under its key.
pub open spec fn cache_with(
    entries: Map<FragmentKey, FragmentView>,
    font: FontView,
    size: i32,
    glyph: u16,
    brush: Brush,
) -> Map<FragmentKey, FragmentView> {
    match font.outline(glyph) {
        Some(outline) => {
            let key = fragment_key(font, size, glyph, brush);
            if entries.contains_key(key) {
                entries
            } else {
                entries.insert(key, glyph_fragment(outline, font.scale(size), brush))
            }
        },
        None => entries,
    }
}

/// Makes the fragment for an outline.
pub fn make_fragment(outline: &Vec<PathEl>, scale: i32, brush: Brush) -> (f: Fragment)
    ensures
        f@ == glyph_fragment(outline@, scale, brush),
{
    let m = Affine::scale(scale);
    let mut path: Vec<PathEl> = Vec::new();
    let mut i: usize = 0;
    while i < outline.len()
        invariant
            0 <= i <= outline.len(),
            m == Affine::scale_spec(scale),
            path@.len() == i,
            forall|j: int| 0 <= j < i ==> path@[j] == m.apply_el_spec(#[trigger] outline@[j]),
        decreases outline.len() - i,
    {
        path.push(m.apply_el(outline[i]));
        i = i + 1;
    }
    let f = Fragment { brush, path };
    assert(f@.path =~= glyph_fragment(outline@, scale, brush).path);
    f
}

/// The fragments made so far, each under its key. An entry is never
/// changed or dropped.
pub struct GlyphCache {
    keys: Vec<FragmentKey>,
    fragments: Vec<Fragment>,
}

impl View for GlyphCache {
    type V = Map<FragmentKey, FragmentView>;

    closed spec fn view(&self) -> Map<FragmentKey, FragmentView> {
        Map::new(
            |k: FragmentKey| self.keys@.contains(k),
            |k: FragmentKey| self.fragments@[self.keys@.index_of(k)]@,
        )
    }
}

impl GlyphCache {
    /// Each key has one fragment and stands once.
    pub closed spec fn wf(&self) -> bool {
        &&& self.keys@.len() == self.fragments@.len()
        &&& self.keys@.no_duplicates()
    }

    /// With keys that stand once, the entry of the key at `i` is the
    /// fragment at `i`.
    proof fn lemma_entry_at(&self, i: int)
        requires
            self.wf(),
            0 <= i < self.keys@.len(),
        ensures
            self@.contains_key(self.keys@[i]),
            self@[self.keys@[i]] == self.fragments@[i]@,
    {
        let k = self.keys@[i];
        assert(self.keys@.contains(k));
        let j = self.keys@.index_of(k);
        assert(0 <= j < self.keys@.len() && self.keys@[j] == k);
    }

    /// An empty cache.
    pub fn new() -> (c: GlyphCache)
        ensures
            c.wf(),
            c@ == Map::<FragmentKey, FragmentView>::empty(),
    {
        let c = GlyphCache { keys: Vec::new(), fragments: Vec::new() };
        assert(c@ =~= Map::<FragmentKey, FragmentView>::empty());
        c
    }

    fn find(&self, key: &FragmentKey) -> (r: Option<usize>)
        requires
            self.wf(),
        ensures
            r matches Some(i) ==> i < self.keys@.len() && self.keys@[i as int] == *key,
            r is None ==> !self.keys@.contains(*key),
    {
        let mut i: usize = 0;
        while i < self.keys.len()
            invariant
                0 <= i <= self.keys@.len(),
                forall|j: int| 0 <= j < i ==> self.keys@[j] != *key,
            decreases self.keys.len() - i,
        {
            if self.keys[i] == *key {
                return Some(i);
            }
            i = i + 1;
        }
        None
    }

    /// Whether a fragment is kept under `key`.
    pub fn contains(&self, key: &FragmentKey) -> (r: bool)
        requires
            self.wf(),
        ensures
            r == self@.contains_key(*key),
    {
        self.find(key).is_some()
    }

    /// The fragment kept under `key`.
    pub fn fragment(&self, key: &FragmentKey) -> (r: Option<&Fragment>)
        requires
            self.wf(),
        ensures
            r is Some <==> self@.contains_key(*key),
            r matches Some(f) ==> f@ == self@[*key],
    {
        match self.find(key) {
            Some(i) => {
                proof {
                    self.lemma_entry_at(i as int);
                }
                Some(&self.fragments[i])
            },
            None => None,
        }
    }

    /// The number of fragments.
    pub fn len(&self) -> (n: usize)
        requires
            self.wf(),
        ensures
            n == self@.dom().len(),
            self@.dom().finite(),
    {
        proof {
            self.keys@.unique_seq_to_set();
            assert(self@.dom() =~= self.keys@.to_set());
        }
        self.keys.len()
    }

    /// Hands out the key of the fragment for a glyph of `font` at `size`,
    /// painted with `brush`, and makes and keeps the fragment if the cache
    /// has none under that key. Where the font has no outline for the
    /// glyph there is no fragment, and nothing changes.
    pub fn get_fragment(&mut self, font: &Font, size: i32, glyph: u16, brush: Brush) -> (r: Option<
        FragmentKey,
    >)
        requires
            old(self).wf(),
        ensures
            final(self).wf(),
            r is Some <==> font@.outline(glyph) is Some,
            r matches Some(key) ==> key == fragment_key(font@, size, glyph, brush),
            r matches Some(key) ==> final(self)@.contains_key(key),
            final(self)@ == cache_with(old(self)@, font@, size, glyph, brush),
            old(self)@.submap_of(final(self)@),
    {
        match font.outline(glyph) {
            None => None,
            Some(outline) => {
                let key = FragmentKey { font: font.id, size, glyph, brush };
                if self.find(&key).is_none() {
                    let fragment = make_fragment(outline, font.scale(size), brush);
                    let ghost before = *self;
                    self.keys.push(key);
                    self.fragments.push(fragment);
                    proof {
                        let last = before.keys@.len() as int;
                        let grown = before@.insert(key, fragment@);
                        assert(self.keys@[last] == key);
                        assert(self.fragments@[last] == fragment);
                        assert forall|k: FragmentKey| #[trigger]
                            self@.contains_key(k) == grown.contains_key(k) by {
                            if before.keys@.contains(k) {
                                let i = before.keys@.index_of(k);
                                assert(self.keys@[i] == k);
                            }
                            if self.keys@.contains(k) {
                                let i = self.keys@.index_of(k);
                                if i < last {
                                    assert(before.keys@[i] == k);
                                }
                            }
                        }
                        assert forall|k: FragmentKey| #[trigger]
                            self@.contains_key(k) implies self@[k] == grown[k] by {
                            let i = self.keys@.index_of(k);
                            self.lemma_entry_at(i);
                            if i < last {
                                assert(before.keys@[i] == k);
                                before.lemma_entry_at(i);
                            }
                        }
                        assert(self@ =~= before@.insert(key, fragment@));
                    }
                }
                Some(key)
            },
        }
    }
}

/// A cache only grows: whatever it held before it was asked for a glyph,
/// it holds unchanged afterwards.
pub proof fn lemma_cache_entries_persist(
    entries: Map<FragmentKey, FragmentView>,
    font: FontView,
    size: i32,
    glyph: u16,
    brush: Brush,
)
    ensures
        entries.submap_of(cache_with(entries, font, size, glyph, brush)),
{
}

} // verus!
