//! Glyph cache: a texture atlas packed with the Guillotine algorithm, plus a
//! glyph lookup table with LRU eviction.

use crate::vt_parser::CellStyle;
use std::collections::HashMap;
use std::collections::VecDeque;
use vstd::prelude::*;

verus! {

// ---------------------------------------------------------------------------
// Rectangles
// ---------------------------------------------------------------------------

/// An axis-aligned rectangle of atlas pixels.
#[derive(Debug, Clone, Copy, PartialEq, Eq, Structural)]
pub struct AtlasRect {
    pub x: u32,
    pub y: u32,
    pub width: u32,
    pub height: u32,
}

pub open spec fn area(r: AtlasRect) -> int {
    r.width * r.height
}

/// `r` lies inside a `w` x `h` atlas.
pub open spec fn inside(r: AtlasRect, w: int, h: int) -> bool {
    r.x + r.width <= w && r.y + r.height <= h
}

/// `a` and `b` share no pixel.
pub open spec fn disjoint(a: AtlasRect, b: AtlasRect) -> bool {
    ||| a.width == 0 || a.height == 0 || b.width == 0 || b.height == 0
    ||| a.x + a.width <= b.x
    ||| b.x + b.width <= a.x
    ||| a.y + a.height <= b.y
    ||| b.y + b.height <= a.y
}

/// `a` lies inside `b`.
pub open spec fn contained(a: AtlasRect, b: AtlasRect) -> bool {
    &&& b.x <= a.x
    &&& a.x + a.width <= b.x + b.width
    &&& b.y <= a.y
    &&& a.y + a.height <= b.y + b.height
}

proof fn lemma_contained_disjoint(a: AtlasRect, b: AtlasRect, c: AtlasRect)
    requires
        contained(a, b),
        disjoint(b, c),
    ensures
        disjoint(a, c),
        disjoint(c, a),
{
}

// ---------------------------------------------------------------------------
// Guillotine allocator
// ---------------------------------------------------------------------------

/// Abstract state of the allocator: the atlas size, the free rectangles and
/// (ghost) every rectangle handed out so far.
pub ghost struct AllocatorView {
    pub width: u32,
    pub height: u32,
    pub free: Seq<AtlasRect>,
    pub allocated: Seq<AtlasRect>,
}

/// The allocator's invariant: everything lies inside the atlas, and no two of
/// the free and allocated rectangles share a pixel.
pub open spec fn alloc_wf(a: AllocatorView) -> bool {
    &&& forall|i: int| 0 <= i < a.free.len() ==> inside(#[trigger] a.free[i], a.width as int, a.height as int)
    &&& forall|i: int|
        0 <= i < a.allocated.len() ==> inside(#[trigger] a.allocated[i], a.width as int, a.height as int)
    &&& forall|i: int, j: int| 0 <= i < j < a.free.len() ==> disjoint(a.free[i], a.free[j])
    &&& forall|i: int, j: int|
        0 <= i < j < a.allocated.len() ==> disjoint(a.allocated[i], a.allocated[j])
    &&& forall|i: int, j: int|
        0 <= i < a.free.len() && 0 <= j < a.allocated.len() ==> disjoint(
            a.free[i],
            a.allocated[j],
        )
}

/// Free rectangle `i` can hold a `w` x `h` glyph.
pub open spec fn fits(r: AtlasRect, w: u32, h: u32) -> bool {
    r.width >= w && r.height >= h
}

/// Free rectangle `i` is the first of the smallest-area rectangles that fit.
pub open spec fn best_fit(free: Seq<AtlasRect>, w: u32, h: u32, i: int) -> bool {
    &&& 0 <= i < free.len()
    &&& fits(free[i], w, h)
    &&& forall|j: int| 0 <= j < free.len() && fits(free[j], w, h) ==> area(free[i]) <= area(#[trigger] free[j])
    &&& forall|j: int| 0 <= j < i && fits(free[j], w, h) ==> area(free[i]) < area(#[trigger] free[j])
}

/// The free rectangles left after carving a `w` x `h` rectangle from the top
/// left of free rectangle `i`: the rest of its row band to the right, and
/// everything below.
pub open spec fn split_free(free: Seq<AtlasRect>, i: int, w: u32, h: u32) -> Seq<AtlasRect> {
    let f = free[i];
    let rest = free.remove(i);
    let with_right = if f.width > w {
        rest.push(AtlasRect { x: (f.x + w) as u32, y: f.y, width: (f.width - w) as u32, height: h })
    } else {
        rest
    };
    if f.height > h {
        with_right.push(
            AtlasRect { x: f.x, y: (f.y + h) as u32, width: f.width, height: (f.height - h) as u32 },
        )
    } else {
        with_right
    }
}

/// Guillotine bin-packing allocator.
pub struct GuillotineAllocator {
    width: u32,
    height: u32,
    free_rects: Vec<AtlasRect>,
    allocated: Ghost<Seq<AtlasRect>>,
}

impl View for GuillotineAllocator {
    type V = AllocatorView;

    closed spec fn view(&self) -> AllocatorView {
        AllocatorView {
            width: self.width,
            height: self.height,
            free: self.free_rects@,
            allocated: self.allocated@,
        }
    }
}

fn rect_area(r: &AtlasRect) -> (a: u64)
    ensures
        a == area(*r),
{
    proof {
        assert(r.width as int * r.height as int <= 0xffff_ffff * 0xffff_ffff) by (nonlinear_arith)
            requires
                r.width <= 0xffff_ffff,
                r.height <= 0xffff_ffff,
        ;
        assert(0 <= r.width as int * r.height as int) by (nonlinear_arith);
    }
    r.width as u64 * r.height as u64
}

impl GuillotineAllocator {
    /// An empty `width` x `height` atlas: one free rectangle covering it all.
    pub fn new(width: u32, height: u32) -> (a: Self)
        ensures
            a@.width == width,
            a@.height == height,
            a@.free == seq![AtlasRect { x: 0, y: 0, width, height }],
            a@.allocated == Seq::<AtlasRect>::empty(),
            alloc_wf(a@),
            free_area_of(a@.free) + free_area_of(a@.allocated) == width * height,
    {
        let mut free_rects = Vec::new();
        free_rects.push(AtlasRect { x: 0, y: 0, width, height });
        let a = GuillotineAllocator { width, height, free_rects, allocated: Ghost(Seq::empty()) };
        proof {
            lemma_area_push(Seq::<AtlasRect>::empty(), AtlasRect { x: 0, y: 0, width, height });
            assert(Seq::<AtlasRect>::empty().push(AtlasRect { x: 0, y: 0, width, height })
                =~= a@.free);
        }
        a
    }

    /// Allocate a `width` x `height` rectangle from the smallest free
    /// rectangle that can hold it (the first such, on ties); `None` when no
    /// free rectangle is large enough.
    pub fn allocate(&mut self, width: u32, height: u32) -> (r: Option<AtlasRect>)
        requires
            alloc_wf(old(self)@),
        ensures
            alloc_wf(final(self)@),
            final(self)@.width == old(self)@.width,
            final(self)@.height == old(self)@.height,
            free_area_of(final(self)@.free) + free_area_of(final(self)@.allocated) == free_area_of(
                old(self)@.free,
            ) + free_area_of(old(self)@.allocated),
            r matches Some(rect) ==> area(rect) == width * height,
            match r {
                None => {
                    &&& final(self)@ == old(self)@
                    &&& forall|j: int|
                        0 <= j < old(self)@.free.len() ==> !fits(#[trigger] old(self)@.free[j], width, height)
                },
                Some(rect) => exists|i: int| {
                    &&& #[trigger] best_fit(old(self)@.free, width, height, i)
                    &&& rect == (AtlasRect {
                        x: old(self)@.free[i].x,
                        y: old(self)@.free[i].y,
                        width,
                        height,
                    })
                    &&& final(self)@.free == split_free(old(self)@.free, i, width, height)
                    &&& final(self)@.allocated == old(self)@.allocated.push(rect)
                },
            },
    {
        let n = self.free_rects.len();
        let mut best: Option<usize> = None;
        let mut best_area: u64 = 0;
        let mut i: usize = 0;
        while i < n
            invariant
                n == self.free_rects@.len(),
                self@ == old(self)@,
                i <= n,
                match best {
                    None => forall|j: int| 0 <= j < i ==> !fits(#[trigger] self@.free[j], width, height),
                    Some(b) => {
                        &&& b < i
                        &&& fits(self@.free[b as int], width, height)
                        &&& best_area == area(self@.free[b as int])
                        &&& forall|j: int|
                            0 <= j < i && fits(self@.free[j], width, height) ==> area(
                                self@.free[b as int],
                            ) <= area(#[trigger] self@.free[j])
                        &&& forall|j: int|
                            0 <= j < b && fits(self@.free[j], width, height) ==> area(
                                self@.free[b as int],
                            ) < area(#[trigger] self@.free[j])
                    },
                },
            decreases n - i,
        {
            let r = self.free_rects[i];
            if r.width >= width && r.height >= height {
                let a = rect_area(&r);
                match best {
                    None => {
                        best = Some(i);
                        best_area = a;
                    },
                    Some(_) => {
                        if a < best_area {
                            best = Some(i);
                            best_area = a;
                        }
                    },
                }
            }
            i = i + 1;
        }
        let b = match best {
            None => {
                return None;
            },
            Some(b) => b,
        };
        proof {
            assert(best_fit(self@.free, width, height, b as int));
        }
        let ghost old_free = self.free_rects@;
        let f = self.free_rects.remove(b);
        let allocated = AtlasRect { x: f.x, y: f.y, width, height };
        proof {
            assert(inside(f, self.width as int, self.height as int));
        }
        if f.width > width {
            self.free_rects.push(
                AtlasRect { x: f.x + width, y: f.y, width: f.width - width, height },
            );
        }
        if f.height > height {
            self.free_rects.push(
                AtlasRect { x: f.x, y: f.y + height, width: f.width, height: f.height - height },
            );
        }
        let ghost old_alloc = self.allocated@;
        self.allocated = Ghost(self.allocated@.push(allocated));
        proof {
            assert(self.free_rects@ == split_free(old_free, b as int, width, height));
            lemma_split_conserves_area(old_free, b as int, width, height);
            lemma_area_push(old_alloc, allocated);
            let nf = self.free_rects@;
            let na = self.allocated@;
            let rest = old_free.remove(b as int);
            assert(old_free == old(self)@.free);
            assert(old_alloc == old(self)@.allocated);
            assert(contained(allocated, f));
            // every new free rectangle is part of `f`, and misses `allocated`
            assert forall|k: int| rest.len() <= k < nf.len() implies contained(
                #[trigger] nf[k],
                f,
            ) && disjoint(nf[k], allocated) && disjoint(allocated, nf[k]) by {}
            assert forall|k: int| 0 <= k < rest.len() implies #[trigger] rest[k] == old_free[if k
                < b {
                k
            } else {
                k + 1
            }] by {}
            assert forall|i: int| 0 <= i < nf.len() implies inside(
                #[trigger] nf[i],
                self.width as int,
                self.height as int,
            ) by {
                if i < rest.len() {
                    assert(rest[i] == old_free[if i < b { i } else { i + 1 }]);
                }
            }
            assert forall|i: int| 0 <= i < na.len() implies inside(
                #[trigger] na[i],
                self.width as int,
                self.height as int,
            ) by {
                if i < old_alloc.len() {
                    assert(na[i] == old_alloc[i]);
                } else {
                    assert(na[i] == allocated);
                }
            }
            assert forall|i: int, j: int| 0 <= i < j < nf.len() implies disjoint(
                nf[i],
                nf[j],
            ) by {
                if j < rest.len() {
                    let oi = if i < b { i } else { i + 1 };
                    let oj = if j < b { j } else { j + 1 };
                    assert(rest[i] == old_free[oi]);
                    assert(rest[j] == old_free[oj]);
                } else if i < rest.len() {
                    let oi = if i < b { i } else { i + 1 };
                    assert(rest[i] == old_free[oi]);
                    if oi < b {
                        assert(disjoint(old_free[oi], old_free[b as int]));
                    } else {
                        assert(disjoint(old_free[b as int], old_free[oi]));
                    }
                    lemma_contained_disjoint(nf[j], f, old_free[oi]);
                }
            }
            assert forall|i: int, j: int| 0 <= i < j < na.len() implies disjoint(
                na[i],
                na[j],
            ) by {
                if j < old_alloc.len() {
                    assert(na[i] == old_alloc[i]);
                    assert(na[j] == old_alloc[j]);
                } else {
                    assert(na[i] == old_alloc[i]);
                    assert(disjoint(old_free[b as int], old_alloc[i]));
                    assert(contained(allocated, f));
                    lemma_contained_disjoint(allocated, f, old_alloc[i]);
                }
            }
            assert forall|i: int, j: int|
                0 <= i < nf.len() && 0 <= j < na.len() implies disjoint(nf[i], na[j]) by {
                if j < old_alloc.len() {
                    assert(na[j] == old_alloc[j]);
                    if i < rest.len() {
                        let oi = if i < b { i } else { i + 1 };
                        assert(rest[i] == old_free[oi]);
                    } else {
                        assert(disjoint(old_free[b as int], old_alloc[j]));
                        lemma_contained_disjoint(nf[i], f, old_alloc[j]);
                    }
                } else {
                    if i < rest.len() {
                        let oi = if i < b { i } else { i + 1 };
                        assert(rest[i] == old_free[oi]);
                        if oi < b {
                            assert(disjoint(old_free[oi], old_free[b as int]));
                        } else {
                            assert(disjoint(old_free[b as int], old_free[oi]));
                        }
                        assert(contained(allocated, f));
                        lemma_contained_disjoint(allocated, f, old_free[oi]);
                    }
                }
            }
        }
        Some(allocated)
    }

    /// Total area of the free rectangles.
    pub fn free_area(&self) -> (a: u128)
        ensures
            a == free_area_of(self@.free),
    {
        let mut sum: u128 = 0;
        let n = self.free_rects.len();
        let mut i: usize = 0;
        while i < n
            invariant
                n == self@.free.len(),
                i <= n,
                sum == free_area_of(self@.free.take(i as int)),
                sum <= i as int * 0xffff_fffe_0000_0001,
            decreases n - i,
        {
            let a = rect_area(&self.free_rects[i]);
            proof {
                assert(self@.free.take(i + 1).drop_last() =~= self@.free.take(i as int));
                assert(area(self@.free[i as int]) <= 0xffff_fffe_0000_0001) by (nonlinear_arith)
                    requires
                        self@.free[i as int].width <= 0xffff_ffff,
                        self@.free[i as int].height <= 0xffff_ffff,
                ;
                assert((i + 1) as int * 0xffff_fffe_0000_0001 <= 0xffff_ffff_ffff_ffff
                    * 0xffff_fffe_0000_0001) by (nonlinear_arith)
                    requires
                        i < 0xffff_ffff_ffff_ffff,
                ;
            }
            sum = sum + a as u128;
            i = i + 1;
        }
        proof {
            assert(self@.free.take(n as int) =~= self@.free);
        }
        sum
    }
}

/// Sum of the areas of some rectangles.
pub open spec fn free_area_of(rs: Seq<AtlasRect>) -> int
    decreases rs.len(),
{
    if rs.len() == 0 {
        0
    } else {
        free_area_of(rs.drop_last()) + area(rs.last())
    }
}

proof fn lemma_area_push(rs: Seq<AtlasRect>, x: AtlasRect)
    ensures
        free_area_of(rs.push(x)) == free_area_of(rs) + area(x),
{
    assert(rs.push(x).drop_last() =~= rs);
}

proof fn lemma_area_remove(rs: Seq<AtlasRect>, i: int)
    requires
        0 <= i < rs.len(),
    ensures
        free_area_of(rs.remove(i)) + area(rs[i]) == free_area_of(rs),
    decreases rs.len(),
{
    if i == rs.len() - 1 {
        assert(rs.remove(i) =~= rs.drop_last());
    } else {
        lemma_area_remove(rs.drop_last(), i);
        assert(rs.remove(i) =~= rs.drop_last().remove(i).push(rs.last()));
        lemma_area_push(rs.drop_last().remove(i), rs.last());
    }
}

/// Carving a `w` x `h` rectangle out of a free rectangle that holds it loses
/// no space: the free rectangles left hold exactly `w * h` pixels fewer.
pub proof fn lemma_split_conserves_area(free: Seq<AtlasRect>, i: int, w: u32, h: u32)
    requires
        0 <= i < free.len(),
        fits(free[i], w, h),
    ensures
        free_area_of(split_free(free, i, w, h)) + w * h == free_area_of(free),
{
    let f = free[i];
    let rest = free.remove(i);
    lemma_area_remove(free, i);
    let right = AtlasRect { x: (f.x + w) as u32, y: f.y, width: (f.width - w) as u32, height: h };
    let below = AtlasRect {
        x: f.x,
        y: (f.y + h) as u32,
        width: f.width,
        height: (f.height - h) as u32,
    };
    let with_right = if f.width > w { rest.push(right) } else { rest };
    lemma_area_push(rest, right);
    lemma_area_push(with_right, below);
    assert(f.width * f.height == w * h + (f.width - w) * h + f.width * (f.height - h))
        by (nonlinear_arith);
    assert(f.width == w ==> (f.width - w) * h == 0) by (nonlinear_arith);
    assert(f.height == h ==> f.width * (f.height - h) == 0) by (nonlinear_arith);
}

/// Rectangles handed out by the allocator never overlap one another and
/// always lie inside the atlas (the allocator's invariant, kept by every
/// call of `allocate`).
pub proof fn lemma_allocations_disjoint(a: AllocatorView, i: int, j: int)
    requires
        alloc_wf(a),
        0 <= i < a.allocated.len(),
        0 <= j < a.allocated.len(),
        i != j,
    ensures
        disjoint(a.allocated[i], a.allocated[j]),
        inside(a.allocated[i], a.width as int, a.height as int),
{
    if i > j {
        assert(disjoint(a.allocated[j], a.allocated[i]));
    }
}

} // verus!

verus! {

// ---------------------------------------------------------------------------
// Glyph cache
// ---------------------------------------------------------------------------

/// Glyph cache key: a character and the style attributes that change its
/// shape.
#[derive(Debug, Clone, Copy, PartialEq, Eq, Hash, Structural)]
pub struct GlyphKey {
    pub ch: char,
    pub bold: bool,
    pub italic: bool,
}

impl GlyphKey {
    /// The key for drawing `ch` in `style`.
    pub fn new(ch: char, style: &CellStyle) -> (k: Self)
        ensures
            k == (GlyphKey { ch, bold: style.bold, italic: style.italic }),
    {
        GlyphKey { ch, bold: style.bold, italic: style.italic }
    }
}

/// A key as a 32-bit number (distinct keys give distinct numbers).
pub open spec fn key_code(k: GlyphKey) -> u32 {
    ((k.ch as int) * 4 + (if k.bold { 2int } else { 0int }) + (if k.italic { 1int } else { 0int })) as u32
}

/// Distinct glyph keys have distinct codes.
pub proof fn lemma_key_code_injective(a: GlyphKey, b: GlyphKey)
    requires
        key_code(a) == key_code(b),
    ensures
        a == b,
{
    assert(a.ch as int <= 0x10ffff && b.ch as int <= 0x10ffff);
}

fn code_of(k: &GlyphKey) -> (c: u32)
    ensures
        c == key_code(*k),
{
    let ch = k.ch as u32;
    let b: u32 = if k.bold { 2 } else { 0 };
    let i: u32 = if k.italic { 1 } else { 0 };
    ch * 4 + b + i
}

/// Where a glyph sits in the atlas, and how it advances the pen.
#[derive(Debug, Clone, Copy, PartialEq, Eq, Structural)]
pub struct GlyphInfo {
    /// Atlas pixels holding the glyph bitmap
    pub rect: AtlasRect,
    pub bearing_x: i32,
    pub bearing_y: i32,
    pub advance: u32,
}

/// Cache statistics.
#[derive(Debug, Clone, Copy, PartialEq, Eq, Structural)]
pub struct CacheStats {
    pub total_glyphs: usize,
    /// Atlas pixels not yet handed out
    pub free_area: u128,
    /// All atlas pixels
    pub atlas_area: u64,
}

/// Abstract state of the glyph cache.
pub ghost struct CacheView {
    pub atlas_width: u32,
    pub atlas_height: u32,
    /// Cached glyphs, by key code
    pub entries: Map<u32, GlyphInfo>,
    /// Keys from least to most recently used (a key inserted twice appears twice)
    pub lru: Seq<GlyphKey>,
    pub allocator: AllocatorView,
    pub max_size: nat,
}

/// `lru` with every occurrence of `key` taken out.
pub open spec fn without(lru: Seq<GlyphKey>, key: GlyphKey) -> Seq<GlyphKey>
    decreases lru.len(),
{
    if lru.len() == 0 {
        lru
    } else if lru.last() == key {
        without(lru.drop_last(), key)
    } else {
        without(lru.drop_last(), key).push(lru.last())
    }
}

/// The cache after a successful insert: the glyph entered and queued as
/// most recent; if the queue grew past the limit, its oldest key leaves the
/// queue and the table.
pub open spec fn inserted(c: CacheView, key: GlyphKey, info: GlyphInfo) -> (Map<u32, GlyphInfo>, Seq<GlyphKey>) {
    let entries = c.entries.insert(key_code(key), info);
    let lru = c.lru.push(key);
    if lru.len() > c.max_size {
        (entries.remove(key_code(lru[0])), lru.drop_first())
    } else {
        (entries, lru)
    }
}

/// Glyph cache with Guillotine bin-packing and LRU eviction.
pub struct GlyphCache {
    atlas_width: u32,
    atlas_height: u32,
    cache: HashMap<u32, GlyphInfo>,
    lru: VecDeque<GlyphKey>,
    allocator: GuillotineAllocator,
    max_cache_size: usize,
}

impl View for GlyphCache {
    type V = CacheView;

    closed spec fn view(&self) -> CacheView {
        CacheView {
            atlas_width: self.atlas_width,
            atlas_height: self.atlas_height,
            entries: self.cache@,
            lru: self.lru@,
            allocator: self.allocator@,
            max_size: self.max_cache_size as nat,
        }
    }
}

/// The cache's invariant: every cached glyph is queued in the LRU order,
/// the queue is no longer than the limit, and the atlas allocator is sound.
pub open spec fn cache_wf(c: CacheView) -> bool {
    &&& forall|k: u32| #[trigger] c.entries.contains_key(k) ==> exists|i: int|
        0 <= i < c.lru.len() && key_code(#[trigger] c.lru[i]) == k
    &&& c.lru.len() <= c.max_size
    &&& alloc_wf(c.allocator)
    &&& c.allocator.width == c.atlas_width
    &&& c.allocator.height == c.atlas_height
}

proof fn lemma_without_len(lru: Seq<GlyphKey>, key: GlyphKey, i: int)
    requires
        0 <= i < lru.len(),
        lru[i] == key,
    ensures
        without(lru, key).len() < lru.len(),
    decreases lru.len(),
{
    lemma_without_le(lru.drop_last(), key);
    if i < lru.len() - 1 {
        lemma_without_len(lru.drop_last(), key, i);
    }
}

proof fn lemma_without_le(lru: Seq<GlyphKey>, key: GlyphKey)
    ensures
        without(lru, key).len() <= lru.len(),
    decreases lru.len(),
{
    if lru.len() > 0 {
        lemma_without_le(lru.drop_last(), key);
    }
}

proof fn lemma_without_keeps(lru: Seq<GlyphKey>, key: GlyphKey, i: int)
    requires
        0 <= i < lru.len(),
        lru[i] != key,
    ensures
        exists|j: int| 0 <= j < without(lru, key).len() && without(lru, key)[j] == lru[i],
    decreases lru.len(),
{
    let w = without(lru, key);
    if i == lru.len() - 1 {
        assert(w[w.len() - 1] == lru[i]);
    } else {
        lemma_without_keeps(lru.drop_last(), key, i);
        let w0 = without(lru.drop_last(), key);
        let j = choose|j: int| 0 <= j < w0.len() && w0[j] == lru[i];
        if lru.last() != key {
            assert(w[j] == w0[j]);
        }
    }
}

impl GlyphCache {
    /// An empty cache for a 4096 x 4096 atlas holding up to 2048 glyphs.
    pub fn new() -> (c: Self)
        ensures
            cache_wf(c@),
            c@.atlas_width == 4096,
            c@.atlas_height == 4096,
            c@.max_size == 2048,
            c@.entries == Map::<u32, GlyphInfo>::empty(),
            c@.lru == Seq::<GlyphKey>::empty(),
            c@.allocator.free == seq![AtlasRect { x: 0, y: 0, width: 4096, height: 4096 }],
    {
        GlyphCache::with_max_size(2048)
    }

    /// An empty cache for a 4096 x 4096 atlas holding up to `max` glyphs.
    pub fn with_max_size(max: usize) -> (c: Self)
        ensures
            cache_wf(c@),
            c@.atlas_width == 4096,
            c@.atlas_height == 4096,
            c@.max_size == max,
            c@.entries == Map::<u32, GlyphInfo>::empty(),
            c@.lru == Seq::<GlyphKey>::empty(),
            c@.allocator.free == seq![AtlasRect { x: 0, y: 0, width: 4096, height: 4096 }],
    {
        broadcast use vstd::std_specs::hash::group_hash_axioms;
        GlyphCache {
            atlas_width: 4096,
            atlas_height: 4096,
            cache: HashMap::new(),
            lru: VecDeque::new(),
            allocator: GuillotineAllocator::new(4096, 4096),
            max_cache_size: max,
        }
    }

    /// Look a glyph up; a hit makes it the most recently used.
    pub fn lookup(&mut self, key: GlyphKey) -> (r: Option<GlyphInfo>)
        requires
            cache_wf(old(self)@),
        ensures
            cache_wf(final(self)@),
            final(self)@.entries == old(self)@.entries,
            final(self)@.allocator == old(self)@.allocator,
            final(self)@.max_size == old(self)@.max_size,
            final(self)@.atlas_width == old(self)@.atlas_width,
            final(self)@.atlas_height == old(self)@.atlas_height,
            if old(self)@.entries.contains_key(key_code(key)) {
                &&& r == Some(old(self)@.entries[key_code(key)])
                &&& final(self)@.lru == without(old(self)@.lru, key).push(key)
            } else {
                &&& r == None::<GlyphInfo>
                &&& final(self)@.lru == old(self)@.lru
            },
    {
        broadcast use vstd::std_specs::hash::group_hash_axioms;
        let code = code_of(&key);
        let info = match self.cache.get(&code) {
            None => {
                return None;
            },
            Some(info) => *info,
        };
        let ghost old_lru = self.lru@;
        let n = self.lru.len();
        let mut kept: VecDeque<GlyphKey> = VecDeque::new();
        let mut i: usize = 0;
        while i < n
            invariant
                n == old_lru.len(),
                self.lru@ == old_lru,
                i <= n,
                kept@ == without(old_lru.take(i as int), key),
            decreases n - i,
        {
            let k = self.lru[i];
            proof {
                assert(old_lru.take(i + 1).drop_last() =~= old_lru.take(i as int));
                assert(old_lru.take(i + 1).last() == old_lru[i as int]);
            }
            if k != key {
                kept.push_back(k);
            }
            i = i + 1;
        }
        proof {
            assert(old_lru.take(n as int) =~= old_lru);
            assert(old(self)@.entries.contains_key(code));
            let j = choose|j: int| 0 <= j < old_lru.len() && key_code(#[trigger] old_lru[j]) == code;
            lemma_key_code_injective(old_lru[j], key);
            lemma_without_len(old_lru, key, j);
        }
        kept.push_back(key);
        self.lru = kept;
        proof {
            assert(self.lru@.len() <= old(self)@.max_size);
            assert(alloc_wf(self@.allocator));
            let nl = self.lru@;
            assert(nl == self@.lru);
            assert forall|k: u32| #[trigger] self@.entries.contains_key(k) implies exists|i: int|
                0 <= i < self@.lru.len() && key_code(#[trigger] self@.lru[i]) == k by {
                assert(old(self)@.entries.contains_key(k));
                assert(old_lru == old(self)@.lru);
                let j = choose|j: int| 0 <= j < old_lru.len() && key_code(#[trigger] old_lru[j]) == k;
                if old_lru[j] == key {
                    assert(nl[nl.len() - 1] == key);
                } else {
                    lemma_without_keeps(old_lru, key, j);
                    let w = without(old_lru, key);
                    let m = choose|m: int| 0 <= m < w.len() && w[m] == old_lru[j];
                    assert(nl[m] == w[m]);
                }
            }
        }
        Some(info)
    }

    /// Allocate atlas space for a `width` x `height` glyph and cache it as
    /// the most recently used; the least recently used key is evicted when
    /// the queue outgrows the limit (its atlas space is not reclaimed).
    /// `None`, with nothing changed, when the atlas has no room.
    pub fn insert(&mut self, key: GlyphKey, width: u32, height: u32) -> (r: Option<GlyphInfo>)
        requires
            cache_wf(old(self)@),
        ensures
            cache_wf(final(self)@),
            final(self)@.max_size == old(self)@.max_size,
            final(self)@.atlas_width == old(self)@.atlas_width,
            final(self)@.atlas_height == old(self)@.atlas_height,
            match r {
                None => {
                    &&& final(self)@ == old(self)@
                    &&& forall|j: int|
                        0 <= j < old(self)@.allocator.free.len() ==> !fits(
                            #[trigger] old(self)@.allocator.free[j],
                            width,
                            height,
                        )
                },
                Some(info) => {
                    &&& info.bearing_x == 0
                    &&& info.bearing_y == 0
                    &&& info.advance == width
                    &&& final(self)@.allocator.allocated == old(self)@.allocator.allocated.push(
                        info.rect,
                    )
                    &&& info.rect.width == width
                    &&& info.rect.height == height
                    &&& exists|i: int| #[trigger]
                        best_fit(old(self)@.allocator.free, width, height, i) && info.rect.x
                            == old(self)@.allocator.free[i].x && info.rect.y
                            == old(self)@.allocator.free[i].y && final(self)@.allocator.free
                            == split_free(old(self)@.allocator.free, i, width, height)
                    &&& (final(self)@.entries, final(self)@.lru) == inserted(old(self)@, key, info)
                },
            },
    {
        broadcast use vstd::std_specs::hash::group_hash_axioms;
        let rect = match self.allocator.allocate(width, height) {
            None => {
                return None;
            },
            Some(rect) => rect,
        };
        let info = GlyphInfo { rect, bearing_x: 0, bearing_y: 0, advance: width };
        let code = code_of(&key);
        let ghost old_lru = self.lru@;
        let ghost old_entries = self.cache@;
        assert(old_lru == old(self)@.lru);
        assert(old_entries == old(self)@.entries);
        self.cache.insert(code, info);
        self.lru.push_back(key);
        let ghost pushed = self.lru@;
        let ghost added = self.cache@;
        assert(pushed == old_lru.push(key));
        assert(added == old_entries.insert(code, info));
        let ghost evicting = pushed.len() > self.max_cache_size;
        if self.lru.len() > self.max_cache_size {
            let evict = self.lru.pop_front().unwrap();
            let ecode = code_of(&evict);
            let _ = self.cache.remove(&ecode);
            assert(evict == pushed[0]);
            assert(self.lru@ == pushed.drop_first());
            assert(self.cache@ == added.remove(ecode));
        }
        assert(evicting ==> self.lru@ == pushed.drop_first() && self.cache@ == added.remove(
            key_code(pushed[0]),
        ));
        assert(!evicting ==> self.lru@ == pushed && self.cache@ == added);
        proof {
            let nl = self.lru@;
            assert forall|k: u32| #[trigger] self.cache@.contains_key(k) implies exists|i: int|
                0 <= i < nl.len() && key_code(#[trigger] nl[i]) == k by {
                assert(added.contains_key(k));
                if k == code {
                    assert(nl[nl.len() - 1] == key);
                } else {
                    assert(old_entries.contains_key(k));
                    let j = choose|j: int| 0 <= j < old_lru.len() && key_code(#[trigger] old_lru[j]) == k;
                    assert(pushed[j] == old_lru[j]);
                    if evicting {
                        if j == 0 {
                            assert(key_code(pushed[0]) == k);
                            assert(!self.cache@.contains_key(k));
                        } else {
                            assert(nl[j - 1] == pushed[j]);
                            assert(pushed[j] == old_lru[j]);
                        }
                    } else {
                        assert(nl[j] == old_lru[j]);
                    }
                }
            }
        }
        Some(info)
    }

    /// Empty the cache and the atlas.
    pub fn clear(&mut self)
        requires
            cache_wf(old(self)@),
        ensures
            cache_wf(final(self)@),
            final(self)@.entries == Map::<u32, GlyphInfo>::empty(),
            final(self)@.lru == Seq::<GlyphKey>::empty(),
            final(self)@.allocator.free == seq![
                AtlasRect { x: 0, y: 0, width: old(self)@.atlas_width, height: old(self)@.atlas_height },
            ],
            final(self)@.allocator.allocated == Seq::<AtlasRect>::empty(),
            final(self)@.max_size == old(self)@.max_size,
            final(self)@.atlas_width == old(self)@.atlas_width,
            final(self)@.atlas_height == old(self)@.atlas_height,
    {
        broadcast use vstd::std_specs::hash::group_hash_axioms;
        self.cache.clear();
        self.lru.clear();
        self.allocator = GuillotineAllocator::new(self.atlas_width, self.atlas_height);
    }

    /// Atlas (width, height) in pixels.
    pub fn atlas_size(&self) -> (s: (u32, u32))
        ensures
            s == (self@.atlas_width, self@.atlas_height),
    {
        (self.atlas_width, self.atlas_height)
    }

    /// Number of cached glyphs and atlas usage.
    pub fn stats(&self) -> (s: CacheStats)
        ensures
            s.total_glyphs == self@.entries.len(),
            s.free_area == free_area_of(self@.allocator.free),
            s.atlas_area == self@.atlas_width as int * self@.atlas_height as int,
    {
        broadcast use vstd::std_specs::hash::group_hash_axioms;
        proof {
            assert(self.atlas_width as int * self.atlas_height as int <= 0xffff_ffff * 0xffff_ffff)
                by (nonlinear_arith)
                requires
                    self.atlas_width <= 0xffff_ffff,
                    self.atlas_height <= 0xffff_ffff,
            ;
            assert(0 <= self.atlas_width as int * self.atlas_height as int) by (nonlinear_arith);
        }
        CacheStats {
            total_glyphs: self.cache.len(),
            free_area: self.allocator.free_area(),
            atlas_area: self.atlas_width as u64 * self.atlas_height as u64,
        }
    }
}

impl Default for GlyphCache {
    fn default() -> (c: Self)
        ensures
            cache_wf(c@),
            c@.max_size == 2048,
            c@.entries == Map::<u32, GlyphInfo>::empty(),
    {
        GlyphCache::new()
    }
}

} // verus!
