//! The overlay bridge: the textures that the UI layer keeps on the GPU, and
//! the order in which one frame's UI output reaches the GPU.

use crate::surface::Extent;
use vstd::prelude::*;

verus! {

/// Names a texture that UI draw primitives refer to.
#[derive(Clone, Copy, Debug, PartialEq, Eq, Hash, Structural)]
pub enum TextureId {
    /// A texture that the UI layer allocates and frees itself.
    Managed(u64),
    /// A texture that the host registered.
    User(u64),
}

/// Largest side of a texture that the UI layer may allocate.
pub const MAX_TEXTURE_SIDE: u32 = 2048;

/// How the overlay's renderer is set up for a surface.
#[derive(Clone, Copy, Debug, PartialEq, Eq)]
pub struct OverlaySetup {
    /// Pixel format of the images that the overlay is drawn onto.
    pub format: wgpu::TextureFormat,
    /// Samples per pixel of those images.
    pub sample_count: u32,
    /// Whether colours are dithered against banding.
    pub dithering: bool,
    /// Largest side of a texture that the UI layer may allocate.
    pub max_texture_side: u32,
}

impl OverlaySetup {
    /// The setup for a target format: one sample per pixel, dithered.
    pub open spec fn for_format(format: wgpu::TextureFormat) -> OverlaySetup {
        OverlaySetup {
            format,
            sample_count: 1,
            dithering: true,
            max_texture_side: MAX_TEXTURE_SIDE,
        }
    }

    pub fn new(format: wgpu::TextureFormat) -> (setup: OverlaySetup)
        ensures
            setup == OverlaySetup::for_format(format),
    {
        OverlaySetup {
            format,
            sample_count: 1,
            dithering: true,
            max_texture_side: MAX_TEXTURE_SIDE,
        }
    }
}

/// The texture changes that one UI pass asks for.
#[derive(Clone, Debug, PartialEq, Eq)]
pub struct TexturesDelta {
    /// Textures to create or update before this frame's primitives are drawn.
    pub set: Vec<TextureId>,
    /// Textures to release once this frame's primitives are drawn.
    pub free: Vec<TextureId>,
}

/// The set of textures that the render side currently holds.
#[derive(Debug)]
pub struct TextureCache {
    ids: Vec<TextureId>,
}

impl View for TextureCache {
    type V = Set<TextureId>;

    closed spec fn view(&self) -> Set<TextureId> {
        self.ids@.to_set()
    }
}

impl Clone for TextureCache {
    fn clone(&self) -> (cache: TextureCache)
        ensures
            cache@ == self@,
    {
        proof {
            use_type_invariant(self);
        }
        let n: usize = self.ids.len();
        let mut ids: Vec<TextureId> = Vec::new();
        let mut i: usize = 0;
        while i < n
            invariant
                n == self.ids@.len(),
                i <= n,
                ids@ == self.ids@.take(i as int),
            decreases n - i,
        {
            ids.push(self.ids[i]);
            assert(ids@ =~= self.ids@.take(i + 1));
            i = i + 1;
        }
        assert(ids@ =~= self.ids@);
        TextureCache { ids }
    }
}

impl TextureCache {
    #[verifier::type_invariant]
    spec fn distinct(self) -> bool {
        self.ids@.no_duplicates()
    }

    /// A cache that holds no texture.
    pub fn new() -> (cache: TextureCache)
        ensures
            cache@ == Set::<TextureId>::empty(),
    {
        let cache = TextureCache { ids: Vec::new() };
        assert(cache.ids@.to_set() =~= Set::<TextureId>::empty());
        cache
    }

    fn position(&self, id: TextureId) -> (r: Option<usize>)
        ensures
            r is None <==> !self@.contains(id),
            r matches Some(i) ==> i < self.ids@.len() && self.ids@[i as int] == id,
    {
        let n: usize = self.ids.len();
        let mut i: usize = 0;
        while i < n
            invariant
                n == self.ids@.len(),
                i <= n,
                forall|j: int| 0 <= j < i ==> self.ids@[j] != id,
            decreases n - i,
        {
            if self.ids[i] == id {
                assert(self.ids@.contains(id));
                return Some(i);
            }
            i = i + 1;
        }
        assert(!self.ids@.contains(id));
        None
    }

    /// Whether the texture can be resolved by a draw primitive.
    pub fn contains(&self, id: TextureId) -> (b: bool)
        ensures
            b == self@.contains(id),
    {
        self.position(id).is_some()
    }

    /// Number of textures held.
    pub fn len(&self) -> (n: usize)
        ensures
            n == self@.len(),
            self@.finite(),
    {
        proof {
            use_type_invariant(self);
            self.ids@.unique_seq_to_set();
        }
        self.ids.len()
    }

    /// Records that the texture was created or updated.
    pub fn insert(&mut self, id: TextureId)
        ensures
            final(self)@ == old(self)@.insert(id),
    {
        proof {
            use_type_invariant(&*self);
        }
        if self.position(id).is_none() {
            let ghost before = self.ids@;
            let mut ids: Vec<TextureId> = Vec::new();
            std::mem::swap(&mut ids, &mut self.ids);
            ids.push(id);
            self.ids = ids;
            assert(self.ids@.to_set() =~= before.to_set().insert(id)) by {
                assert forall|t: TextureId| self.ids@.contains(t) <==> before.contains(t) || t
                    == id by {
                    if before.contains(t) {
                        let k = choose|k: int| 0 <= k < before.len() && before[k] == t;
                        assert(self.ids@[k] == t);
                    }
                    if t == id {
                        assert(self.ids@[before.len() as int] == t);
                    }
                }
            }
        } else {
            assert(self.ids@.to_set().insert(id) =~= self.ids@.to_set());
        }
    }

    /// Records that the texture was released. Releasing a texture that is not
    /// held changes nothing.
    pub fn remove(&mut self, id: TextureId)
        ensures
            final(self)@ == old(self)@.remove(id),
    {
        proof {
            use_type_invariant(&*self);
        }
        match self.position(id) {
            Some(i) => {
                let ghost before = self.ids@;
                let mut ids: Vec<TextureId> = Vec::new();
                std::mem::swap(&mut ids, &mut self.ids);
                ids.remove(i);
                proof {
                    let after = ids@;
                    assert(after == before.remove(i as int));
                    assert forall|a: int, b: int|
                        0 <= a < after.len() && 0 <= b < after.len() && a != b implies after[a]
                        != after[b] by {
                        let a0 = if a < i { a } else { a + 1 };
                        let b0 = if b < i { b } else { b + 1 };
                        assert(after[a] == before[a0]);
                        assert(after[b] == before[b0]);
                    }
                }
                self.ids = ids;
                assert(self.ids@.to_set() =~= before.to_set().remove(id)) by {
                    assert forall|t: TextureId|
                        self.ids@.contains(t) <==> before.contains(t) && t != id by {
                        if self.ids@.contains(t) {
                            let k = choose|k: int| 0 <= k < self.ids@.len() && self.ids@[k] == t;
                            let k0 = if k < i { k } else { k + 1 };
                            assert(before[k0] == t);
                        }
                        if before.contains(t) && t != id {
                            let k = choose|k: int| 0 <= k < before.len() && before[k] == t;
                            let k1 = if k < i { k } else { k - 1 };
                            assert(self.ids@[k1] == t);
                        }
                    }
                }
            },
            None => {
                assert(self.ids@.to_set().remove(id) =~= self.ids@.to_set());
            },
        }
    }
}

/// One render-side action of a frame's overlay pass.
#[derive(Clone, Copy, Debug, PartialEq, Eq, Structural)]
pub enum OverlayStep {
    /// Create or update the texture `id` from entry `index` of the delta's
    /// `set` list.
    UpdateTexture { index: usize, id: TextureId },
    /// Upload the mesh and uniform buffers of the frame's draw primitives,
    /// laid out for a screen of the given size.
    UploadBuffers { screen: Extent },
    /// Open a render pass over the frame's target that keeps what the scene
    /// pass left there and stores the result, and issue the draw primitives.
    Draw { screen: Extent },
    /// Release the texture `id`.
    FreeTexture { id: TextureId },
}

impl OverlayStep {
    /// The textures held once the step is done, given those held before it.
    pub open spec fn apply(self, held: Set<TextureId>) -> Set<TextureId> {
        match self {
            OverlayStep::UpdateTexture { id, .. } => held.insert(id),
            OverlayStep::FreeTexture { id } => held.remove(id),
            _ => held,
        }
    }
}

/// The textures held once all of `steps` are done in order.
pub open spec fn held_after(held: Set<TextureId>, steps: Seq<OverlayStep>) -> Set<TextureId>
    decreases steps.len(),
{
    if steps.len() == 0 {
        held
    } else {
        steps.last().apply(held_after(held, steps.drop_last()))
    }
}

/// One update step for each entry of `set`, in order.
pub open spec fn update_steps(set: Seq<TextureId>) -> Seq<OverlayStep> {
    Seq::new(set.len(), |k: int| OverlayStep::UpdateTexture { index: k as usize, id: set[k] })
}

/// One release step for each entry of `free`, in order.
pub open spec fn free_steps(free: Seq<TextureId>) -> Seq<OverlayStep> {
    Seq::new(free.len(), |k: int| OverlayStep::FreeTexture { id: free[k] })
}

/// The overlay pass of one frame: texture updates, then buffer upload, then
/// the draw, then texture releases.
pub open spec fn overlay_plan(set: Seq<TextureId>, free: Seq<TextureId>, screen: Extent) -> Seq<
    OverlayStep,
> {
    update_steps(set) + seq![OverlayStep::UploadBuffers { screen }, OverlayStep::Draw { screen }]
        + free_steps(free)
}

/// Where the draw stands in the overlay pass of a delta with this `set` list.
pub open spec fn draw_position(set: Seq<TextureId>) -> int {
    set.len() as int + 1
}

/// Lays out the overlay pass for one frame's delta and records its effect on
/// the cache.
pub fn plan_overlay(cache: &mut TextureCache, delta: &TexturesDelta, screen: Extent) -> (steps:
    Vec<OverlayStep>)
    ensures
        steps@ == overlay_plan(delta.set@, delta.free@, screen),
        final(cache)@ == held_after(old(cache)@, steps@),
{
    let ghost plan = overlay_plan(delta.set@, delta.free@, screen);
    let ghost start = cache@;
    let mut steps: Vec<OverlayStep> = Vec::new();
    let n: usize = delta.set.len();
    let m: usize = delta.free.len();
    let mut i: usize = 0;
    while i < n
        invariant
            n == delta.set@.len(),
            i <= n,
            steps@ == update_steps(delta.set@).take(i as int),
            cache@ == held_after(start, steps@),
        decreases n - i,
    {
        let id = delta.set[i];
        let ghost before = steps@;
        cache.insert(id);
        steps.push(OverlayStep::UpdateTexture { index: i, id });
        assert(steps@.drop_last() == before);
        assert(steps@ =~= update_steps(delta.set@).take(i + 1));
        i = i + 1;
    }
    let ghost updates = steps@;
    assert(updates =~= update_steps(delta.set@));
    steps.push(OverlayStep::UploadBuffers { screen });
    assert(steps@.drop_last() == updates);
    assert(cache@ == held_after(start, steps@));
    let ghost uploaded = steps@;
    steps.push(OverlayStep::Draw { screen });
    assert(steps@.drop_last() == uploaded);
    assert(cache@ == held_after(start, steps@));
    let ghost drawn = steps@;
    let mut j: usize = 0;
    while j < m
        invariant
            m == delta.free@.len(),
            j <= m,
            steps@ == drawn + free_steps(delta.free@).take(j as int),
            cache@ == held_after(start, steps@),
        decreases m - j,
    {
        let id = delta.free[j];
        let ghost before = steps@;
        cache.remove(id);
        steps.push(OverlayStep::FreeTexture { id });
        assert(steps@.drop_last() == before);
        assert(steps@ =~= drawn + free_steps(delta.free@).take(j + 1));
        j = j + 1;
    }
    assert(steps@ =~= plan);
    steps
}

proof fn lemma_held_after_concat(held: Set<TextureId>, a: Seq<OverlayStep>, b: Seq<OverlayStep>)
    ensures
        held_after(held, a + b) == held_after(held_after(held, a), b),
    decreases b.len(),
{
    if b.len() == 0 {
        assert(a + b =~= a);
    } else {
        lemma_held_after_concat(held, a, b.drop_last());
        assert((a + b).drop_last() =~= a + b.drop_last());
        assert((a + b).last() == b.last());
    }
}

proof fn lemma_held_after_updates(held: Set<TextureId>, set: Seq<TextureId>)
    ensures
        held_after(held, update_steps(set)) == held.union(set.to_set()),
    decreases set.len(),
{
    if set.len() == 0 {
        assert(held.union(set.to_set()) =~= held);
    } else {
        let front = set.drop_last();
        lemma_held_after_updates(held, front);
        assert(update_steps(set).drop_last() =~= update_steps(front));
        assert(update_steps(set).last().apply(held.union(front.to_set())) =~= held.union(
            set.to_set(),
        )) by {
            assert forall|t: TextureId| set.contains(t) <==> front.contains(t) || t
                == set.last() by {
                if front.contains(t) {
                    let k = choose|k: int| 0 <= k < front.len() && front[k] == t;
                    assert(set[k] == t);
                }
                if set.contains(t) && t != set.last() {
                    let k = choose|k: int| 0 <= k < set.len() && set[k] == t;
                    assert(front[k] == t);
                }
            }
        }
    }
}

proof fn lemma_held_after_frees(held: Set<TextureId>, free: Seq<TextureId>)
    ensures
        held_after(held, free_steps(free)) == held.difference(free.to_set()),
    decreases free.len(),
{
    if free.len() == 0 {
        assert(held.difference(free.to_set()) =~= held);
    } else {
        let front = free.drop_last();
        lemma_held_after_frees(held, front);
        assert(free_steps(free).drop_last() =~= free_steps(front));
        assert(free_steps(free).last().apply(held.difference(front.to_set()))
            =~= held.difference(free.to_set())) by {
            assert forall|t: TextureId| free.contains(t) <==> front.contains(t) || t
                == free.last() by {
                if front.contains(t) {
                    let k = choose|k: int| 0 <= k < front.len() && front[k] == t;
                    assert(free[k] == t);
                }
                if free.contains(t) && t != free.last() {
                    let k = choose|k: int| 0 <= k < free.len() && free[k] == t;
                    assert(front[k] == t);
                }
            }
        }
    }
}

/// The order of an overlay pass. Every texture update stands before the buffer
/// upload, which stands right before the draw, and every release stands after
/// the draw. So when the draw is issued the cache holds each texture that the
/// delta sets and has lost none that it held before the pass; when the pass is
/// over it holds none that the delta frees.
pub proof fn lemma_overlay_order(
    held: Set<TextureId>,
    set: Seq<TextureId>,
    free: Seq<TextureId>,
    screen: Extent,
)
    ensures
        ({
            let plan = overlay_plan(set, free, screen);
            let d = draw_position(set);
            &&& plan.len() == set.len() + 2 + free.len()
            &&& plan[d - 1] == OverlayStep::UploadBuffers { screen }
            &&& plan[d] == OverlayStep::Draw { screen }
            &&& forall|k: int|
                0 <= k < plan.len() ==> (#[trigger] plan[k] is UpdateTexture <==> k < d - 1)
            &&& forall|k: int| 0 <= k < plan.len() ==> (#[trigger] plan[k] is FreeTexture <==> k > d)
            &&& held_after(held, plan.take(d)) == held.union(set.to_set())
            &&& held_after(held, plan.take(d + 1)) == held.union(set.to_set())
            &&& held_after(held, plan) == held.union(set.to_set()).difference(free.to_set())
            &&& forall|id: TextureId|
                set.contains(id) ==> held_after(held, plan.take(d)).contains(id)
            &&& forall|id: TextureId|
                held.contains(id) ==> held_after(held, plan.take(d + 1)).contains(id)
            &&& forall|id: TextureId| free.contains(id) ==> !held_after(held, plan).contains(id)
        }),
{
    let plan = overlay_plan(set, free, screen);
    let d = draw_position(set);
    let upload = seq![OverlayStep::UploadBuffers { screen }];
    let draw = seq![OverlayStep::Draw { screen }];
    let after_updates = held.union(set.to_set());
    lemma_held_after_updates(held, set);
    assert(plan.take(d) =~= update_steps(set) + upload);
    assert(plan.take(d + 1) =~= update_steps(set) + upload + draw);
    assert(plan =~= update_steps(set) + upload + draw + free_steps(free));
    lemma_held_after_concat(held, update_steps(set), upload);
    assert(held_after(after_updates, upload) == after_updates) by {
        reveal_with_fuel(held_after, 2);
        assert(upload.drop_last() =~= Seq::<OverlayStep>::empty());
    }
    lemma_held_after_concat(held, update_steps(set) + upload, draw);
    assert(held_after(after_updates, draw) == after_updates) by {
        reveal_with_fuel(held_after, 2);
        assert(draw.drop_last() =~= Seq::<OverlayStep>::empty());
    }
    lemma_held_after_concat(held, update_steps(set) + upload + draw, free_steps(free));
    lemma_held_after_frees(after_updates, free);
}

} // verus!
