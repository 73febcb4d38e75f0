use vstd::prelude::*;

use crate::system::{EguiContext, EguiStage, StageError};

verus! {

/// A host texture, by the id the host gave it.
#[derive(Debug, Clone, Copy, PartialEq, Eq, Structural)]
pub struct TextureHandle {
    pub id: u64,
}

/// A binding slot of the host's texture set.
#[derive(Debug, Clone, Copy, PartialEq, Eq, Structural)]
pub struct TextureId {
    pub slot: u32,
}

/// The texture a mesh is drawn with: the GUI's own atlas, or a texture that
/// a user registered under a numeric id.
#[derive(Debug, Clone, Copy, PartialEq, Eq, Structural)]
pub enum TextureRef {
    Egui,
    User(u64),
}

/// A triangle mesh: every three indices into `vertices` make a triangle.
#[derive(Debug)]
pub struct Mesh<V> {
    pub texture_id: TextureRef,
    pub indices: Vec<u32>,
    pub vertices: Vec<V>,
}

/// Every index of the mesh names one of its vertices.
pub open spec fn mesh_valid<V>(m: Mesh<V>) -> bool {
    forall|i: int| 0 <= i < m.indices@.len() ==> (m.indices@[i] as int) < m.vertices@.len()
}

/// The vertices of a mesh in the order its indices name them.
pub open spec fn gather<V>(vertices: Seq<V>, indices: Seq<u32>) -> Seq<V> {
    Seq::new(indices.len(), |i: int| vertices[indices[i] as int])
}

// ---------------------------------------------------------------------------
// Batches.
// ---------------------------------------------------------------------------

/// One draw: the vertices `start..end` of a batch, with one texture bound.
#[derive(Debug, Clone, Copy, PartialEq, Eq, Structural)]
pub struct BatchEntry {
    pub texture: TextureId,
    pub start: usize,
    pub end: usize,
}

/// Vertices in paint order, cut into runs that share a texture.
#[derive(Debug)]
pub struct OrderedOneLevelBatch<V> {
    pub data: Vec<V>,
    pub entries: Vec<BatchEntry>,
}

/// A run of vertices drawn with one texture.
pub type Run<V> = (TextureId, Seq<V>);

/// Runs after appending `d` drawn with `key`: nothing for no vertices; the
/// last run grows where it has the same texture; otherwise a new run.
pub open spec fn push_run<V>(runs: Seq<Run<V>>, key: TextureId, d: Seq<V>) -> Seq<Run<V>> {
    if d.len() == 0 {
        runs
    } else if runs.len() > 0 && runs.last().0 == key {
        runs.update(runs.len() - 1, (key, runs.last().1 + d))
    } else {
        runs.push((key, d))
    }
}

/// All vertices of the runs, in order.
pub open spec fn flatten<V>(runs: Seq<Run<V>>) -> Seq<V>
    decreases runs.len(),
{
    if runs.len() == 0 {
        Seq::empty()
    } else {
        flatten(runs.drop_last()) + runs.last().1
    }
}

/// No run is empty and no two neighbouring runs share a texture.
pub open spec fn runs_wf<V>(runs: Seq<Run<V>>) -> bool {
    &&& forall|i: int| 0 <= i < runs.len() ==> runs[i].1.len() > 0
    &&& forall|i: int| 0 < i < runs.len() ==> runs[i - 1].0 != #[trigger] runs[i].0
}

impl<V> OrderedOneLevelBatch<V> {
    /// The entries cover the data from the start, one after the other, none
    /// empty, and neighbours differ in texture.
    pub open spec fn wf(&self) -> bool {
        &&& self.entries@.len() == 0 ==> self.data@.len() == 0
        &&& self.entries@.len() > 0 ==> self.entries@[0].start == 0
            && self.entries@.last().end == self.data@.len()
        &&& forall|i: int|
            0 <= i < self.entries@.len() ==> #[trigger] self.entries@[i].start
                < self.entries@[i].end
        &&& forall|i: int|
            0 < i < self.entries@.len() ==> #[trigger] self.entries@[i].start == self.entries@[i
                - 1].end
        &&& forall|i: int|
            0 < i < self.entries@.len() ==> #[trigger] self.entries@[i].texture
                != self.entries@[i - 1].texture
    }

    /// The runs: each entry's texture with its vertices.
    pub open spec fn runs(&self) -> Seq<Run<V>> {
        Seq::new(
            self.entries@.len(),
            |i: int|
                (
                    self.entries@[i].texture,
                    self.data@.subrange(self.entries@[i].start as int, self.entries@[i].end as int),
                ),
        )
    }

    proof fn lemma_entries_in_data(&self)
        requires
            self.wf(),
        ensures
            forall|i: int|
                0 <= i < self.entries@.len() ==> self.entries@[i].end <= self.data@.len(),
            forall|i: int, j: int|
                0 <= i <= j < self.entries@.len() ==> self.entries@[i].end
                    <= self.entries@[j].end,
    {
        assert forall|i: int, j: int|
            0 <= i <= j < self.entries@.len() implies self.entries@[i].end
            <= self.entries@[j].end by {
            self.lemma_ends_ordered(i, j);
        }
        assert forall|i: int| 0 <= i < self.entries@.len() implies self.entries@[i].end
            <= self.data@.len() by {
            self.lemma_ends_ordered(i, self.entries@.len() - 1);
        }
    }

    proof fn lemma_ends_ordered(&self, i: int, j: int)
        requires
            self.wf(),
            0 <= i <= j < self.entries@.len(),
        ensures
            self.entries@[i].end <= self.entries@[j].end,
        decreases j - i,
    {
        if i < j {
            self.lemma_ends_ordered(i, j - 1);
            assert(self.entries@[j].start == self.entries@[j - 1].end);
            assert(self.entries@[j].start < self.entries@[j].end);
        }
    }

    /// An empty batch.
    pub fn new() -> (r: Self)
        ensures
            r.wf(),
            r.runs().len() == 0,
    {
        OrderedOneLevelBatch { data: Vec::new(), entries: Vec::new() }
    }

    /// Empties the batch.
    pub fn swap_clear(&mut self)
        ensures
            final(self).wf(),
            final(self).runs().len() == 0,
    {
        self.data = Vec::new();
        self.entries = Vec::new();
    }

    /// The number of vertices in the batch.
    pub fn count(&self) -> (r: usize)
        ensures
            r == self.data@.len(),
    {
        self.data.len()
    }

    /// Appends the vertices of `vertices` that `indices` name, in order, to be
    /// drawn with `key`.
    pub fn insert(&mut self, key: TextureId, vertices: &Vec<V>, indices: &Vec<u32>)
        where
            V: Copy,
        requires
            old(self).wf(),
            forall|i: int|
                0 <= i < indices@.len() ==> (indices@[i] as int) < vertices@.len(),
            old(self).data@.len() + indices@.len() <= usize::MAX,
        ensures
            final(self).wf(),
            final(self).runs() == push_run(old(self).runs(), key, gather(vertices@, indices@)),
            final(self).data@ == old(self).data@ + gather(vertices@, indices@),
    {
        let ghost old_data = self.data@;
        let ghost d = gather(vertices@, indices@);
        proof {
            self.lemma_entries_in_data();
        }
        let start = self.data.len();
        let mut j: usize = 0;
        while j < indices.len()
            invariant
                j <= indices@.len(),
                start == old_data.len(),
                self.entries == old(self).entries,
                self.data@ == old_data + d.take(j as int),
                d == gather(vertices@, indices@),
                forall|i: int|
                    0 <= i < indices@.len() ==> (indices@[i] as int) < vertices@.len(),
                old_data.len() + indices@.len() <= usize::MAX,
            decreases indices@.len() - j,
        {
            let v = vertices[indices[j] as usize];
            self.data.push(v);
            proof {
                assert(d.take(j + 1) =~= d.take(j as int).push(v));
            }
            j = j + 1;
        }
        proof {
            assert(d.take(j as int) =~= d);
        }
        let end = self.data.len();
        if end == start {
            proof {
                assert(d.len() == 0);
                assert(self.data@ =~= old_data);
            }
            return;
        }
        let n = self.entries.len();
        if n > 0 && self.entries[n - 1].texture == key {
            let last = self.entries[n - 1];
            self.entries.set(n - 1, BatchEntry { texture: key, start: last.start, end });
            proof {
                let o = old(self).runs();
                let r = self.runs();
                let p = push_run(o, key, d);
                assert(p == o.update(o.len() - 1, (key, o.last().1 + d)));
                assert forall|i: int| 0 <= i < r.len() implies r[i] == p[i] by {
                    if i < n - 1 {
                        assert(self.data@.subrange(
                            self.entries@[i].start as int,
                            self.entries@[i].end as int,
                        ) =~= old_data.subrange(
                            self.entries@[i].start as int,
                            self.entries@[i].end as int,
                        ));
                    } else {
                        assert(self.data@.subrange(last.start as int, end as int) =~= old_data.subrange(
                            last.start as int,
                            start as int,
                        ) + d);
                    }
                }
                assert(r =~= p);
            }
        } else {
            self.entries.push(BatchEntry { texture: key, start, end });
            proof {
                let o = old(self).runs();
                let r = self.runs();
                let p = push_run(o, key, d);
                assert(p == o.push((key, d)));
                assert forall|i: int| 0 <= i < r.len() implies r[i] == p[i] by {
                    if i < n {
                        assert(self.entries@[i] == old(self).entries@[i]);
                        assert(self.data@.subrange(
                            self.entries@[i].start as int,
                            self.entries@[i].end as int,
                        ) =~= old_data.subrange(
                            self.entries@[i].start as int,
                            self.entries@[i].end as int,
                        ));
                    } else {
                        assert(self.data@.subrange(start as int, end as int) =~= d);
                    }
                }
                assert(r =~= p);
            }
        }
    }
}


/// Appending vertices to runs keeps the vertices that were there, in their
/// order, and puts the new ones after them.
pub proof fn lemma_push_run_keeps_order<V>(runs: Seq<Run<V>>, key: TextureId, d: Seq<V>)
    ensures
        flatten(push_run(runs, key, d)) == flatten(runs) + d,
{
    if d.len() == 0 {
        assert(flatten(runs) + d =~= flatten(runs));
    } else if runs.len() > 0 && runs.last().0 == key {
        let p = push_run(runs, key, d);
        assert(p.drop_last() =~= runs.drop_last());
        assert(flatten(runs.drop_last()) + (runs.last().1 + d) =~= flatten(runs.drop_last())
            + runs.last().1 + d);
    } else {
        let p = push_run(runs, key, d);
        assert(p.drop_last() =~= runs);
    }
}

/// Appending a non-empty run starts a new run exactly where the texture
/// differs from the last run's; runs are never merged across another
/// texture, and the well-formedness of runs is kept.
pub proof fn lemma_push_run_new_range<V>(runs: Seq<Run<V>>, key: TextureId, d: Seq<V>)
    requires
        d.len() > 0,
    ensures
        push_run(runs, key, d).len() == runs.len() + (if runs.len() > 0 && runs.last().0
            == key {
            0int
        } else {
            1int
        }),
        push_run(runs, key, d).last().0 == key,
        runs_wf(runs) ==> runs_wf(push_run(runs, key, d)),
{
}

/// Meshes drawn with textures `k1`, `k2`, `k1` in turn give three runs when
/// the two textures differ: the two runs of `k1` stay apart.
pub proof fn lemma_alternating_textures_stay_apart<V>(
    k1: TextureId,
    k2: TextureId,
    d1: Seq<V>,
    d2: Seq<V>,
    d3: Seq<V>,
)
    requires
        k1 != k2,
        d1.len() > 0,
        d2.len() > 0,
        d3.len() > 0,
    ensures
        push_run(push_run(push_run(Seq::<Run<V>>::empty(), k1, d1), k2, d2), k1, d3).len() == 3,
{
    lemma_push_run_new_range(Seq::<Run<V>>::empty(), k1, d1);
    lemma_push_run_new_range(push_run(Seq::<Run<V>>::empty(), k1, d1), k2, d2);
    lemma_push_run_new_range(push_run(push_run(Seq::<Run<V>>::empty(), k1, d1), k2, d2), k1, d3);
}

impl<V> OrderedOneLevelBatch<V> {
    /// A well-formed batch holds well-formed runs, and its data is their
    /// vertices in order.
    pub proof fn lemma_runs_wf(&self)
        requires
            self.wf(),
        ensures
            runs_wf(self.runs()),
            flatten(self.runs()) == self.data@,
    {
        self.lemma_entries_in_data();
        self.lemma_flatten_prefix(self.entries@.len() as int);
        assert(self.runs().take(self.entries@.len() as int) =~= self.runs());
        if self.entries@.len() > 0 {
            assert(self.data@.subrange(0, self.data@.len() as int) =~= self.data@);
        } else {
            assert(self.data@ =~= Seq::<V>::empty());
        }
    }

    proof fn lemma_flatten_prefix(&self, n: int)
        requires
            self.wf(),
            0 <= n <= self.entries@.len(),
        ensures
            n == 0 ==> flatten(self.runs().take(n)) == Seq::<V>::empty(),
            n > 0 ==> flatten(self.runs().take(n)) == self.data@.subrange(
                0,
                self.entries@[n - 1].end as int,
            ),
        decreases n,
    {
        self.lemma_entries_in_data();
        if n > 0 {
            self.lemma_flatten_prefix(n - 1);
            let t = self.runs().take(n);
            assert(t.drop_last() =~= self.runs().take(n - 1));
            let e = self.entries@[n - 1];
            if n == 1 {
                assert(flatten(t) =~= Seq::<V>::empty() + self.data@.subrange(
                    e.start as int,
                    e.end as int,
                ));
                assert(self.data@.subrange(0, e.end as int) =~= Seq::<V>::empty()
                    + self.data@.subrange(e.start as int, e.end as int));
            } else {
                let prev = self.entries@[n - 2];
                assert(e.start == prev.end);
                assert(self.data@.subrange(0, e.end as int) =~= self.data@.subrange(
                    0,
                    prev.end as int,
                ) + self.data@.subrange(e.start as int, e.end as int));
            }
        }
    }
}

// ---------------------------------------------------------------------------
// Building the batch of a frame.
// ---------------------------------------------------------------------------

/// The runs of a frame's meshes: each mesh whose texture has a slot appends
/// its vertices, in index order, drawn with that slot; the others are left
/// out.
pub open spec fn batch_of<V>(meshes: Seq<Mesh<V>>, slots: Seq<Option<TextureId>>) -> Seq<Run<V>>
    decreases meshes.len(),
{
    if meshes.len() == 0 {
        Seq::empty()
    } else {
        let before = batch_of(meshes.drop_last(), slots.take(meshes.len() - 1));
        match slots[meshes.len() - 1] {
            Some(k) => push_run(
                before,
                k,
                gather(meshes.last().vertices@, meshes.last().indices@),
            ),
            None => before,
        }
    }
}

/// The number of indices of all meshes.
pub open spec fn total_indices<V>(meshes: Seq<Mesh<V>>) -> nat
    decreases meshes.len(),
{
    if meshes.len() == 0 {
        0
    } else {
        total_indices(meshes.drop_last()) + meshes.last().indices@.len()
    }
}

proof fn lemma_total_indices_prefix<V>(meshes: Seq<Mesh<V>>, n: int)
    requires
        0 <= n <= meshes.len(),
    ensures
        total_indices(meshes.take(n)) <= total_indices(meshes),
    decreases meshes.len() - n,
{
    if n < meshes.len() {
        lemma_total_indices_prefix(meshes, n + 1);
        assert(meshes.take(n + 1).drop_last() =~= meshes.take(n));
    } else {
        assert(meshes.take(n) =~= meshes);
    }
}

/// The RGBA bytes of a coverage image: each coverage byte becomes opaque
/// white's channels with the coverage as alpha.
pub open spec fn rgba_of(coverage: Seq<u8>) -> Seq<u8> {
    Seq::new(4 * coverage.len(), |i: int| if i % 4 == 3 { coverage[i / 4] } else { 255u8 })
}

/// The `i`-th pixel of an RGBA image, as (red, green, blue, alpha).
pub open spec fn pixel_at(rgba: Seq<u8>, i: int) -> (u8, u8, u8, u8) {
    (rgba[4 * i], rgba[4 * i + 1], rgba[4 * i + 2], rgba[4 * i + 3])
}

/// Each pixel of the converted image is opaque white's channels with the
/// coverage as alpha, so the alpha channel gives back the coverage.
pub proof fn lemma_alpha_round_trip(coverage: Seq<u8>)
    ensures
        rgba_of(coverage).len() == 4 * coverage.len(),
        forall|i: int|
            0 <= i < coverage.len() ==> #[trigger] pixel_at(rgba_of(coverage), i) == (
                255u8,
                255u8,
                255u8,
                coverage[i],
            ),
        Seq::new(coverage.len(), |i: int| pixel_at(rgba_of(coverage), i).3) == coverage,
{
    assert forall|i: int| 0 <= i < coverage.len() implies #[trigger] pixel_at(
        rgba_of(coverage),
        i,
    ) == (255u8, 255u8, 255u8, coverage[i]) by {
        assert((4 * i) % 4 == 0 && (4 * i + 1) % 4 == 1 && (4 * i + 2) % 4 == 2 && (4 * i + 3) % 4
            == 3 && (4 * i + 3) / 4 == i) by (nonlinear_arith)
            requires
                0 <= i,
        ;
    }
    assert(Seq::new(coverage.len(), |i: int| pixel_at(rgba_of(coverage), i).3) =~= coverage);
}

/// An image ready for upload: 8-bit RGBA, row by row.
#[derive(Debug)]
pub struct TextureData {
    pub width: u32,
    pub height: u32,
    pub pixels: Vec<u8>,
}

/// Converts a coverage image of the GUI's atlas to RGBA for upload.
pub fn convert_into_rgba_texture(width: u32, height: u32, coverage: &Vec<u8>) -> (r: TextureData)
    requires
        4 * coverage@.len() <= usize::MAX,
    ensures
        r.width == width,
        r.height == height,
        r.pixels@ == rgba_of(coverage@),
{
    let mut pixels: Vec<u8> = Vec::new();
    let mut i: usize = 0;
    while i < coverage.len()
        invariant
            i <= coverage@.len(),
            4 * coverage@.len() <= usize::MAX,
            pixels@ == rgba_of(coverage@.take(i as int)),
        decreases coverage@.len() - i,
    {
        let a = coverage[i];
        pixels.push(255);
        pixels.push(255);
        pixels.push(255);
        pixels.push(a);
        proof {
            let c = coverage@.take(i + 1);
            assert(c.len() == i + 1);
            assert forall|k: int| 0 <= k < 4 * (i + 1) implies pixels@[k] == rgba_of(c)[k] by {
                if k < 4 * i {
                    assert(rgba_of(coverage@.take(i as int))[k] == rgba_of(c)[k]) by {
                        assert(0 <= k / 4 < i) by (nonlinear_arith)
                            requires
                                0 <= k < 4 * i,
                        ;
                    }
                } else {
                    assert(k / 4 == i) by (nonlinear_arith)
                        requires
                            4 * i <= k < 4 * (i + 1),
                    ;
                }
            }
            assert(pixels@ =~= rgba_of(c));
        }
        i = i + 1;
    }
    proof {
        assert(coverage@.take(i as int) =~= coverage@);
    }
    TextureData { width, height, pixels }
}

/// Whether the atlas must be uploaded again: when none was uploaded, or the
/// one uploaded has another version.
pub open spec fn needs_upload(uploaded: Option<(TextureHandle, u64)>, version: u64) -> bool {
    match uploaded {
        Some((_, v)) => v != version,
        None => true,
    }
}

/// Uploads happen exactly on a change of version: once a version is
/// recorded, asking again with it asks for nothing, and any other version
/// asks for an upload.
pub proof fn lemma_upload_iff_version_changed(h: TextureHandle, v: u64, w: u64)
    ensures
        !needs_upload(Some((h, v)), v),
        needs_upload(Some((h, v)), w) <==> w != v,
        needs_upload(None, w),
{
}

// ---------------------------------------------------------------------------
// The render group.
// ---------------------------------------------------------------------------

/// Describes the GUI's render group to the host.
#[derive(Clone, Copy, Debug, Default, PartialEq, Eq, Structural)]
pub struct DrawEguiDesc;

impl DrawEguiDesc {
    /// The render group's state when it is first built: no batch and no
    /// atlas uploaded.
    pub fn build<V>(self) -> (r: DrawEgui<V>)
        ensures
            r.batch.wf(),
            r.batch.runs().len() == 0,
            r.batch.data@.len() == 0,
            r.egui_texture is None,
    {
        DrawEgui { batch: OrderedOneLevelBatch::new(), egui_texture: None }
    }
}

/// The render group's state: the batch of the last frame, and the atlas
/// uploaded, with its version.
#[derive(Debug)]
pub struct DrawEgui<V> {
    pub batch: OrderedOneLevelBatch<V>,
    pub egui_texture: Option<(TextureHandle, u64)>,
}

impl<V> DrawEgui<V> {
    /// Whether the atlas of `version` must be uploaded.
    pub fn texture_needs_upload(&self, version: u64) -> (r: bool)
        ensures
            r == needs_upload(self.egui_texture, version),
    {
        match &self.egui_texture {
            Some((_, v)) => *v != version,
            None => true,
        }
    }

    /// The image to upload for the atlas of `version`, if it changed since
    /// the last upload.
    pub fn upload_egui_texture(&self, version: u64, width: u32, height: u32, coverage: &Vec<u8>) -> (r:
        Option<TextureData>)
        requires
            4 * coverage@.len() <= usize::MAX,
        ensures
            r is Some <==> needs_upload(self.egui_texture, version),
            r is Some ==> r.unwrap().pixels@ == rgba_of(coverage@) && r.unwrap().width == width
                && r.unwrap().height == height,
    {
        if self.texture_needs_upload(version) {
            Some(convert_into_rgba_texture(width, height, coverage))
        } else {
            None
        }
    }

    /// Records that the atlas of `version` was uploaded as `handle`.
    pub fn set_egui_texture(&mut self, handle: TextureHandle, version: u64)
        ensures
            final(self).egui_texture == Some((handle, version)),
            final(self).batch == old(self).batch,
    {
        self.egui_texture = Some((handle, version));
    }

    /// The host texture a mesh's texture stands for: the uploaded atlas, or
    /// the user texture registered under its id.
    pub fn resolve_texture<C>(&self, egui_ctx: &EguiContext<C>, texture_id: TextureRef) -> (r:
        Option<TextureHandle>)
        ensures
            r == (match texture_id {
                TextureRef::Egui => match self.egui_texture {
                    Some((h, _)) => Some(h),
                    None => None,
                },
                TextureRef::User(id) => if egui_ctx.user_textures@.contains_key(id) {
                    Some(egui_ctx.user_textures@[id])
                } else {
                    None
                },
            }),
    {
        match texture_id {
            TextureRef::Egui => match &self.egui_texture {
                Some((h, _)) => Some(*h),
                None => None,
            },
            TextureRef::User(id) => egui_ctx.user_texture(id),
        }
    }

    /// Builds the batch of a frame from its meshes in paint order;
    /// `slots[i]` is the binding slot of mesh `i`'s texture, or none where
    /// its texture could not be had, and then the mesh is left out.
    pub fn build_batch(&mut self, meshes: &Vec<Mesh<V>>, slots: &Vec<Option<TextureId>>)
        where
            V: Copy,
        requires
            slots@.len() == meshes@.len(),
            forall|i: int| 0 <= i < meshes@.len() ==> mesh_valid(#[trigger] meshes@[i]),
            total_indices(meshes@) <= usize::MAX,
        ensures
            final(self).batch.wf(),
            final(self).batch.runs() == batch_of(meshes@, slots@),
            final(self).egui_texture == old(self).egui_texture,
    {
        self.batch.swap_clear();
        let mut i: usize = 0;
        while i < meshes.len()
            invariant
                i <= meshes@.len(),
                slots@.len() == meshes@.len(),
                forall|k: int| 0 <= k < meshes@.len() ==> mesh_valid(#[trigger] meshes@[k]),
                total_indices(meshes@) <= usize::MAX,
                self.batch.wf(),
                self.batch.runs() == batch_of(meshes@.take(i as int), slots@.take(i as int)),
                self.batch.data@.len() <= total_indices(meshes@.take(i as int)),
                self.egui_texture == old(self).egui_texture,
            decreases meshes@.len() - i,
        {
            let mesh = &meshes[i];
            proof {
                let t = meshes@.take(i + 1);
                assert(t.drop_last() =~= meshes@.take(i as int));
                assert(slots@.take(i + 1).take(i as int) =~= slots@.take(i as int));
                lemma_total_indices_prefix(meshes@, i + 1);
                assert(mesh_valid(meshes@[i as int]));
            }
            match slots[i] {
                Some(key) => {
                    self.batch.insert(key, &mesh.vertices, &mesh.indices);
                },
                None => {},
            }
            i = i + 1;
        }
        proof {
            assert(meshes@.take(i as int) =~= meshes@);
            assert(slots@.take(i as int) =~= slots@);
        }
    }

    /// Ends the open frame with `output` and builds the frame's batch.
    /// Refused, with nothing changed, where no frame is open.
    pub fn prepare<C>(
        &mut self,
        egui_ctx: &mut EguiContext<C>,
        output: crate::system::Output,
        meshes: &Vec<Mesh<V>>,
        slots: &Vec<Option<TextureId>>,
    ) -> (r: Result<(), StageError>)
        where
            V: Copy,
        requires
            slots@.len() == meshes@.len(),
            forall|i: int| 0 <= i < meshes@.len() ==> mesh_valid(#[trigger] meshes@[i]),
            total_indices(meshes@) <= usize::MAX,
        ensures
            r is Err <==> !(old(egui_ctx).stage is Render),
            r is Err ==> r == Err::<(), StageError>(StageError::NotRendering) && *final(egui_ctx)
                == *old(egui_ctx) && *final(self) == *old(self),
            r is Ok ==> final(egui_ctx).stage == EguiStage::End(output) && final(self).batch.wf()
                && final(self).batch.runs() == batch_of(meshes@, slots@)
                && final(self).egui_texture == old(self).egui_texture,
    {
        match egui_ctx.end_frame(output) {
            Ok(()) => {},
            Err(e) => {
                return Err(e);
            },
        }
        self.build_batch(meshes, slots);
        Ok(())
    }

    /// The draws of the frame, in paint order: one per batch entry, with
    /// its texture bound.
    pub fn draw_inline(&self) -> (r: Vec<BatchEntry>)
        ensures
            r@ == self.batch.entries@,
    {
        let mut r: Vec<BatchEntry> = Vec::new();
        let mut i: usize = 0;
        while i < self.batch.entries.len()
            invariant
                i <= self.batch.entries@.len(),
                r@ == self.batch.entries@.take(i as int),
            decreases self.batch.entries@.len() - i,
        {
            r.push(self.batch.entries[i]);
            proof {
                assert(self.batch.entries@.take(i + 1) =~= self.batch.entries@.take(i as int).push(
                    self.batch.entries@[i as int],
                ));
            }
            i = i + 1;
        }
        proof {
            assert(self.batch.entries@.take(i as int) =~= self.batch.entries@);
        }
        r
    }
}

} // verus!
