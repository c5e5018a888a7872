use vstd::prelude::*;
use core::marker::PhantomData;
use crate::atlas::AtlasRegion;
use crate::error::Error;

verus! {

/// Runtime type tag the native engine stores on a region attachment.
pub const TAG_REGION: u32 = 0;

/// Runtime type tag the native engine stores on a mesh attachment.
pub const TAG_MESH: u32 = 2;

/// The closed set of attachment kinds this layer recognizes. Every tag value
/// outside the two known ones is deliberately representable as `Other`, so an
/// engine that later grows new attachment kinds never makes classification
/// fail.
#[derive(Clone, Copy, Debug, PartialEq, Eq, Structural)]
pub enum AttachmentKind {
    Region,
    Mesh,
    Other,
}

/// The kind a native type tag denotes: the two recognized tags map to their
/// kinds, every other value to `Other`.
pub open spec fn spec_classify(tag: u32) -> AttachmentKind {
    if tag == TAG_REGION {
        AttachmentKind::Region
    } else if tag == TAG_MESH {
        AttachmentKind::Mesh
    } else {
        AttachmentKind::Other
    }
}

/// Decide the attachment kind from a native type tag alone.
pub fn classify_tag(tag: u32) -> (kind: AttachmentKind)
    ensures
        kind == spec_classify(tag),
{
    if tag == TAG_REGION {
        AttachmentKind::Region
    } else if tag == TAG_MESH {
        AttachmentKind::Mesh
    } else {
        AttachmentKind::Other
    }
}

/// Classification is exhaustive over the whole tag space: the two recognized
/// tags map to their own kinds, and every remaining value maps to `Other`;
/// no tag is mapped twice.
pub proof fn lemma_classify_total(tag: u32)
    ensures
        tag == TAG_REGION ==> spec_classify(tag) is Region,
        tag == TAG_MESH ==> spec_classify(tag) is Mesh,
        tag != TAG_REGION && tag != TAG_MESH ==> spec_classify(tag) is Other,
{
}

/// What this layer reads from a native region attachment: the auxiliary
/// renderer pointer (as a plain address, 0 for null) and the eight UV values,
/// four vertices with two coordinates each. The UV coordinates travel as the
/// 32-bit patterns of the native single-precision values; this layer never
/// interprets them, only hands them through.
pub struct RegionData {
    pub renderer_object: u64,
    pub uvs: [u32; 8],
}

/// What this layer reads from a native mesh attachment: the auxiliary
/// renderer pointer (as a plain address, 0 for null), the triangle index
/// buffer with its declared count, and the UV buffer with the declared
/// world-vertex length. UV coordinates travel as 32-bit patterns, as in
/// `RegionData`.
pub struct MeshData {
    pub renderer_object: u64,
    pub triangles: Vec<u16>,
    pub triangles_count: usize,
    pub uvs: Vec<u32>,
    pub world_vertices_length: usize,
}

impl MeshData {
    /// The native allocation discipline this model mirrors: each buffer holds
    /// exactly as many entries as the metadata field beside it declares, so a
    /// view built from the field never reaches past the buffer.
    pub open spec fn wf(self) -> bool {
        &&& self.triangles_count == self.triangles@.len()
        &&& self.world_vertices_length == self.uvs@.len()
    }

    /// Record mesh buffers together with their declared lengths, derived from
    /// the buffers themselves so the well-formedness invariant holds by
    /// construction.
    pub fn new(renderer_object: u64, triangles: Vec<u16>, uvs: Vec<u32>) -> (d: MeshData)
        ensures
            d.wf(),
            d.renderer_object == renderer_object,
            d.triangles@ == triangles@,
            d.triangles_count == triangles@.len(),
            d.uvs@ == uvs@,
            d.world_vertices_length == uvs@.len(),
    {
        let triangles_count = triangles.len();
        let world_vertices_length = uvs.len();
        MeshData { renderer_object, triangles, triangles_count, uvs, world_vertices_length }
    }
}

/// The kind-specific block of a native attachment. A handle tagged as a
/// recognized kind carries that kind's data; one tagged otherwise carries a
/// block this layer does not read.
pub enum Payload {
    Region(RegionData),
    Mesh(MeshData),
    Opaque,
}

/// A snapshot of a native attachment handle: the runtime type tag together
/// with the fields this layer reads from the tagged block. In native memory
/// the tag decides which concrete struct the handle really is; `wf` states
/// exactly that correspondence.
pub struct AttachmentHandle {
    pub tag: u32,
    pub payload: Payload,
}

impl AttachmentHandle {
    /// The payload matches the tag: the two recognized tags carry their own
    /// kind's data (well formed for meshes), every other tag an unread block.
    pub open spec fn wf(self) -> bool {
        match self.payload {
            Payload::Region(_) => self.tag == TAG_REGION,
            Payload::Mesh(d) => self.tag == TAG_MESH && d.wf(),
            Payload::Opaque => self.tag != TAG_REGION && self.tag != TAG_MESH,
        }
    }

    /// A handle tagged as a region attachment.
    pub fn region(data: RegionData) -> (h: AttachmentHandle)
        ensures
            h.wf(),
            h.tag == TAG_REGION,
            h.payload == Payload::Region(data),
    {
        AttachmentHandle { tag: TAG_REGION, payload: Payload::Region(data) }
    }

    /// A handle tagged as a mesh attachment.
    pub fn mesh(data: MeshData) -> (h: AttachmentHandle)
        requires
            data.wf(),
        ensures
            h.wf(),
            h.tag == TAG_MESH,
            h.payload == Payload::Mesh(data),
    {
        AttachmentHandle { tag: TAG_MESH, payload: Payload::Mesh(data) }
    }

    /// A handle carrying any tag this layer does not recognize.
    pub fn other(tag: u32) -> (h: AttachmentHandle)
        requires
            tag != TAG_REGION,
            tag != TAG_MESH,
        ensures
            h.wf(),
            h.tag == tag,
            h.payload is Opaque,
    {
        AttachmentHandle { tag, payload: Payload::Opaque }
    }
}

/// Typed view of a region attachment: a non-owning reference to the handle's
/// region data, bound to the lifetime of the caller-held aggregate that owns
/// the native memory.
pub struct RegionAttachment<'skel> {
    pub data: &'skel RegionData,
}

/// Typed view of a mesh attachment, bound to the owning aggregate's lifetime
/// in the same way.
pub struct MeshAttachment<'skel> {
    pub data: &'skel MeshData,
}

/// An attachment after dispatch: one statically-typed variant per recognized
/// kind, plus `Other` for every unrecognized tag, which stays representable
/// but offers no typed accessors.
pub enum Attachment<'skel> {
    Region(RegionAttachment<'skel>),
    Mesh(MeshAttachment<'skel>),
    Other,
}

impl<'skel> Attachment<'skel> {
    /// The variant as a bare kind.
    pub open spec fn kind(self) -> AttachmentKind {
        match self {
            Attachment::Region(_) => AttachmentKind::Region,
            Attachment::Mesh(_) => AttachmentKind::Mesh,
            Attachment::Other => AttachmentKind::Other,
        }
    }

    /// The dispatched view observes exactly the given handle: a typed variant
    /// borrows that handle's own payload data, and `Other` stands for a
    /// payload this layer does not read.
    pub open spec fn is_view_of(self, h: AttachmentHandle) -> bool {
        match self {
            Attachment::Region(ra) => h.payload matches Payload::Region(d) && *ra.data == d,
            Attachment::Mesh(ma) => h.payload matches Payload::Mesh(d) && *ma.data == d,
            Attachment::Other => h.payload is Opaque,
        }
    }

    /// Well-formedness carried over from the handle the view was built from.
    pub open spec fn wf(self) -> bool {
        match self {
            Attachment::Mesh(ma) => ma.wf(),
            _ => true,
        }
    }

    /// Dispatch on a possibly-null native handle. A null handle is the only
    /// rejected input; a live handle is classified by its runtime tag alone,
    /// exhaustively: the two recognized tags produce their typed variants,
    /// every other tag the inert `Other`.
    pub fn new(handle: Option<&'skel AttachmentHandle>) -> (r: Result<Attachment<'skel>, Error>)
        requires
            handle matches Some(h) ==> h.wf(),
        ensures
            match r {
                Result::Ok(a) => {
                    &&& handle matches Some(h)
                    &&& a.kind() == spec_classify(h.tag)
                    &&& a.is_view_of(*h)
                    &&& a.wf()
                },
                Result::Err(e) => handle is None && e == Error::NullPointer,
            },
    {
        let h = match handle {
            Some(h) => h,
            None => {
                return Err(Error::NullPointer);
            },
        };
        if h.tag == TAG_REGION {
            match &h.payload {
                Payload::Region(d) => Ok(Attachment::Region(RegionAttachment { data: d })),
                _ => {
                    proof {
                        assert(false);
                    }
                    Err(Error::NullPointer)
                },
            }
        } else if h.tag == TAG_MESH {
            match &h.payload {
                Payload::Mesh(d) => Ok(Attachment::Mesh(MeshAttachment { data: d })),
                _ => {
                    proof {
                        assert(false);
                    }
                    Err(Error::NullPointer)
                },
            }
        } else {
            Ok(Attachment::Other)
        }
    }
}

impl<'skel> MeshAttachment<'skel> {
    /// The underlying data keeps its declared lengths honest.
    pub open spec fn wf(self) -> bool {
        self.data.wf()
    }

    /// The atlas-region link recovered from the auxiliary renderer pointer.
    /// A null link is a caller bug (the renderer integration never set it),
    /// so a non-null address is a precondition, not a checked condition.
    pub fn region(&self) -> (r: AtlasRegion<'skel>)
        requires
            self.data.renderer_object != 0,
        ensures
            r.address == self.data.renderer_object,
            r.wf(),
    {
        AtlasRegion { address: self.data.renderer_object, _marker: PhantomData }
    }

    /// Read-only view of the triangle index buffer; its length is the count
    /// the native metadata declares, and a zero count yields a valid empty
    /// view.
    pub fn triangles(&self) -> (r: &[u16])
        requires
            self.wf(),
        ensures
            r@ == self.data.triangles@,
            r@.len() == self.data.triangles_count,
    {
        self.data.triangles.as_slice()
    }

    /// Read-only view of the UV buffer; its length always equals the declared
    /// world-vertex length.
    pub fn uvs(&self) -> (r: &[u32])
        requires
            self.wf(),
        ensures
            r@ == self.data.uvs@,
            r@.len() == self.data.world_vertices_length,
    {
        self.data.uvs.as_slice()
    }

    /// The world-vertex length the native metadata declares.
    pub fn world_vertices_len(&self) -> (n: usize)
        ensures
            n == self.data.world_vertices_length,
    {
        self.data.world_vertices_length
    }
}

impl<'skel> RegionAttachment<'skel> {
    /// The atlas-region link, under the same non-null precondition as for
    /// meshes.
    pub fn region(&self) -> (r: AtlasRegion<'skel>)
        requires
            self.data.renderer_object != 0,
        ensures
            r.address == self.data.renderer_object,
            r.wf(),
    {
        AtlasRegion { address: self.data.renderer_object, _marker: PhantomData }
    }

    /// Read-only view of the eight UV values a region attachment always
    /// carries: four vertices with two coordinates each.
    pub fn uvs(&self) -> (r: &[u32])
        ensures
            r@ == self.data.uvs@,
            r@.len() == 8,
    {
        self.data.uvs.as_slice()
    }
}

/// For a mesh attachment the UV view and the declared world-vertex length
/// always agree: `uvs()` has exactly `world_vertices_len()` entries.
pub proof fn lemma_mesh_uvs_len_matches_world_vertices(m: MeshAttachment)
    requires
        m.wf(),
    ensures
        m.data.uvs@.len() == m.data.world_vertices_length,
{
}

/// For a region attachment the UV view always has exactly eight entries,
/// four vertices with two coordinates each, regardless of content.
pub proof fn lemma_region_uvs_len(r: RegionAttachment)
    ensures
        r.data.uvs@.len() == 8,
{
}

/// Dispatch is idempotent: classifying a handle and then re-classifying the
/// same handle, with no native mutation in between, yields the same variant.
pub proof fn lemma_dispatch_idempotent(h: AttachmentHandle, a1: Attachment, a2: Attachment)
    requires
        h.wf(),
        a1.is_view_of(h),
        a2.is_view_of(h),
    ensures
        a1.kind() == a2.kind(),
{
}

} // verus!
