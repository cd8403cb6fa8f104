//! The data model: chunks, chunk groups, the chunking context, asset
//! identities, and the errors of runtime generation.
//!
//! Each executable type carries a mathematical view (`@`) over which all
//! contracts of this crate are stated.

use vstd::prelude::*;

verus! {

/// How the target environment loads additional chunks at runtime: not at all,
/// through the host's module loader, or through browser script tags.
#[derive(Clone, Copy, Debug, PartialEq, Eq, Structural)]
pub enum ChunkLoading {
    NoLoading,
    NodeJs,
    Dom,
}

/// The opaque identifier under which a chunk registers and instantiates a
/// module at runtime. Identifiers are assigned per chunking context by the
/// surrounding build system; they are either numeric or textual.
#[derive(Clone, Debug, PartialEq, Eq)]
pub enum ModuleId {
    Number(u64),
    Str(String),
}

/// The mathematical value of a [`ModuleId`].
pub ghost enum ModuleIdView {
    Number(u64),
    Str(Seq<char>),
}

impl View for ModuleId {
    type V = ModuleIdView;

    open spec fn view(&self) -> ModuleIdView {
        match self {
            ModuleId::Number(n) => ModuleIdView::Number(*n),
            ModuleId::Str(s) => ModuleIdView::Str(s@),
        }
    }
}

/// The views of a sequence of module ids.
pub open spec fn ids_view(v: Seq<ModuleId>) -> Seq<ModuleIdView> {
    v.map_values(|m: ModuleId| m@)
}

/// A unit of bundled, loadable output. The chunk's `path` is absolute within
/// the build; `main_entries` holds the module ids of the modules designated
/// as execution entry points of this chunk, in declaration order, resolved
/// for the build's chunking context.
#[derive(Clone, Debug, PartialEq, Eq)]
pub struct Chunk {
    pub path: String,
    pub main_entries: Vec<ModuleId>,
}

/// The mathematical value of a [`Chunk`].
pub ghost struct ChunkView {
    pub path: Seq<char>,
    pub main_entries: Seq<ModuleIdView>,
}

impl View for Chunk {
    type V = ChunkView;

    open spec fn view(&self) -> ChunkView {
        ChunkView { path: self.path@, main_entries: ids_view(self.main_entries@) }
    }
}

/// The views of a sequence of chunks.
pub open spec fn chunks_view(v: Seq<Chunk>) -> Seq<ChunkView> {
    v.map_values(|c: Chunk| c@)
}

/// The views of a sequence of strings.
pub open spec fn strings_view(v: Seq<String>) -> Seq<Seq<char>> {
    v.map_values(|s: String| s@)
}

/// The ordered set of chunks that must all be loaded before a designated
/// entry chunk can execute. Iteration order is the order of `chunks`, which
/// is fixed at construction: it determines the order of the serialized
/// dependency list.
#[derive(Clone, Debug, PartialEq, Eq)]
pub struct ChunkGroup {
    pub chunks: Vec<Chunk>,
}

impl View for ChunkGroup {
    type V = Seq<ChunkView>;

    open spec fn view(&self) -> Seq<ChunkView> {
        chunks_view(self.chunks@)
    }
}

/// The build's target environment and output layout: the output root all
/// runtime paths are expressed relative to, and the chunk-loading strategy.
#[derive(Clone, Debug, PartialEq, Eq)]
pub struct ChunkingContext {
    pub output_root: String,
    pub chunk_loading: ChunkLoading,
}

/// The mathematical value of a [`ChunkingContext`].
pub ghost struct ChunkingContextView {
    pub output_root: Seq<char>,
    pub chunk_loading: ChunkLoading,
}

impl View for ChunkingContext {
    type V = ChunkingContextView;

    open spec fn view(&self) -> ChunkingContextView {
        ChunkingContextView {
            output_root: self.output_root@,
            chunk_loading: self.chunk_loading,
        }
    }
}

/// A chunk's content-identity descriptor: the asset path it was produced
/// from, plus the modifiers that keep otherwise-identical artifacts distinct.
#[derive(Clone, Debug, PartialEq, Eq)]
pub struct AssetIdent {
    pub path: String,
    pub modifiers: Vec<String>,
}

/// The mathematical value of an [`AssetIdent`].
pub ghost struct AssetIdentView {
    pub path: Seq<char>,
    pub modifiers: Seq<Seq<char>>,
}

impl View for AssetIdent {
    type V = AssetIdentView;

    open spec fn view(&self) -> AssetIdentView {
        AssetIdentView { path: self.path@, modifiers: strings_view(self.modifiers@) }
    }
}

/// The one outbound dependency edge a runtime instance reports: the chunk
/// list artifact that registers this chunk group, parameterized by the output
/// root, the effective chunk group, and the chunk-list path.
#[derive(Clone, Debug, PartialEq, Eq)]
pub struct ChunkListReference {
    pub output_root: String,
    pub chunk_group: ChunkGroup,
    pub chunk_list_path: String,
}

/// The mathematical value of a [`ChunkListReference`].
pub ghost struct ChunkListReferenceView {
    pub output_root: Seq<char>,
    pub chunk_group: Seq<ChunkView>,
    pub chunk_list_path: Seq<char>,
}

impl View for ChunkListReference {
    type V = ChunkListReferenceView;

    open spec fn view(&self) -> ChunkListReferenceView {
        ChunkListReferenceView {
            output_root: self.output_root@,
            chunk_group: self.chunk_group@,
            chunk_list_path: self.chunk_list_path@,
        }
    }
}

/// The failures of runtime generation. The first two are build configuration
/// errors; the last two are packaging defects of the tool itself.
#[derive(Clone, Copy, Debug, PartialEq, Eq, Structural)]
pub enum RuntimeError {
    /// The origin chunk's path cannot be expressed relative to the output root.
    OriginChunkOutsideOutputRoot,
    /// The chunk-list path cannot be expressed relative to the output root.
    ChunkListPathOutsideOutputRoot,
    /// The strategy-specific runtime code fragment is absent.
    SpecificRuntimeCodeNotFound,
    /// The shared runtime code fragment is absent.
    SharedRuntimeCodeNotFound,
}

impl RuntimeError {
    /// A human-readable description of the failure.
    pub fn message(&self) -> (r: &'static str)
        ensures
            r@ == match *self {
                RuntimeError::OriginChunkOutsideOutputRoot
                    => "could not get server path for origin chunk"@,
                RuntimeError::ChunkListPathOutsideOutputRoot
                    => "chunk list path is not in output root"@,
                RuntimeError::SpecificRuntimeCodeNotFound
                    => "specific runtime code is not found"@,
                RuntimeError::SharedRuntimeCodeNotFound
                    => "shared runtime code is not found"@,
            },
    {
        match *self {
            RuntimeError::OriginChunkOutsideOutputRoot => {
                "could not get server path for origin chunk"
            },
            RuntimeError::ChunkListPathOutsideOutputRoot => {
                "chunk list path is not in output root"
            },
            RuntimeError::SpecificRuntimeCodeNotFound => "specific runtime code is not found",
            RuntimeError::SharedRuntimeCodeNotFound => "shared runtime code is not found",
        }
    }
}

/// Copies a module id; the copy has the same mathematical value.
pub fn clone_module_id(id: &ModuleId) -> (r: ModuleId)
    ensures
        r@ == id@,
{
    match id {
        ModuleId::Number(n) => ModuleId::Number(*n),
        ModuleId::Str(s) => ModuleId::Str(s.clone()),
    }
}

/// Copies a vector of module ids; the copy has the same views.
pub fn clone_module_ids(v: &Vec<ModuleId>) -> (r: Vec<ModuleId>)
    ensures
        ids_view(r@) == ids_view(v@),
{
    let mut out: Vec<ModuleId> = Vec::new();
    let mut i: usize = 0;
    while i < v.len()
        invariant
            i <= v.len(),
            out@.len() == i as nat,
            forall|j: int| 0 <= j < i ==> out@[j]@ == v@[j]@,
        decreases v.len() - i,
    {
        out.push(clone_module_id(&v[i]));
        i += 1;
    }
    proof {
        assert(ids_view(out@) =~= ids_view(v@));
    }
    out
}

/// Copies a chunk; the copy has the same mathematical value.
pub fn clone_chunk(c: &Chunk) -> (r: Chunk)
    ensures
        r@ == c@,
{
    Chunk { path: c.path.clone(), main_entries: clone_module_ids(&c.main_entries) }
}

/// Copies a chunk group; the copy has the same mathematical value.
pub fn clone_chunk_group(g: &ChunkGroup) -> (r: ChunkGroup)
    ensures
        r@ == g@,
{
    let mut out: Vec<Chunk> = Vec::new();
    let mut i: usize = 0;
    while i < g.chunks.len()
        invariant
            i <= g.chunks.len(),
            out@.len() == i as nat,
            forall|j: int| 0 <= j < i ==> out@[j]@ == g.chunks@[j]@,
        decreases g.chunks.len() - i,
    {
        out.push(clone_chunk(&g.chunks[i]));
        i += 1;
    }
    proof {
        assert(chunks_view(out@) =~= chunks_view(g.chunks@));
    }
    ChunkGroup { chunks: out }
}

/// Copies a vector of strings; the copy has the same views.
pub fn clone_strings(v: &Vec<String>) -> (r: Vec<String>)
    ensures
        strings_view(r@) == strings_view(v@),
{
    let mut out: Vec<String> = Vec::new();
    let mut i: usize = 0;
    while i < v.len()
        invariant
            i <= v.len(),
            out@.len() == i as nat,
            forall|j: int| 0 <= j < i ==> out@[j]@ == v@[j]@,
        decreases v.len() - i,
    {
        out.push(v[i].clone());
        i += 1;
    }
    proof {
        assert(strings_view(out@) =~= strings_view(v@));
    }
    out
}

/// Copies a chunking context; the copy has the same mathematical value.
pub fn clone_chunking_context(c: &ChunkingContext) -> (r: ChunkingContext)
    ensures
        r@ == c@,
{
    ChunkingContext { output_root: c.output_root.clone(), chunk_loading: c.chunk_loading }
}

impl ChunkGroup {
    /// The chunk group synthesized for a chunk when no explicit group is
    /// given: the singleton group holding exactly that chunk.
    pub fn from_chunk(chunk: &Chunk) -> (r: ChunkGroup)
        ensures
            r@ == seq![chunk@],
    {
        let singleton: Vec<Chunk> = vec![clone_chunk(chunk)];
        let r = ChunkGroup { chunks: singleton };
        proof {
            assert(r@ =~= seq![chunk@]);
        }
        r
    }
}

} // verus!
