//! The development-mode chunk runtime.
//!
//! A runtime instance is bound to one chunking context and one chunk-list
//! location, and optionally pinned to an explicit chunk group. Instances have
//! value semantics: a chunk-group override produces a new, independent
//! instance and leaves the original untouched.

use vstd::prelude::*;
use vstd::string::StringExecFns;
use crate::assemble::EmbeddedResources;
use crate::assemble::assemble_runtime_code;
use crate::model::AssetIdent;
use crate::model::Chunk;
use crate::model::ChunkGroup;
use crate::model::ChunkListReference;
use crate::model::ChunkListReferenceView;
use crate::model::ChunkLoading;
use crate::model::ChunkView;
use crate::model::ChunkingContext;
use crate::model::RuntimeError;
use crate::model::clone_chunk_group;
use crate::model::clone_chunking_context;
use crate::model::clone_strings;
use crate::model::strings_view;
use crate::params::effective_group;
use crate::params::render_params;
use crate::params::resolve_runtime_params;
use crate::runtime::EcmascriptChunkRuntime;
use crate::runtime::ident_modifier;

verus! {

/// The development-mode runtime configuration of a chunk: the chunking
/// context, an optional explicit chunk group (when absent, the effective
/// group is synthesized from the origin chunk), and the path of the chunk
/// list asset this chunk registers itself with when evaluated.
pub struct EcmascriptDevChunkRuntime {
    pub chunking_context: ChunkingContext,
    pub chunk_group: Option<ChunkGroup>,
    pub chunk_list_path: String,
}

impl EcmascriptDevChunkRuntime {
    /// A new runtime instance for a main entry: bound to the chunking
    /// context and to the chunk-list path derived for that entry, with no
    /// chunk-group override.
    pub fn new(chunking_context: ChunkingContext, chunk_list_path: String) -> (r: Self)
        ensures
            r.chunking_context@ == chunking_context@,
            r.chunk_group is None,
            r.chunk_list_path@ == chunk_list_path@,
    {
        EcmascriptDevChunkRuntime { chunking_context, chunk_group: None, chunk_list_path }
    }

    /// This runtime variant's display name.
    pub fn to_string(&self) -> (r: String)
        ensures
            r@ == "Ecmascript Dev Runtime"@,
    {
        String::from_str("Ecmascript Dev Runtime")
    }
}

/// The reference a runtime instance reports for an origin chunk: the edge to
/// the chunk-list artifact, carrying the output root, the effective chunk
/// group and the instance's chunk-list path.
pub open spec fn reference_spec(
    rt: EcmascriptDevChunkRuntime,
    origin: ChunkView,
) -> ChunkListReferenceView {
    ChunkListReferenceView {
        output_root: rt.output_root_spec(),
        chunk_group: effective_group(rt.group_override_spec(), origin),
        chunk_list_path: rt.chunk_list_path_spec(),
    }
}

impl EcmascriptChunkRuntime for EcmascriptDevChunkRuntime {
    open spec fn output_root_spec(&self) -> Seq<char> {
        self.chunking_context.output_root@
    }

    open spec fn chunk_loading_spec(&self) -> ChunkLoading {
        self.chunking_context.chunk_loading
    }

    open spec fn chunk_list_path_spec(&self) -> Seq<char> {
        self.chunk_list_path@
    }

    open spec fn group_override_spec(&self) -> Option<Seq<ChunkView>> {
        match self.chunk_group {
            Some(g) => Some(g@),
            None => None,
        }
    }

    fn decorate_asset_ident(&self, ident: &AssetIdent) -> (r: AssetIdent) {
        let mut modifiers = clone_strings(&ident.modifiers);
        let mut modifier = String::from_str("chunk list ");
        modifier.append(self.chunk_list_path.as_str());
        modifiers.push(modifier);
        proof {
            assert(strings_view(modifiers@) =~= ident@.modifiers.push(
                ident_modifier(self.chunk_list_path@),
            ));
        }
        AssetIdent { path: ident.path.clone(), modifiers }
    }

    fn with_chunk_group(&self, chunk_group: &ChunkGroup) -> (r: Self) {
        EcmascriptDevChunkRuntime {
            chunking_context: clone_chunking_context(&self.chunking_context),
            chunk_group: Some(clone_chunk_group(chunk_group)),
            chunk_list_path: self.chunk_list_path.clone(),
        }
    }

    fn references(&self, origin_chunk: &Chunk) -> (r: Vec<ChunkListReference>) {
        let chunk_group = match &self.chunk_group {
            Some(g) => clone_chunk_group(g),
            None => ChunkGroup::from_chunk(origin_chunk),
        };
        let reference = ChunkListReference {
            output_root: self.chunking_context.output_root.clone(),
            chunk_group,
            chunk_list_path: self.chunk_list_path.clone(),
        };
        vec![reference]
    }

    fn params(&self, origin_chunk: &Chunk) -> (r: Result<String, RuntimeError>) {
        match resolve_runtime_params(
            self.chunking_context.output_root.as_str(),
            &self.chunk_group,
            self.chunk_list_path.as_str(),
            origin_chunk,
        ) {
            Ok(resolved) => Ok(render_params(&resolved)),
            Err(e) => Err(e),
        }
    }

    fn code(&self) -> (r: Result<String, RuntimeError>) {
        let resources = EmbeddedResources::baked();
        assemble_runtime_code(&resources, self.chunking_context.chunk_loading)
    }
}

/// Override independence: a runtime derived by a chunk-group override keeps
/// the original's chunk-list path and output root, its reference set reflects
/// the override group, and the original instance's reference set — a pure
/// function of the unmodified original — still reflects the original's own
/// group resolution.
pub proof fn lemma_override_independence(
    original: EcmascriptDevChunkRuntime,
    derived: EcmascriptDevChunkRuntime,
    group: Seq<ChunkView>,
    origin: ChunkView,
)
    requires
        derived.output_root_spec() == original.output_root_spec(),
        derived.chunk_list_path_spec() == original.chunk_list_path_spec(),
        derived.group_override_spec() == Some(group),
    ensures
        reference_spec(derived, origin) == (ChunkListReferenceView {
            output_root: original.output_root_spec(),
            chunk_group: group,
            chunk_list_path: original.chunk_list_path_spec(),
        }),
        reference_spec(original, origin).chunk_group == effective_group(
            original.group_override_spec(),
            origin,
        ),
        reference_spec(original, origin).chunk_list_path == original.chunk_list_path_spec(),
{
}

} // verus!
