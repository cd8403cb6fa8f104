//! The runtime interface contract.
//!
//! The capability set every chunk-runtime variant must satisfy: identity
//! decoration, chunk-group override, reference reporting, parameter code and
//! shared runtime code. Only the development variant exists in this crate,
//! but the contract anticipates others: each implementor exposes its chunking
//! context, chunk-list path and optional chunk-group override as spec
//! functions, and the five operations are pinned down over those.

use vstd::prelude::*;
use crate::assemble::assembled_code;
use crate::assemble::baked_resources;
use crate::assemble::code_result_view;
use crate::model::AssetIdent;
use crate::model::Chunk;
use crate::model::ChunkGroup;
use crate::model::ChunkListReference;
use crate::model::ChunkLoading;
use crate::model::ChunkView;
use crate::model::RuntimeError;
use crate::params::effective_group;
use crate::params::params_code_result;

verus! {

/// The identity modifier a runtime instance adds: its chunk-list location,
/// so that otherwise-identical chunks registered under different chunk lists
/// keep distinct artifact identities.
pub open spec fn ident_modifier(chunk_list_path: Seq<char>) -> Seq<char> {
    "chunk list "@ + chunk_list_path
}

/// The runtime for an ECMAScript chunk.
pub trait EcmascriptChunkRuntime: Sized {
    /// The output root of the instance's chunking context.
    spec fn output_root_spec(&self) -> Seq<char>;

    /// The chunk-loading strategy of the instance's chunking context.
    spec fn chunk_loading_spec(&self) -> ChunkLoading;

    /// The instance's chunk-list path, fixed at construction.
    spec fn chunk_list_path_spec(&self) -> Seq<char>;

    /// The instance's explicit chunk-group override, when one is set.
    spec fn group_override_spec(&self) -> Option<Seq<ChunkView>>;

    /// Decorates a chunk's identity descriptor: appends this instance's
    /// chunk-list location as a distinguishing modifier.
    fn decorate_asset_ident(&self, ident: &AssetIdent) -> (r: AssetIdent)
        ensures
            r@.path == ident@.path,
            r@.modifiers == ident@.modifiers.push(ident_modifier(self.chunk_list_path_spec())),
    ;

    /// Returns a new, independent runtime instance identical to this one
    /// except that its chunk-group resolution is pinned to the given group.
    /// The receiver is unmodified; its chunk-list path carries over.
    fn with_chunk_group(&self, chunk_group: &ChunkGroup) -> (r: Self)
        ensures
            r.output_root_spec() == self.output_root_spec(),
            r.chunk_loading_spec() == self.chunk_loading_spec(),
            r.chunk_list_path_spec() == self.chunk_list_path_spec(),
            r.group_override_spec() == Some(chunk_group@),
    ;

    /// Reports the instance's outbound references for an origin chunk:
    /// exactly one edge, to the chunk-list artifact, carrying the output
    /// root, the effective chunk group and the chunk-list path.
    fn references(&self, origin_chunk: &Chunk) -> (r: Vec<ChunkListReference>)
        ensures
            r@.len() == 1,
            r@[0]@.output_root == self.output_root_spec(),
            r@[0]@.chunk_group == effective_group(self.group_override_spec(), origin_chunk@),
            r@[0]@.chunk_list_path == self.chunk_list_path_spec(),
    ;

    /// Renders the origin chunk's runtime parameters as embeddable source
    /// text. Parameters differ per chunk, so this takes the origin chunk;
    /// the runtime code itself does not.
    fn params(&self, origin_chunk: &Chunk) -> (r: Result<String, RuntimeError>)
        ensures
            code_result_view(r) == params_code_result(
                self.output_root_spec(),
                self.group_override_spec(),
                self.chunk_list_path_spec(),
                origin_chunk@,
            ),
    ;

    /// Renders the runtime bootstrap code for the instance's loading
    /// strategy — by construction independent of any origin chunk.
    fn code(&self) -> (r: Result<String, RuntimeError>)
        ensures
            code_result_view(r) == assembled_code(baked_resources(), self.chunk_loading_spec()),
    ;
}

} // verus!
