//! The dependency and parameter resolver.
//!
//! Given an origin chunk, its (possibly overridden) chunk group and the
//! build's output root, this computes the ordered, self-excluded list of
//! sibling chunk paths the chunk depends on, the module ids it instantiates,
//! and the chunk-list path — all relative to the output root — and renders
//! them as one source-embeddable literal.

use vstd::prelude::*;
use vstd::string::StringExecFns;
use crate::model::Chunk;
use crate::model::ChunkGroup;
use crate::model::ChunkView;
use crate::model::ModuleId;
use crate::model::ModuleIdView;
use crate::model::RuntimeError;
use crate::model::clone_chunk_group;
use crate::model::clone_module_ids;
use crate::model::chunks_view;
use crate::model::ids_view;
use crate::model::strings_view;
use crate::paths::rel_path;
use crate::paths::relative_path;
use crate::stringify::array_literal;
use crate::stringify::id_literal;
use crate::stringify::quoted;
use crate::stringify::quote_string;
use crate::stringify::render_array;
use crate::stringify::render_module_id;

verus! {

/// The per-chunk data needed at execution time: which sibling chunks must
/// already be loaded (the chunk itself excluded), which module ids to
/// instantiate, and where to find the chunk list — all relative to the
/// output root.
#[derive(Debug)]
pub struct EcmascriptDevChunkRuntimeParams {
    pub chunk_dependencies: Vec<String>,
    pub runtime_module_ids: Vec<ModuleId>,
    pub chunk_list_path: String,
}

/// The mathematical value of [`EcmascriptDevChunkRuntimeParams`].
pub ghost struct ParamsView {
    pub chunk_dependencies: Seq<Seq<char>>,
    pub runtime_module_ids: Seq<ModuleIdView>,
    pub chunk_list_path: Seq<char>,
}

impl View for EcmascriptDevChunkRuntimeParams {
    type V = ParamsView;

    open spec fn view(&self) -> ParamsView {
        ParamsView {
            chunk_dependencies: strings_view(self.chunk_dependencies@),
            runtime_module_ids: ids_view(self.runtime_module_ids@),
            chunk_list_path: self.chunk_list_path@,
        }
    }
}

/// The view of an optional chunk-group override.
pub open spec fn group_override_view(g: Option<ChunkGroup>) -> Option<Seq<ChunkView>> {
    match g {
        Some(group) => Some(chunks_view(group.chunks@)),
        None => None,
    }
}

/// The effective chunk group: the explicit override when present, otherwise
/// the singleton group synthesized from the origin chunk.
pub open spec fn effective_group(
    group_override: Option<Seq<ChunkView>>,
    origin: ChunkView,
) -> Seq<ChunkView> {
    match group_override {
        Some(g) => g,
        None => seq![origin],
    }
}

/// The ordered dependency paths of a chunk group: each member's path relative
/// to the output root, in group order, skipping members outside the output
/// root and the member whose relative path equals the origin's own.
pub open spec fn dependency_paths(
    chunks: Seq<ChunkView>,
    root: Seq<char>,
    origin_rel: Seq<char>,
) -> Seq<Seq<char>>
    decreases chunks.len(),
{
    if chunks.len() == 0 {
        Seq::<Seq<char>>::empty()
    } else {
        let rest = dependency_paths(chunks.drop_last(), root, origin_rel);
        match rel_path(root, chunks.last().path) {
            Some(p) => if p != origin_rel {
                rest.push(p)
            } else {
                rest
            },
            None => rest,
        }
    }
}

/// What parameter resolution returns: the resolved parameters, or the error
/// for an origin chunk or chunk list outside the output root — the origin
/// checked first.
pub open spec fn resolved_params(
    root: Seq<char>,
    group_override: Option<Seq<ChunkView>>,
    chunk_list_path: Seq<char>,
    origin: ChunkView,
) -> Result<ParamsView, RuntimeError> {
    match rel_path(root, origin.path) {
        None => Err(RuntimeError::OriginChunkOutsideOutputRoot),
        Some(origin_rel) => match rel_path(root, chunk_list_path) {
            None => Err(RuntimeError::ChunkListPathOutsideOutputRoot),
            Some(list_rel) => Ok(
                ParamsView {
                    chunk_dependencies: dependency_paths(
                        effective_group(group_override, origin),
                        root,
                        origin_rel,
                    ),
                    runtime_module_ids: origin.main_entries,
                    chunk_list_path: list_rel,
                },
            ),
        },
    }
}

/// The view of a parameter-resolution result.
pub open spec fn params_result_view(
    r: Result<EcmascriptDevChunkRuntimeParams, RuntimeError>,
) -> Result<ParamsView, RuntimeError> {
    match r {
        Ok(p) => Ok(p@),
        Err(e) => Err(e),
    }
}

/// Resolves the runtime parameters of `origin` against the output root: its
/// effective group's dependency paths (the origin excluded), its main-entry
/// module ids in declaration order, and the chunk-list path. Fails exactly
/// when the origin chunk's path or the chunk-list path cannot be expressed
/// relative to the output root; a group member outside the output root is
/// silently skipped.
pub fn resolve_runtime_params(
    output_root: &str,
    group_override: &Option<ChunkGroup>,
    chunk_list_path: &str,
    origin: &Chunk,
) -> (r: Result<EcmascriptDevChunkRuntimeParams, RuntimeError>)
    ensures
        params_result_view(r) == resolved_params(
            output_root@,
            group_override_view(*group_override),
            chunk_list_path@,
            origin@,
        ),
{
    let origin_rel = match relative_path(output_root, origin.path.as_str()) {
        Some(p) => p,
        None => {
            return Err(RuntimeError::OriginChunkOutsideOutputRoot);
        },
    };
    let group = match group_override {
        Some(g) => clone_chunk_group(g),
        None => ChunkGroup::from_chunk(origin),
    };
    proof {
        assert(group@ == effective_group(group_override_view(*group_override), origin@));
    }
    let ghost chunks: Seq<ChunkView> = group@;
    let mut chunk_dependencies: Vec<String> = Vec::new();
    let mut i: usize = 0;
    while i < group.chunks.len()
        invariant
            i <= group.chunks.len(),
            chunks == chunks_view(group.chunks@),
            rel_path(output_root@, origin.path@) == Some(origin_rel@),
            strings_view(chunk_dependencies@) == dependency_paths(
                chunks.take(i as int),
                output_root@,
                origin_rel@,
            ),
        decreases group.chunks.len() - i,
    {
        match relative_path(output_root, group.chunks[i].path.as_str()) {
            Some(p) => {
                if !(p == origin_rel) {
                    chunk_dependencies.push(p);
                }
            },
            None => {},
        }
        proof {
            assert(chunks.take(i as int + 1).drop_last() =~= chunks.take(i as int));
            assert(chunks.take(i as int + 1).last() == chunks[i as int]);
            assert(chunks[i as int].path == group.chunks@[i as int].path@);
            assert(strings_view(chunk_dependencies@) =~= dependency_paths(
                chunks.take(i as int + 1),
                output_root@,
                origin_rel@,
            ));
        }
        i += 1;
    }
    proof {
        assert(chunks.take(group.chunks@.len() as int) =~= chunks);
    }
    let runtime_module_ids = clone_module_ids(&origin.main_entries);
    let chunk_list_rel = match relative_path(output_root, chunk_list_path) {
        Some(p) => p,
        None => {
            return Err(RuntimeError::ChunkListPathOutsideOutputRoot);
        },
    };
    Ok(
        EcmascriptDevChunkRuntimeParams {
            chunk_dependencies,
            runtime_module_ids,
            chunk_list_path: chunk_list_rel,
        },
    )
}

/// The serialized form of resolved parameters: one object literal with the
/// fixed field order `chunkListPath`, `chunkDependencies`, `runtimeModuleIds`
/// — a wire contract with the runtime code.
pub open spec fn params_literal(p: ParamsView) -> Seq<char> {
    "{\"chunkListPath\":"@ + quoted(p.chunk_list_path) + ",\"chunkDependencies\":"@
        + array_literal(p.chunk_dependencies.map_values(|d: Seq<char>| quoted(d)))
        + ",\"runtimeModuleIds\":"@ + array_literal(
        p.runtime_module_ids.map_values(|m: ModuleIdView| id_literal(m)),
    ) + "}"@
}

/// Renders resolved parameters as their source-embeddable literal.
pub fn render_params(p: &EcmascriptDevChunkRuntimeParams) -> (r: String)
    ensures
        r@ == params_literal(p@),
{
    let mut out = String::from_str("{\"chunkListPath\":");
    let list_path = quote_string(p.chunk_list_path.as_str());
    out.append(list_path.as_str());
    out.append(",\"chunkDependencies\":");

    let mut rendered_deps: Vec<String> = Vec::new();
    let mut i: usize = 0;
    while i < p.chunk_dependencies.len()
        invariant
            i <= p.chunk_dependencies.len(),
            rendered_deps@.len() == i as nat,
            forall|j: int| 0 <= j < i ==> rendered_deps@[j]@ == quoted(p.chunk_dependencies@[j]@),
        decreases p.chunk_dependencies.len() - i,
    {
        rendered_deps.push(quote_string(p.chunk_dependencies[i].as_str()));
        i += 1;
    }
    let deps_array = render_array(&rendered_deps);
    proof {
        assert(strings_view(rendered_deps@) =~= p@.chunk_dependencies.map_values(
            |d: Seq<char>| quoted(d),
        ));
    }
    out.append(deps_array.as_str());
    out.append(",\"runtimeModuleIds\":");

    let mut rendered_ids: Vec<String> = Vec::new();
    let mut k: usize = 0;
    while k < p.runtime_module_ids.len()
        invariant
            k <= p.runtime_module_ids.len(),
            rendered_ids@.len() == k as nat,
            forall|j: int| 0 <= j < k ==> rendered_ids@[j]@ == id_literal(p.runtime_module_ids@[j]@),
        decreases p.runtime_module_ids.len() - k,
    {
        rendered_ids.push(render_module_id(&p.runtime_module_ids[k]));
        k += 1;
    }
    let ids_array = render_array(&rendered_ids);
    proof {
        assert(strings_view(rendered_ids@) =~= p@.runtime_module_ids.map_values(
            |m: ModuleIdView| id_literal(m),
        ));
    }
    out.append(ids_array.as_str());
    out.append("}");
    proof {
        assert(out@ =~= params_literal(p@));
    }
    out
}

/// What parameter resolution and serialization together return.
pub open spec fn params_code_result(
    root: Seq<char>,
    group_override: Option<Seq<ChunkView>>,
    chunk_list_path: Seq<char>,
    origin: ChunkView,
) -> Result<Seq<char>, RuntimeError> {
    match resolved_params(root, group_override, chunk_list_path, origin) {
        Ok(p) => Ok(params_literal(p)),
        Err(e) => Err(e),
    }
}

/// Self-exclusion: a chunk group's computed dependency list never contains
/// the origin chunk's own resolved path.
pub proof fn lemma_self_exclusion(chunks: Seq<ChunkView>, root: Seq<char>, origin_rel: Seq<char>)
    ensures
        !dependency_paths(chunks, root, origin_rel).contains(origin_rel),
    decreases chunks.len(),
{
    if chunks.len() == 0 {
        assert(!dependency_paths(chunks, root, origin_rel).contains(origin_rel));
    } else {
        lemma_self_exclusion(chunks.drop_last(), root, origin_rel);
        let rest = dependency_paths(chunks.drop_last(), root, origin_rel);
        match rel_path(root, chunks.last().path) {
            Some(p) => {
                if p != origin_rel {
                    let pushed = rest.push(p);
                    assert forall|j: int| 0 <= j < pushed.len() implies pushed[j] != origin_rel by {
                        if j < rest.len() {
                            assert(rest[j] != origin_rel);
                        } else {
                            assert(pushed[j] == p);
                        }
                    }
                    assert(!pushed.contains(origin_rel));
                }
            },
            None => {},
        }
    }
}

/// Self-exclusion at the resolver's boundary: when resolution succeeds, the
/// resolved parameters' dependency list never contains the origin chunk's own
/// resolved path.
pub proof fn lemma_resolved_self_exclusion(
    root: Seq<char>,
    group_override: Option<Seq<ChunkView>>,
    chunk_list_path: Seq<char>,
    origin: ChunkView,
    origin_rel: Seq<char>,
)
    requires
        rel_path(root, origin.path) == Some(origin_rel),
        resolved_params(root, group_override, chunk_list_path, origin) is Ok,
    ensures
        !(resolved_params(root, group_override, chunk_list_path, origin)->Ok_0).chunk_dependencies
            .contains(origin_rel),
{
    lemma_self_exclusion(effective_group(group_override, origin), root, origin_rel);
}

/// Failure asymmetry: resolution fails exactly when the origin chunk's path
/// or the chunk-list path cannot be expressed relative to the output root —
/// the origin reported first — and never because of a group member.
pub proof fn lemma_errors_only_from_origin_or_chunk_list(
    root: Seq<char>,
    group_override: Option<Seq<ChunkView>>,
    chunk_list_path: Seq<char>,
    origin: ChunkView,
)
    ensures
        resolved_params(root, group_override, chunk_list_path, origin) == Err::<
            ParamsView,
            RuntimeError,
        >(RuntimeError::OriginChunkOutsideOutputRoot) <==> rel_path(root, origin.path) is None,
        resolved_params(root, group_override, chunk_list_path, origin) == Err::<
            ParamsView,
            RuntimeError,
        >(RuntimeError::ChunkListPathOutsideOutputRoot) <==> (rel_path(root, origin.path) is Some
            && rel_path(root, chunk_list_path) is None),
        resolved_params(root, group_override, chunk_list_path, origin) is Ok <==> (rel_path(
            root,
            origin.path,
        ) is Some && rel_path(root, chunk_list_path) is Some),
{
}

/// Every computed dependency is the resolved relative path of some member of
/// the chunk group, other than the origin's own: dependencies are always
/// expressible relative to the output root.
pub proof fn lemma_dependencies_from_group(
    chunks: Seq<ChunkView>,
    root: Seq<char>,
    origin_rel: Seq<char>,
)
    ensures
        forall|q: Seq<char>|
            dependency_paths(chunks, root, origin_rel).contains(q) ==> q != origin_rel
                && exists|j: int|
                0 <= j < chunks.len() && rel_path(root, chunks[j].path) == Some(q),
    decreases chunks.len(),
{
    if chunks.len() > 0 {
        lemma_dependencies_from_group(chunks.drop_last(), root, origin_rel);
        let rest = dependency_paths(chunks.drop_last(), root, origin_rel);
        let deps = dependency_paths(chunks, root, origin_rel);
        assert forall|q: Seq<char>| deps.contains(q) implies q != origin_rel && exists|j: int|
            0 <= j < chunks.len() && rel_path(root, chunks[j].path) == Some(q) by {
            if rest.contains(q) {
                let j = choose|j: int|
                    0 <= j < chunks.drop_last().len() && rel_path(
                        root,
                        chunks.drop_last()[j].path,
                    ) == Some(q);
                assert(chunks[j] == chunks.drop_last()[j]);
            } else {
                let idx = choose|idx: int| 0 <= idx < deps.len() && deps[idx] == q;
                match rel_path(root, chunks.last().path) {
                    Some(p) => {
                        if p != origin_rel {
                            assert(deps == rest.push(p));
                            assert(idx == rest.len());
                            assert(q == p);
                            assert(rel_path(root, chunks[chunks.len() - 1].path) == Some(q));
                        }
                    },
                    None => {},
                }
            }
        }
    }
}

/// Path exclusion: a chunk group member that lies outside the output root is
/// silently omitted — the dependency paths are those of the group without it.
pub proof fn lemma_sibling_outside_root_omitted(
    chunks: Seq<ChunkView>,
    root: Seq<char>,
    origin_rel: Seq<char>,
    i: int,
)
    requires
        0 <= i < chunks.len(),
        rel_path(root, chunks[i].path) is None,
    ensures
        dependency_paths(chunks, root, origin_rel) == dependency_paths(
            chunks.remove(i),
            root,
            origin_rel,
        ),
    decreases chunks.len(),
{
    if i == chunks.len() - 1 {
        assert(chunks.remove(i) =~= chunks.drop_last());
    } else {
        lemma_sibling_outside_root_omitted(chunks.drop_last(), root, origin_rel, i);
        assert(chunks.remove(i).drop_last() =~= chunks.drop_last().remove(i));
        assert(chunks.remove(i).last() == chunks.last());
    }
}

/// Determinism: parameter resolution and serialization are a pure function of
/// the output root, the chunk-group override, the chunk-list path and the
/// origin chunk — identical inputs give identical serialized output.
pub proof fn lemma_params_deterministic(
    root1: Seq<char>,
    group_override1: Option<Seq<ChunkView>>,
    chunk_list_path1: Seq<char>,
    origin1: ChunkView,
    root2: Seq<char>,
    group_override2: Option<Seq<ChunkView>>,
    chunk_list_path2: Seq<char>,
    origin2: ChunkView,
)
    requires
        root1 == root2,
        group_override1 == group_override2,
        chunk_list_path1 == chunk_list_path2,
        origin1 == origin2,
    ensures
        params_code_result(root1, group_override1, chunk_list_path1, origin1)
            == params_code_result(root2, group_override2, chunk_list_path2, origin2),
{
}

} // verus!
