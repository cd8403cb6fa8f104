//! The runtime code assembler.
//!
//! Concatenates the loading-strategy-specific code fragment with the shared
//! fragment into one self-contained, self-gating executable block. The result
//! is independent of any particular chunk or chunk group, so the same code is
//! shared verbatim across every chunk built with the same strategy.
//!
//! The four runtime fragments are build-time constants baked into this crate.
//! The guarded block executes only while the well-known pending-chunk
//! registry (`globalThis.TURBOPACK`, an array sentinel) is still present:
//! the first embedded copy to run replaces it with the live runtime, and
//! every later copy is a no-op.

use vstd::prelude::*;
use vstd::string::StringExecFns;
use crate::model::ChunkLoading;
use crate::model::RuntimeError;

verus! {

/// Opens the guarded block: the body runs only while the pending-chunk
/// registry is still the array sentinel.
pub const RUNTIME_GUARD_OPEN: &'static str = "(() => {\nif (!Array.isArray(globalThis.TURBOPACK)) {\n    return;\n}\n";

/// Closes and invokes the guarded block.
pub const RUNTIME_GUARD_CLOSE: &'static str = "})();\n";

/// The fragment for environments without dynamic chunk loading: every chunk
/// is already present before execution starts.
pub const RUNTIME_NONE_FRAGMENT: &'static str = "const loadChunk = (chunkPath) => {\n    throw new Error(\"dynamic chunk loading is not available: \" + chunkPath);\n};\n";

/// The fragment for server-side module loading through the host's loader.
pub const RUNTIME_NODEJS_FRAGMENT: &'static str = "const loadChunk = (chunkPath) => {\n    require(\"./\" + chunkPath);\n};\n";

/// The fragment for browser script-tag based loading.
pub const RUNTIME_DOM_FRAGMENT: &'static str = "const loadChunk = (chunkPath) => new Promise((resolve, reject) => {\n    const script = document.createElement(\"script\");\n    script.src = chunkPath;\n    script.onload = resolve;\n    script.onerror = reject;\n    document.head.appendChild(script);\n});\n";

/// The strategy-independent registration and execution fragment, appended
/// after the strategy-specific one.
pub const RUNTIME_SHARED_FRAGMENT: &'static str = "const pendingChunks = globalThis.TURBOPACK;\nglobalThis.TURBOPACK = { push: registerChunk };\nfor (const chunk of pendingChunks) {\n    registerChunk(chunk);\n}\n";

/// The embedded resource set the assembler draws from: the three
/// strategy-specific fragments and the shared fragment. An absent entry
/// models a corrupted or incomplete build of the tool itself.
pub struct EmbeddedResources {
    pub runtime_none: Option<String>,
    pub runtime_nodejs: Option<String>,
    pub runtime_dom: Option<String>,
    pub runtime_shared: Option<String>,
}

/// The mathematical value of an [`EmbeddedResources`].
pub ghost struct EmbeddedResourcesView {
    pub runtime_none: Option<Seq<char>>,
    pub runtime_nodejs: Option<Seq<char>>,
    pub runtime_dom: Option<Seq<char>>,
    pub runtime_shared: Option<Seq<char>>,
}

impl View for EmbeddedResources {
    type V = EmbeddedResourcesView;

    open spec fn view(&self) -> EmbeddedResourcesView {
        EmbeddedResourcesView {
            runtime_none: self.runtime_none.deep_view(),
            runtime_nodejs: self.runtime_nodejs.deep_view(),
            runtime_dom: self.runtime_dom.deep_view(),
            runtime_shared: self.runtime_shared.deep_view(),
        }
    }
}

/// The resource set baked into this crate: all four fragments present.
pub open spec fn baked_resources() -> EmbeddedResourcesView {
    EmbeddedResourcesView {
        runtime_none: Some(RUNTIME_NONE_FRAGMENT@),
        runtime_nodejs: Some(RUNTIME_NODEJS_FRAGMENT@),
        runtime_dom: Some(RUNTIME_DOM_FRAGMENT@),
        runtime_shared: Some(RUNTIME_SHARED_FRAGMENT@),
    }
}

/// The fragment a resource set holds for a loading strategy.
pub open spec fn strategy_fragment(
    resources: EmbeddedResourcesView,
    strategy: ChunkLoading,
) -> Option<Seq<char>> {
    match strategy {
        ChunkLoading::NoLoading => resources.runtime_none,
        ChunkLoading::NodeJs => resources.runtime_nodejs,
        ChunkLoading::Dom => resources.runtime_dom,
    }
}

/// What code assembly returns: the guarded concatenation of the strategy
/// fragment and the shared fragment, or the error for whichever of the two is
/// absent — the strategy fragment checked first.
pub open spec fn assembled_code(
    resources: EmbeddedResourcesView,
    strategy: ChunkLoading,
) -> Result<Seq<char>, RuntimeError> {
    match strategy_fragment(resources, strategy) {
        None => Err(RuntimeError::SpecificRuntimeCodeNotFound),
        Some(fragment) => match resources.runtime_shared {
            None => Err(RuntimeError::SharedRuntimeCodeNotFound),
            Some(shared) => Ok(
                RUNTIME_GUARD_OPEN@ + fragment + shared + RUNTIME_GUARD_CLOSE@,
            ),
        },
    }
}

/// The view of a code-assembly or code-rendering result.
pub open spec fn code_result_view(r: Result<String, RuntimeError>) -> Result<
    Seq<char>,
    RuntimeError,
> {
    match r {
        Ok(code) => Ok(code@),
        Err(e) => Err(e),
    }
}

impl EmbeddedResources {
    /// The resource set baked into this crate.
    pub fn baked() -> (r: EmbeddedResources)
        ensures
            r@ == baked_resources(),
    {
        EmbeddedResources {
            runtime_none: Some(String::from_str(RUNTIME_NONE_FRAGMENT)),
            runtime_nodejs: Some(String::from_str(RUNTIME_NODEJS_FRAGMENT)),
            runtime_dom: Some(String::from_str(RUNTIME_DOM_FRAGMENT)),
            runtime_shared: Some(String::from_str(RUNTIME_SHARED_FRAGMENT)),
        }
    }
}

/// Assembles the bootstrap code for a loading strategy: the strategy-specific
/// fragment, then the shared fragment, inside the guarded block. Fails
/// exactly when the selected strategy's fragment or the shared fragment is
/// absent from the resource set.
pub fn assemble_runtime_code(resources: &EmbeddedResources, strategy: ChunkLoading) -> (r: Result<
    String,
    RuntimeError,
>)
    ensures
        code_result_view(r) == assembled_code(resources@, strategy),
{
    let mut code = String::from_str(RUNTIME_GUARD_OPEN);

    let specific: &String = match strategy {
        ChunkLoading::NoLoading => match &resources.runtime_none {
            Some(fragment) => fragment,
            None => {
                return Err(RuntimeError::SpecificRuntimeCodeNotFound);
            },
        },
        ChunkLoading::NodeJs => match &resources.runtime_nodejs {
            Some(fragment) => fragment,
            None => {
                return Err(RuntimeError::SpecificRuntimeCodeNotFound);
            },
        },
        ChunkLoading::Dom => match &resources.runtime_dom {
            Some(fragment) => fragment,
            None => {
                return Err(RuntimeError::SpecificRuntimeCodeNotFound);
            },
        },
    };
    code.append(specific.as_str());

    let shared: &String = match &resources.runtime_shared {
        Some(fragment) => fragment,
        None => {
            return Err(RuntimeError::SharedRuntimeCodeNotFound);
        },
    };
    code.append(shared.as_str());
    code.append(RUNTIME_GUARD_CLOSE);
    Ok(code)
}

/// Strategy selection exhaustiveness: with the baked resources, assembly
/// succeeds for every loading strategy, and the assembled code holds the
/// strategy's fragment and then the shared fragment, in that order, inside
/// the guard.
pub proof fn lemma_strategy_selection_exhaustive(strategy: ChunkLoading)
    ensures
        assembled_code(baked_resources(), strategy) is Ok,
        ({
            let code = assembled_code(baked_resources(), strategy)->Ok_0;
            let fragment = strategy_fragment(baked_resources(), strategy)->0;
            let open_len = RUNTIME_GUARD_OPEN@.len() as int;
            let shared_at = open_len + fragment.len();
            &&& code.subrange(open_len, shared_at) == fragment
            &&& code.subrange(shared_at, shared_at + RUNTIME_SHARED_FRAGMENT@.len())
                == RUNTIME_SHARED_FRAGMENT@
        }),
{
    let code = assembled_code(baked_resources(), strategy)->Ok_0;
    let fragment = strategy_fragment(baked_resources(), strategy)->0;
    let open_len = RUNTIME_GUARD_OPEN@.len() as int;
    let shared_at = open_len + fragment.len();
    assert(code.subrange(open_len, shared_at) =~= fragment);
    assert(code.subrange(shared_at, shared_at + RUNTIME_SHARED_FRAGMENT@.len())
        =~= RUNTIME_SHARED_FRAGMENT@);
}

} // verus!
