use dev_chunk_runtime::dev_runtime::EcmascriptDevChunkRuntime;
use dev_chunk_runtime::model::Chunk;
use dev_chunk_runtime::model::ChunkGroup;
use dev_chunk_runtime::model::ChunkLoading;
use dev_chunk_runtime::model::ChunkingContext;
use dev_chunk_runtime::model::ModuleId;
use dev_chunk_runtime::model::RuntimeError;
use dev_chunk_runtime::params::resolve_runtime_params;
use dev_chunk_runtime::runtime::EcmascriptChunkRuntime;

fn chunk(path: &str) -> Chunk {
    Chunk { path: path.to_string(), main_entries: Vec::new() }
}

fn chunk_with_entries(path: &str, entries: Vec<ModuleId>) -> Chunk {
    Chunk { path: path.to_string(), main_entries: entries }
}

fn dom_context(output_root: &str) -> ChunkingContext {
    ChunkingContext { output_root: output_root.to_string(), chunk_loading: ChunkLoading::Dom }
}

#[test]
fn resolves_dependencies_module_ids_and_chunk_list_path() {
    let group = Some(ChunkGroup {
        chunks: vec![chunk("/out/a.js"), chunk("/out/b.js"), chunk("/out/c.js")],
    });
    let origin = chunk_with_entries(
        "/out/b.js",
        vec![ModuleId::Str("mod:1".to_string()), ModuleId::Str("mod:2".to_string())],
    );
    let params =
        resolve_runtime_params("/out", &group, "/out/list-main.json", &origin).unwrap();
    assert_eq!(params.chunk_dependencies, vec!["a.js".to_string(), "c.js".to_string()]);
    assert_eq!(
        params.runtime_module_ids,
        vec![ModuleId::Str("mod:1".to_string()), ModuleId::Str("mod:2".to_string())]
    );
    assert_eq!(params.chunk_list_path, "list-main.json");
}

#[test]
fn origin_as_sole_group_member_has_no_dependencies() {
    let group = Some(ChunkGroup { chunks: vec![chunk("/out/b.js")] });
    let origin = chunk_with_entries("/out/b.js", vec![ModuleId::Str("mod:1".to_string())]);
    let params =
        resolve_runtime_params("/out", &group, "/out/list-main.json", &origin).unwrap();
    assert_eq!(params.chunk_dependencies, Vec::<String>::new());
}

#[test]
fn no_override_synthesizes_singleton_group_from_origin() {
    let origin = chunk("/out/b.js");
    let params = resolve_runtime_params("/out", &None, "/out/list.json", &origin).unwrap();
    assert_eq!(params.chunk_dependencies, Vec::<String>::new());
    assert_eq!(params.chunk_list_path, "list.json");
}

#[test]
fn sibling_outside_output_root_is_silently_omitted() {
    let group = Some(ChunkGroup {
        chunks: vec![chunk("/out/a.js"), chunk("/elsewhere/d.js"), chunk("/out/b.js")],
    });
    let origin = chunk("/out/b.js");
    let params =
        resolve_runtime_params("/out", &group, "/out/list-main.json", &origin).unwrap();
    assert_eq!(params.chunk_dependencies, vec!["a.js".to_string()]);
}

#[test]
fn origin_outside_output_root_fails_the_whole_request() {
    let group = Some(ChunkGroup { chunks: vec![chunk("/out/a.js")] });
    let origin = chunk("/elsewhere/b.js");
    let result = resolve_runtime_params("/out", &group, "/out/list.json", &origin);
    assert_eq!(result.unwrap_err(), RuntimeError::OriginChunkOutsideOutputRoot);
}

#[test]
fn chunk_list_outside_output_root_fails_the_whole_request() {
    let origin = chunk("/out/b.js");
    let result = resolve_runtime_params("/out", &None, "/elsewhere/list.json", &origin);
    assert_eq!(result.unwrap_err(), RuntimeError::ChunkListPathOutsideOutputRoot);
}

#[test]
fn origin_failure_takes_precedence_over_chunk_list_failure() {
    let origin = chunk("/elsewhere/b.js");
    let result = resolve_runtime_params("/out", &None, "/elsewhere/list.json", &origin);
    assert_eq!(result.unwrap_err(), RuntimeError::OriginChunkOutsideOutputRoot);
}

#[test]
fn dependency_order_follows_group_order() {
    let group = Some(ChunkGroup {
        chunks: vec![chunk("/out/z.js"), chunk("/out/m.js"), chunk("/out/a.js")],
    });
    let origin = chunk("/out/m.js");
    let params = resolve_runtime_params("/out", &group, "/out/list.json", &origin).unwrap();
    assert_eq!(params.chunk_dependencies, vec!["z.js".to_string(), "a.js".to_string()]);
}

#[test]
fn every_group_member_resolving_to_the_origin_path_is_excluded() {
    let group = Some(ChunkGroup {
        chunks: vec![chunk("/out/b.js"), chunk("/out/a.js"), chunk("/out/b.js")],
    });
    let origin = chunk("/out/b.js");
    let params = resolve_runtime_params("/out", &group, "/out/list.json", &origin).unwrap();
    assert_eq!(params.chunk_dependencies, vec!["a.js".to_string()]);
}

#[test]
fn module_ids_keep_declaration_order_and_duplicates() {
    let origin = chunk_with_entries(
        "/out/b.js",
        vec![
            ModuleId::Number(2),
            ModuleId::Str("m".to_string()),
            ModuleId::Number(2),
        ],
    );
    let params = resolve_runtime_params("/out", &None, "/out/list.json", &origin).unwrap();
    assert_eq!(
        params.runtime_module_ids,
        vec![ModuleId::Number(2), ModuleId::Str("m".to_string()), ModuleId::Number(2)]
    );
}

#[test]
fn params_render_the_expected_literal() {
    let ctx = dom_context("/out");
    let runtime = EcmascriptDevChunkRuntime::new(ctx, "/out/list-main.json".to_string());
    let origin = chunk_with_entries(
        "/out/b.js",
        vec![ModuleId::Str("mod:1".to_string()), ModuleId::Number(7)],
    );
    let group = ChunkGroup {
        chunks: vec![chunk("/out/a.js"), chunk("/out/b.js"), chunk("/out/c.js")],
    };
    let pinned = runtime.with_chunk_group(&group);
    let code = pinned.params(&origin).unwrap();
    assert_eq!(
        code,
        "{\"chunkListPath\":\"list-main.json\",\"chunkDependencies\":[\"a.js\",\"c.js\"],\"runtimeModuleIds\":[\"mod:1\",7]}"
    );
}

#[test]
fn params_are_deterministic_across_repeated_calls() {
    let ctx = dom_context("/out");
    let runtime = EcmascriptDevChunkRuntime::new(ctx, "/out/list-main.json".to_string());
    let origin = chunk_with_entries("/out/b.js", vec![ModuleId::Str("mod:1".to_string())]);
    let first = runtime.params(&origin).unwrap();
    let second = runtime.params(&origin).unwrap();
    assert_eq!(first, second);
}

#[test]
fn params_of_origin_outside_root_report_the_origin_error() {
    let ctx = dom_context("/out");
    let runtime = EcmascriptDevChunkRuntime::new(ctx, "/out/list.json".to_string());
    let origin = chunk("/elsewhere/b.js");
    assert_eq!(
        runtime.params(&origin).unwrap_err(),
        RuntimeError::OriginChunkOutsideOutputRoot
    );
}
