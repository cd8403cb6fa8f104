use dev_chunk_runtime::dev_runtime::EcmascriptDevChunkRuntime;
use dev_chunk_runtime::model::AssetIdent;
use dev_chunk_runtime::model::Chunk;
use dev_chunk_runtime::model::ChunkGroup;
use dev_chunk_runtime::model::ChunkLoading;
use dev_chunk_runtime::model::ChunkingContext;
use dev_chunk_runtime::runtime::EcmascriptChunkRuntime;

fn chunk(path: &str) -> Chunk {
    Chunk { path: path.to_string(), main_entries: Vec::new() }
}

fn runtime() -> EcmascriptDevChunkRuntime {
    let ctx = ChunkingContext {
        output_root: "/out".to_string(),
        chunk_loading: ChunkLoading::Dom,
    };
    EcmascriptDevChunkRuntime::new(ctx, "/out/list-main.json".to_string())
}

#[test]
fn new_runtime_has_no_chunk_group_override() {
    let rt = runtime();
    assert!(rt.chunk_group.is_none());
    assert_eq!(rt.chunk_list_path, "/out/list-main.json");
    assert_eq!(rt.chunking_context.output_root, "/out");
}

#[test]
fn to_string_names_the_variant() {
    assert_eq!(runtime().to_string(), "Ecmascript Dev Runtime");
}

#[test]
fn decorate_asset_ident_appends_the_chunk_list_modifier() {
    let rt = runtime();
    let ident = AssetIdent {
        path: "/src/entry.js".to_string(),
        modifiers: vec!["existing".to_string()],
    };
    let decorated = rt.decorate_asset_ident(&ident);
    assert_eq!(decorated.path, "/src/entry.js");
    assert_eq!(
        decorated.modifiers,
        vec!["existing".to_string(), "chunk list /out/list-main.json".to_string()]
    );
    // the original descriptor is untouched
    assert_eq!(ident.modifiers, vec!["existing".to_string()]);
}

#[test]
fn references_report_one_chunk_list_edge() {
    let rt = runtime();
    let origin = chunk("/out/b.js");
    let refs = rt.references(&origin);
    assert_eq!(refs.len(), 1);
    assert_eq!(refs[0].output_root, "/out");
    assert_eq!(refs[0].chunk_list_path, "/out/list-main.json");
    assert_eq!(refs[0].chunk_group.chunks, vec![chunk("/out/b.js")]);
}

#[test]
fn with_chunk_group_pins_the_derived_instance_to_the_override() {
    let rt = runtime();
    let origin = chunk("/out/b.js");
    let group = ChunkGroup { chunks: vec![chunk("/out/a.js"), chunk("/out/b.js")] };
    let derived = rt.with_chunk_group(&group);
    let refs = derived.references(&origin);
    assert_eq!(refs[0].chunk_group.chunks, group.chunks);
    assert_eq!(refs[0].chunk_list_path, "/out/list-main.json");
}

#[test]
fn with_chunk_group_leaves_the_original_instance_unaffected() {
    let rt = runtime();
    let origin = chunk("/out/b.js");
    let before = rt.references(&origin);
    let group = ChunkGroup { chunks: vec![chunk("/out/a.js"), chunk("/out/b.js")] };
    let _derived = rt.with_chunk_group(&group);
    let after = rt.references(&origin);
    assert_eq!(before, after);
    assert!(rt.chunk_group.is_none());
    assert_eq!(after[0].chunk_group.chunks, vec![chunk("/out/b.js")]);
}

#[test]
fn override_changes_dependencies_without_moving_the_chunk_list() {
    let rt = runtime();
    let origin = chunk("/out/b.js");
    let group = ChunkGroup {
        chunks: vec![chunk("/out/a.js"), chunk("/out/b.js"), chunk("/out/c.js")],
    };
    let derived = rt.with_chunk_group(&group);
    let original_params = rt.params(&origin).unwrap();
    let derived_params = derived.params(&origin).unwrap();
    assert!(original_params.contains("\"chunkDependencies\":[]"));
    assert!(derived_params.contains("\"chunkDependencies\":[\"a.js\",\"c.js\"]"));
    assert!(original_params.contains("\"chunkListPath\":\"list-main.json\""));
    assert!(derived_params.contains("\"chunkListPath\":\"list-main.json\""));
}
