use dreamcanvas_shell::{
    compute_checksum, AssetPayload, GenerationRecord, ProjectManager, ProjectManifest,
    ProjectPayload, ScannedProject,
};

fn manifest(id: &str, updated_at: u64) -> ProjectManifest {
    ProjectManifest {
        id: id.to_string(),
        name: format!("project {id}"),
        created_at: 1,
        updated_at,
        version: "1.0.0".to_string(),
        canvas_checksum: String::new(),
    }
}

fn scanned(id: &str, updated_at: u64) -> ScannedProject {
    ScannedProject { manifest: Some(manifest(id, updated_at)), assets: Some(2), history: None }
}

fn asset() -> AssetPayload {
    AssetPayload {
        id: "a1".to_string(),
        project_id: "p1".to_string(),
        kind: "image".to_string(),
        uri: "file:///x.png".to_string(),
        metadata: "{\"w\":3}".to_string(),
        created_at: 5,
        updated_at: 6,
    }
}

fn record() -> GenerationRecord {
    GenerationRecord {
        id: "g1".to_string(),
        prompt: "a cat".to_string(),
        session_id: "s1".to_string(),
        status: "done".to_string(),
        result_uris: vec!["file:///r.png".to_string()],
        error: None,
        created_at: 7,
        completed_at: Some(9),
    }
}

fn store() -> ProjectManager {
    ProjectManager::new("/data/projects".to_string())
}

#[test]
fn list_orders_newest_first() {
    let list = store().list(vec![scanned("a", 100), scanned("b", 200)]);
    let ids: Vec<&str> = list.iter().map(|s| s.manifest.id.as_str()).collect();
    assert_eq!(ids, vec!["b", "a"]);
}

#[test]
fn list_skips_directories_without_manifest() {
    let bare = ScannedProject { manifest: None, assets: Some(4), history: Some(4) };
    let list = store().list(vec![scanned("a", 100), bare, scanned("c", 50), scanned("b", 300)]);
    let ids: Vec<&str> = list.iter().map(|s| s.manifest.id.as_str()).collect();
    assert_eq!(ids, vec!["b", "a", "c"]);
}

#[test]
fn list_counts_missing_documents_as_zero() {
    let list = store().list(vec![scanned("a", 100)]);
    assert_eq!(list[0].assets, 2);
    assert_eq!(list[0].history, 0);
}

#[test]
fn list_of_nothing_is_empty() {
    assert!(store().list(Vec::new()).is_empty());
}

#[test]
fn save_rejects_empty_id() {
    let payload = ProjectPayload {
        manifest: manifest("", 1),
        canvas: "{}".to_string(),
        assets: Vec::new(),
        history: Vec::new(),
    };
    assert_eq!(store().save(payload, 10).unwrap_err(), "project id must not be empty");
}

#[test]
fn save_refreshes_time_and_checksum() {
    let payload = ProjectPayload {
        manifest: manifest("p1", 1),
        canvas: "{\"layers\":[]}".to_string(),
        assets: vec![asset()],
        history: vec![record()],
    };
    let saved = store().save(payload, 1234).unwrap();
    assert_eq!(saved.manifest.updated_at, 1234);
    assert_eq!(saved.manifest.created_at, 1);
    assert_eq!(saved.manifest.name, "project p1");
    assert_eq!(saved.manifest.canvas_checksum, compute_checksum(&"{\"layers\":[]}".to_string()));
    assert_eq!(saved.assets.len(), 1);
    assert_eq!(saved.history[0].prompt, "a cat");
}

#[test]
fn save_then_load_round_trip() {
    let m = store();
    let payload = ProjectPayload {
        manifest: manifest("p1", 1),
        canvas: "{\"k\":true}".to_string(),
        assets: vec![asset()],
        history: vec![record()],
    };
    let saved = m.save(payload, 77).unwrap();
    let loaded = m
        .load(
            Ok(saved.manifest.clone()),
            Some(saved.canvas.clone()),
            Some(saved.assets.clone()),
            Some(saved.history.clone()),
        )
        .unwrap();
    assert_eq!(loaded.manifest.canvas_checksum, compute_checksum(&"{\"k\":true}".to_string()));
    assert_eq!(loaded.canvas, "{\"k\":true}");
    assert_eq!(loaded.assets[0].metadata, "{\"w\":3}");
    assert_eq!(loaded.history[0].result_uris, vec!["file:///r.png".to_string()]);
    assert_eq!(loaded.history[0].completed_at, Some(9));
}

#[test]
fn load_without_manifest_fails() {
    let r = store().load(Err("no such file".to_string()), None, None, None);
    assert_eq!(r.unwrap_err(), "no such file");
}

#[test]
fn load_defaults_missing_documents() {
    let p = store().load(Ok(manifest("p2", 3)), None, None, None).unwrap();
    assert_eq!(p.canvas, "{}");
    assert!(p.assets.is_empty());
    assert!(p.history.is_empty());
    assert_eq!(p.manifest.id, "p2");
}

#[test]
fn create_foo() {
    let p = store().create("Foo".to_string(), 500).unwrap();
    assert_eq!(p.manifest.id.len(), 32);
    assert!(p.manifest.id.chars().all(|c| c.is_ascii_digit() || ('a'..='f').contains(&c)));
    assert_eq!(p.manifest.name, "Foo");
    assert_eq!(p.manifest.created_at, 500);
    assert_eq!(p.manifest.updated_at, 500);
    assert_eq!(p.manifest.version, "1.0.0");
    assert_eq!(p.canvas, "{}");
    assert_eq!(
        p.manifest.canvas_checksum,
        "44136fa355b3678a1146ad16f7e8649e94fb4fc21fe77e8310c060f61caaff8a"
    );
    assert!(p.assets.is_empty());
    assert!(p.history.is_empty());
}

#[test]
fn create_gives_distinct_ids() {
    let m = store();
    let a = m.create("A".to_string(), 1).unwrap();
    let b = m.create("B".to_string(), 1).unwrap();
    assert_ne!(a.manifest.id, b.manifest.id);
}

#[test]
fn create_with_id_is_exact() {
    let p = store().create_with_id("abc".to_string(), "Foo".to_string(), 9).unwrap();
    assert_eq!(p.manifest.id, "abc");
    assert_eq!(p.manifest.created_at, p.manifest.updated_at);
}

#[test]
fn create_with_empty_id_fails() {
    assert!(store().create_with_id(String::new(), "Foo".to_string(), 9).is_err());
}

fn document(stem: &str) -> String {
    format!("/data/projects/p1/{stem}.json")
}

#[test]
fn paths_of_a_project() {
    let m = store();
    assert_eq!(m.root(), "/data/projects");
    assert_eq!(m.project_dir("p1"), "/data/projects/p1");
    assert_eq!(m.manifest_path("p1"), document("manifest"));
    assert_eq!(m.canvas_path("p1"), document("canvas"));
    assert_eq!(m.assets_path("p1"), document("assets"));
    assert_eq!(m.history_path("p1"), document("history"));
    assert_eq!(m.document_path("p1", "extra"), document("extra"));
}

#[test]
fn store_root_under_data_dir() {
    let m = ProjectManager::in_data_dir("/home/u/.local/share");
    assert_eq!(m.root(), "/home/u/.local/share/DreamCanvas/projects");
}
