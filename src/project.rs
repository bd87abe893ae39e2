use vstd::prelude::*;
use vstd::multiset::Multiset;
use vstd::seq_lib::to_multiset_insert;

use crate::checksum::{checksum_of, compute_checksum, is_lower_hex};

verus! {

broadcast use vstd::multiset::group_multiset_axioms, vstd::seq_lib::group_to_multiset_ensures;

/// Metadata that identifies and summarizes a project.
#[derive(Debug, Clone)]
pub struct ProjectManifest {
    pub id: String,
    pub name: String,
    pub created_at: u64,
    pub updated_at: u64,
    pub version: String,
    pub canvas_checksum: String,
}

/// An asset of a project; `metadata` is a JSON document, as its text.
#[derive(Debug, Clone)]
pub struct AssetPayload {
    pub id: String,
    pub project_id: String,
    pub kind: String,
    pub uri: String,
    pub metadata: String,
    pub created_at: u64,
    pub updated_at: u64,
}

/// One generation request of a project and its outcome.
#[derive(Debug, Clone)]
pub struct GenerationRecord {
    pub id: String,
    pub prompt: String,
    pub session_id: String,
    pub status: String,
    pub result_uris: Vec<String>,
    pub error: Option<String>,
    pub created_at: u64,
    pub completed_at: Option<u64>,
}

/// A whole project; `canvas` is the canvas document as canonical JSON text.
#[derive(Debug, Clone)]
pub struct ProjectPayload {
    pub manifest: ProjectManifest,
    pub canvas: String,
    pub assets: Vec<AssetPayload>,
    pub history: Vec<GenerationRecord>,
}

/// A project as listed: its manifest and how many assets and history
/// records it has.
#[derive(Debug, Clone)]
pub struct ProjectSummary {
    pub manifest: ProjectManifest,
    pub assets: u64,
    pub history: u64,
}

/// What was read from one directory under the project root: its manifest
/// where one could be read and parsed, and the lengths of its asset and
/// history lists where those could.
#[derive(Debug, Clone)]
pub struct ScannedProject {
    pub manifest: Option<ProjectManifest>,
    pub assets: Option<u64>,
    pub history: Option<u64>,
}

/// Schema version of the documents that this store writes.
pub open spec fn schema_version() -> Seq<char> {
    "1.0.0"@
}

/// The canvas document of a project that has none yet: an empty JSON object.
pub open spec fn empty_canvas() -> Seq<char> {
    "{}"@
}

/// The message of `save` for a payload without an id.
pub open spec fn empty_id_message() -> Seq<char> {
    "project id must not be empty"@
}

/// Where a project's document `stem` lies: `<root>/<id>/<stem>.json`.
pub open spec fn document_at(root: Seq<char>, id: Seq<char>, stem: Seq<char>) -> Seq<char> {
    root + "/"@ + id + "/"@ + stem + ".json"@
}

/// The summary that lists a scanned directory, if it has a manifest; a count
/// that could not be read is zero.
pub open spec fn summary_of(p: ScannedProject) -> Option<ProjectSummary> {
    match p.manifest {
        Some(m) => Some(
            ProjectSummary {
                manifest: m,
                assets: match p.assets {
                    Some(n) => n,
                    None => 0,
                },
                history: match p.history {
                    Some(n) => n,
                    None => 0,
                },
            },
        ),
        None => None,
    }
}

/// The summaries that a scan yields, without order.
pub open spec fn listed(s: Seq<ScannedProject>) -> Multiset<ProjectSummary>
    decreases s.len(),
{
    if s.len() == 0 {
        Multiset::empty()
    } else {
        match summary_of(s.last()) {
            Some(x) => listed(s.drop_last()).insert(x),
            None => listed(s.drop_last()),
        }
    }
}

/// Most recently updated first.
pub open spec fn newest_first(s: Seq<ProjectSummary>) -> bool {
    forall|i: int, j: int|
        0 <= i < j < s.len() ==> s[i].manifest.updated_at >= s[j].manifest.updated_at
}

/// `saved` is what saving `payload` at time `now` yields: the manifest keeps
/// all but its update time, which becomes `now`, and its checksum, which
/// becomes that of the canvas; the documents are kept as they are.
pub open spec fn saved_from(saved: ProjectPayload, payload: ProjectPayload, now: u64) -> bool {
    &&& saved.manifest.id == payload.manifest.id
    &&& saved.manifest.name == payload.manifest.name
    &&& saved.manifest.created_at == payload.manifest.created_at
    &&& saved.manifest.version == payload.manifest.version
    &&& saved.manifest.updated_at == now
    &&& saved.manifest.canvas_checksum@ == checksum_of(payload.canvas@)
    &&& saved.canvas == payload.canvas
    &&& saved.assets == payload.assets
    &&& saved.history == payload.history
}

/// `loaded` is the project made of a manifest and of the documents read
/// beside it; a document that could not be read counts as empty.
pub open spec fn loaded_from(
    loaded: ProjectPayload,
    manifest: ProjectManifest,
    canvas: Option<String>,
    assets: Option<Vec<AssetPayload>>,
    history: Option<Vec<GenerationRecord>>,
) -> bool {
    &&& loaded.manifest == manifest
    &&& match canvas {
        Some(c) => loaded.canvas == c,
        None => loaded.canvas@ == empty_canvas(),
    }
    &&& match assets {
        Some(a) => loaded.assets == a,
        None => loaded.assets@.len() == 0,
    }
    &&& match history {
        Some(h) => loaded.history == h,
        None => loaded.history@.len() == 0,
    }
}

/// A fresh project named `name` with the id `id`, created at `now`.
pub open spec fn created_as(p: ProjectPayload, id: Seq<char>, name: Seq<char>, now: u64) -> bool {
    &&& p.manifest.id@ == id
    &&& p.manifest.name@ == name
    &&& p.manifest.created_at == now
    &&& p.manifest.updated_at == now
    &&& p.manifest.version@ == schema_version()
    &&& p.manifest.canvas_checksum@ == checksum_of(empty_canvas())
    &&& p.canvas@ == empty_canvas()
    &&& p.assets@.len() == 0
    &&& p.history@.len() == 0
}

/// Relies on uuid's `Uuid::new_v4` and its `simple` form: a random version-4
/// UUID written as 32 lower-case hex digits without hyphens.
#[verifier::external_body]
fn new_project_id() -> (r: String)
    ensures
        r@.len() == 32,
        forall|i: int| 0 <= i < r@.len() ==> is_lower_hex(#[trigger] r@[i]),
{
    uuid::Uuid::new_v4().simple().to_string()
}

/// Inserts `s` into a list kept newest first, after the entries that are at
/// least as recent.
fn insert_newest_first(out: &mut Vec<ProjectSummary>, s: ProjectSummary)
    requires
        newest_first(old(out)@),
    ensures
        newest_first(final(out)@),
        final(out)@.to_multiset() == old(out)@.to_multiset().insert(s),
{
    let key = s.manifest.updated_at;
    let mut pos: usize = 0;
    while pos < out.len() && out[pos].manifest.updated_at >= key
        invariant
            pos <= out@.len(),
            forall|j: int| 0 <= j < pos ==> out@[j].manifest.updated_at >= key,
        decreases out@.len() - pos,
    {
        pos = pos + 1;
    }
    proof {
        to_multiset_insert(out@, pos as int, s);
    }
    let ghost before = out@;
    out.insert(pos, s);
    assert(newest_first(out@)) by {
        assert forall|i: int, j: int| 0 <= i < j < out@.len() implies
            out@[i].manifest.updated_at >= out@[j].manifest.updated_at by {
            if j < pos {
            } else if j == pos {
            } else if i < pos {
                assert(before[j - 1].manifest.updated_at <= before[pos as int].manifest.updated_at);
            } else if i == pos {
                assert(before[j - 1].manifest.updated_at <= before[pos as int].manifest.updated_at);
            } else {
            }
        }
    }
}

/// The projects, as directories of four JSON documents under one root.
#[derive(Clone)]
pub struct ProjectManager {
    root: String,
}

impl ProjectManager {
    /// The directory that holds one directory per project.
    pub closed spec fn root_dir(&self) -> Seq<char> {
        self.root@
    }

    /// A store of projects under `root`.
    pub fn new(root: String) -> (r: ProjectManager)
        ensures
            r.root_dir() == root@,
    {
        ProjectManager { root }
    }

    /// The store of this application under the platform's data directory
    /// `data_dir`: its `DreamCanvas/projects` directory.
    pub fn in_data_dir(data_dir: &str) -> (r: ProjectManager)
        ensures
            r.root_dir() == data_dir@ + "/DreamCanvas/projects"@,
    {
        ProjectManager::new(data_dir.to_owned().concat("/DreamCanvas/projects"))
    }

    /// The directory that holds one directory per project.
    pub fn root(&self) -> (r: String)
        ensures
            r@ == self.root_dir(),
    {
        self.root.clone()
    }

    /// The directory of the project `project_id`.
    pub fn project_dir(&self, project_id: &str) -> (r: String)
        ensures
            r@ == self.root_dir() + "/"@ + project_id@,
    {
        self.root.clone().concat("/").concat(project_id)
    }

    /// Path of the JSON document `stem` of the project `project_id`.
    pub fn document_path(&self, project_id: &str, stem: &str) -> (r: String)
        ensures
            r@ == document_at(self.root_dir(), project_id@, stem@),
    {
        self.project_dir(project_id).concat("/").concat(stem).concat(".json")
    }

    /// Path of the manifest document of a project.
    pub fn manifest_path(&self, project_id: &str) -> (r: String)
        ensures
            r@ == document_at(self.root_dir(), project_id@, "manifest"@),
    {
        self.document_path(project_id, "manifest")
    }

    /// Path of the canvas document of a project.
    pub fn canvas_path(&self, project_id: &str) -> (r: String)
        ensures
            r@ == document_at(self.root_dir(), project_id@, "canvas"@),
    {
        self.document_path(project_id, "canvas")
    }

    /// Path of the asset list of a project.
    pub fn assets_path(&self, project_id: &str) -> (r: String)
        ensures
            r@ == document_at(self.root_dir(), project_id@, "assets"@),
    {
        self.document_path(project_id, "assets")
    }

    /// Path of the generation history of a project.
    pub fn history_path(&self, project_id: &str) -> (r: String)
        ensures
            r@ == document_at(self.root_dir(), project_id@, "history"@),
    {
        self.document_path(project_id, "history")
    }

    /// The summaries of the scanned directories that have a manifest, most
    /// recently updated first.
    pub fn list(&self, scanned: Vec<ScannedProject>) -> (r: Vec<ProjectSummary>)
        ensures
            r@.to_multiset() == listed(scanned@),
            newest_first(r@),
    {
        let ghost all = scanned@;
        let mut rest = scanned;
        let mut out: Vec<ProjectSummary> = Vec::new();
        assert(out@.to_multiset().add(listed(rest@)) =~= listed(all));
        while rest.len() > 0
            invariant
                newest_first(out@),
                out@.to_multiset().add(listed(rest@)) == listed(all),
            decreases rest@.len(),
        {
            let ghost before = rest@;
            let item = rest.pop().unwrap();
            assert(rest@ == before.drop_last());
            let ScannedProject { manifest, assets, history } = item;
            match manifest {
                Some(m) => {
                    let summary = ProjectSummary {
                        manifest: m,
                        assets: match assets {
                            Some(n) => n,
                            None => 0,
                        },
                        history: match history {
                            Some(n) => n,
                            None => 0,
                        },
                    };
                    let ghost prev = out@.to_multiset();
                    insert_newest_first(&mut out, summary);
                    assert(out@.to_multiset().add(listed(rest@)) =~= prev.add(listed(before)));
                },
                None => {},
            }
        }
        assert(listed(rest@) =~= Multiset::empty());
        assert(out@.to_multiset().add(listed(rest@)) =~= out@.to_multiset());
        out
    }

    /// Brings a payload up to date for writing: refreshes the manifest's
    /// update time and canvas checksum. A payload without an id is refused.
    pub fn save(&self, payload: ProjectPayload, now: u64) -> (r: Result<ProjectPayload, String>)
        ensures
            r is Err <==> payload.manifest.id@.len() == 0,
            r is Err ==> r->Err_0@ == empty_id_message(),
            r is Ok ==> saved_from(r->Ok_0, payload, now),
    {
        if payload.manifest.id.as_str().is_empty() {
            return Err(String::from_str("project id must not be empty"));
        }
        let checksum = compute_checksum(&payload.canvas);
        let ProjectPayload { manifest, canvas, assets, history } = payload;
        let ProjectManifest { id, name, created_at, updated_at: _, version, canvas_checksum: _ } =
            manifest;
        let manifest = ProjectManifest {
            id,
            name,
            created_at,
            updated_at: now,
            version,
            canvas_checksum: checksum,
        };
        Ok(ProjectPayload { manifest, canvas, assets, history })
    }

    /// A fresh project with the id `id`, named `name` and created at `now`,
    /// ready to be written.
    pub fn create_with_id(&self, id: String, name: String, now: u64) -> (r: Result<ProjectPayload, String>)
        ensures
            r is Err <==> id@.len() == 0,
            r is Ok ==> created_as(r->Ok_0, id@, name@, now),
    {
        let manifest = ProjectManifest {
            id,
            name,
            created_at: now,
            updated_at: now,
            version: String::from_str("1.0.0"),
            canvas_checksum: String::new(),
        };
        let payload = ProjectPayload {
            manifest,
            canvas: String::from_str("{}"),
            assets: Vec::new(),
            history: Vec::new(),
        };
        self.save(payload, now)
    }

    /// A fresh project named `name`, created at `now`, under a new random id
    /// of 32 lower-case hex digits, ready to be written.
    pub fn create(&self, name: String, now: u64) -> (r: Result<ProjectPayload, String>)
        ensures
            r is Ok,
            r->Ok_0.manifest.id@.len() == 32,
            forall|i: int|
                0 <= i < 32 ==> is_lower_hex(#[trigger] r->Ok_0.manifest.id@[i]),
            created_as(r->Ok_0, r->Ok_0.manifest.id@, name@, now),
    {
        let id = new_project_id();
        self.create_with_id(id, name, now)
    }

    /// A project made of its manifest and of the documents read beside it. A
    /// manifest that could not be read fails the load; a missing or corrupt
    /// canvas, asset list or history counts as empty.
    pub fn load(
        &self,
        manifest: Result<ProjectManifest, String>,
        canvas: Option<String>,
        assets: Option<Vec<AssetPayload>>,
        history: Option<Vec<GenerationRecord>>,
    ) -> (r: Result<ProjectPayload, String>)
        ensures
            manifest is Err ==> r is Err && r->Err_0 == manifest->Err_0,
            manifest is Ok ==> r is Ok && loaded_from(r->Ok_0, manifest->Ok_0, canvas, assets, history),
    {
        match manifest {
            Err(e) => Err(e),
            Ok(m) => {
                let canvas = match canvas {
                    Some(c) => c,
                    None => String::from_str("{}"),
                };
                let assets = match assets {
                    Some(a) => a,
                    None => Vec::new(),
                };
                let history = match history {
                    Some(h) => h,
                    None => Vec::new(),
                };
                Ok(ProjectPayload { manifest: m, canvas, assets, history })
            },
        }
    }
}


/// Saving a payload and loading back the documents that were saved gives the
/// saved manifest, whose checksum is that of the saved canvas, and exactly the
/// assets and history that were saved.
pub proof fn lemma_save_then_load(
    payload: ProjectPayload,
    now: u64,
    saved: ProjectPayload,
    loaded: ProjectPayload,
)
    requires
        saved_from(saved, payload, now),
        loaded_from(
            loaded,
            saved.manifest,
            Some(saved.canvas),
            Some(saved.assets),
            Some(saved.history),
        ),
    ensures
        loaded.manifest == saved.manifest,
        loaded.manifest.canvas_checksum@ == checksum_of(loaded.canvas@),
        loaded.canvas == payload.canvas,
        loaded.assets == payload.assets,
        loaded.history == payload.history,
{
}

/// A listing holds only summaries of scanned directories that have a manifest.
pub proof fn lemma_listed_have_manifests(s: Seq<ScannedProject>, x: ProjectSummary)
    requires
        listed(s).count(x) > 0,
    ensures
        exists|i: int|
            0 <= i < s.len() && s[i].manifest is Some && #[trigger] summary_of(s[i]) == Some(x),
    decreases s.len(),
{
    if s.len() > 0 {
        let rest = s.drop_last();
        if summary_of(s.last()) == Some(x) {
            assert(summary_of(s[s.len() - 1]) == Some(x));
        } else {
            lemma_listed_have_manifests(rest, x);
            let i = choose|i: int|
                0 <= i < rest.len() && rest[i].manifest is Some && #[trigger] summary_of(rest[i])
                    == Some(x);
            assert(s[i] == rest[i]);
        }
    }
}

} // verus!
