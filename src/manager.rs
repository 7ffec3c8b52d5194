use vstd::prelude::*;

use crate::scan::{
    info_from_definition, info_matches, join_path, join_path_exec, scanned_registry,
    scanned_status, status_for_probe,
};
use crate::download::{chunk_step, DownloadSession, FULL_PROGRESS};
use crate::types::{
    failure_error, failure_reason, FileProbe, ModelDefinition, ModelError, ModelInfo, ModelStatus,
    TransferFailure,
};
use crate::validate::{header_accepted, leading_bytes, seen_magic, validate_gguf_file};

verus! {

/// No two catalog entries share an identifier.
pub open spec fn definitions_unique(c: Seq<ModelDefinition>) -> bool {
    forall|i: int, j: int| 0 <= i < c.len() && 0 <= j < c.len() && i != j ==> c[i].name@ != c[j].name@
}

/// No two registry records share an identifier.
pub open spec fn infos_unique(r: Seq<ModelInfo>) -> bool {
    forall|i: int, j: int| 0 <= i < r.len() && 0 <= j < r.len() && i != j ==> r[i].name@ != r[j].name@
}

/// The record of model `name` in registry `reg`, if it has one.
pub open spec fn entry(reg: Seq<ModelInfo>, name: Seq<char>) -> Option<ModelInfo> {
    if exists|i: int| 0 <= i < reg.len() && reg[i].name@ == name {
        let i = choose|i: int| 0 <= i < reg.len() && reg[i].name@ == name;
        Some(reg[i])
    } else {
        None
    }
}

/// The catalog entry of model `name`, if the catalog has one.
pub open spec fn definition(c: Seq<ModelDefinition>, name: Seq<char>) -> Option<ModelDefinition> {
    if exists|i: int| 0 <= i < c.len() && c[i].name@ == name {
        let i = choose|i: int| 0 <= i < c.len() && c[i].name@ == name;
        Some(c[i])
    } else {
        None
    }
}

/// Whether one of the first `hi` strings of `s` reads `n`.
pub open spec fn holds_name(s: Seq<String>, hi: int, n: Seq<char>) -> bool {
    exists|k: int| 0 <= k < hi && #[trigger] s[k]@ == n
}

/// `info` with its status replaced by `s`.
pub open spec fn restatus(info: ModelInfo, s: ModelStatus) -> ModelInfo {
    ModelInfo {
        name: info.name,
        display_name: info.display_name,
        status: s,
        path: info.path,
        size_mb: info.size_mb,
        context_size: info.context_size,
        description: info.description,
        gguf_file: info.gguf_file,
    }
}

/// Registry `reg` with the status of model `name` set to `s`; the other
/// records are kept as they are.
pub open spec fn with_status(reg: Seq<ModelInfo>, name: Seq<char>, s: ModelStatus) -> Seq<ModelInfo> {
    reg.map_values(|e: ModelInfo| if e.name@ == name { restatus(e, s) } else { e })
}

/// Whether `after` is registry `before` with the status of model `name` set
/// to `Error`, for some message.
pub open spec fn marked_failed(
    before: Seq<ModelInfo>,
    name: Seq<char>,
    message: Seq<char>,
    after: Seq<ModelInfo>,
) -> bool {
    exists|m: String| m@ == message && after == with_status(before, name, ModelStatus::Error(m))
}

/// The message recorded for a downloaded file that fails the signature check.
pub open spec fn validation_failure_message() -> Seq<char> {
    "downloaded file failed validation"@
}

/// Whether `after` is registry `before` with the record of model `name`
/// marked `Available` at file `path`; the other records are kept as they are.
pub open spec fn marked_available(
    before: Seq<ModelInfo>,
    name: Seq<char>,
    path: Seq<char>,
    after: Seq<ModelInfo>,
) -> bool {
    &&& after.len() == before.len()
    &&& forall|i: int| #![trigger after[i]]
        0 <= i < before.len() ==> if before[i].name@ == name {
            &&& after[i].status == ModelStatus::Available
            &&& after[i].path@ == path
            &&& after[i].name == before[i].name
            &&& after[i].display_name == before[i].display_name
            &&& after[i].size_mb == before[i].size_mb
            &&& after[i].context_size == before[i].context_size
            &&& after[i].description == before[i].description
            &&& after[i].gguf_file == before[i].gguf_file
        } else {
            after[i] == before[i]
        }
}

/// Tracks the models of a catalog: the registry of their statuses, the set of
/// identifiers being downloaded, and the identifier whose download was last
/// asked to stop.
pub struct ModelManager {
    models_dir: String,
    catalog: Vec<ModelDefinition>,
    available_models: Vec<ModelInfo>,
    active_downloads: Vec<String>,
    cancel_download_flag: Option<String>,
}

impl ModelManager {
    /// Directory that holds the model files.
    pub closed spec fn dir(&self) -> Seq<char> {
        self.models_dir@
    }

    /// The catalog the manager was made with.
    pub closed spec fn catalog(&self) -> Seq<ModelDefinition> {
        self.catalog@
    }

    /// The status registry, one record per model.
    pub closed spec fn registry(&self) -> Seq<ModelInfo> {
        self.available_models@
    }

    /// Identifiers whose download is in flight.
    pub closed spec fn active_names(&self) -> Set<Seq<char>> {
        Set::new(|n: Seq<char>| holds_name(self.active_downloads@, self.active_downloads@.len() as int, n))
    }

    /// The identifier whose download was last asked to stop, if any.
    pub closed spec fn cancel_target(&self) -> Option<Seq<char>> {
        match self.cancel_download_flag {
            Some(s) => Some(s@),
            None => None,
        }
    }

    /// Identifiers are unique in the catalog and in the registry.
    pub closed spec fn wf(&self) -> bool {
        definitions_unique(self.catalog@) && infos_unique(self.available_models@)
    }

    /// A well-formed manager's catalog and registry each hold an identifier at
    /// most once.
    pub proof fn lemma_wf_unique(&self)
        requires
            self.wf(),
        ensures
            definitions_unique(self.catalog()),
            infos_unique(self.registry()),
    {
    }

    /// Whether a download of `name` would be accepted now: it is in the
    /// catalog and not already in flight.
    pub open spec fn download_admitted(&self, name: Seq<char>) -> bool {
        !self.active_names().contains(name) && definition(self.catalog(), name) is Some
    }

    /// Makes a manager for the models of `catalog`, kept in `models_dir`.
    /// The registry stays empty until the first scan.
    pub fn new_with_models_dir(models_dir: String, catalog: Vec<ModelDefinition>) -> (r: ModelManager)
        requires
            definitions_unique(catalog@),
        ensures
            r.wf(),
            r.dir() == models_dir@,
            r.catalog() == catalog@,
            r.registry() == Seq::<ModelInfo>::empty(),
            r.active_names() == Set::<Seq<char>>::empty(),
            r.cancel_target() is None,
    {
        let r = ModelManager {
            models_dir,
            catalog,
            available_models: Vec::new(),
            active_downloads: Vec::new(),
            cancel_download_flag: None,
        };
        assert(r.active_names() =~= Set::<Seq<char>>::empty());
        r
    }

    /// The directory that holds the model files.
    pub fn get_models_directory(&self) -> (r: String)
        ensures
            r@ == self.dir(),
    {
        self.models_dir.clone()
    }

    /// The path of each catalog model's file, in catalog order.
    pub fn catalog_paths(&self) -> (r: Vec<String>)
        ensures
            r@.len() == self.catalog().len(),
            forall|i: int| 0 <= i < r@.len() ==> #[trigger] r@[i]@ == join_path(self.dir(), self.catalog()[i].gguf_file@),
    {
        let mut r: Vec<String> = Vec::new();
        let mut i: usize = 0;
        while i < self.catalog.len()
            invariant
                i <= self.catalog@.len(),
                r@.len() == i,
                forall|k: int| 0 <= k < i ==> #[trigger] r@[k]@ == join_path(self.models_dir@, self.catalog@[k].gguf_file@),
            decreases self.catalog@.len() - i,
        {
            r.push(join_path_exec(&self.models_dir, &self.catalog[i].gguf_file));
            i += 1;
        }
        r
    }

    /// Replaces the whole registry with one record per catalog model, judged
    /// from `probes[i]`, what was found at the path of catalog model `i`.
    pub fn scan_models(&mut self, probes: &Vec<FileProbe>)
        requires
            old(self).wf(),
            probes@.len() == old(self).catalog().len(),
        ensures
            final(self).wf(),
            scanned_registry(final(self).registry(), old(self).dir(), old(self).catalog(), probes@),
            final(self).dir() == old(self).dir(),
            final(self).catalog() == old(self).catalog(),
            final(self).active_names() == old(self).active_names(),
            final(self).cancel_target() == old(self).cancel_target(),
    {
        let mut models: Vec<ModelInfo> = Vec::new();
        let mut i: usize = 0;
        while i < self.catalog.len()
            invariant
                i <= self.catalog@.len(),
                probes@.len() == self.catalog@.len(),
                models@.len() == i,
                forall|k: int| 0 <= k < i ==> #[trigger] info_matches(models@[k], self.models_dir@, self.catalog@[k], scanned_status(self.catalog@[k].size_mb, probes@[k])),
            decreases self.catalog@.len() - i,
        {
            let def = &self.catalog[i];
            let status = status_for_probe(def.size_mb, &probes[i]);
            models.push(info_from_definition(&self.models_dir, def, status));
            i += 1;
        }
        proof {
            assert forall|a: int, b: int| 0 <= a < models@.len() && 0 <= b < models@.len() && a != b implies models@[a].name@ != models@[b].name@ by {
                assert(info_matches(models@[a], self.models_dir@, self.catalog@[a], scanned_status(self.catalog@[a].size_mb, probes@[a])));
                assert(info_matches(models@[b], self.models_dir@, self.catalog@[b], scanned_status(self.catalog@[b].size_mb, probes@[b])));
            }
        }
        self.available_models = models;
    }

    /// Every record of the registry.
    pub fn list_models(&self) -> (r: Vec<ModelInfo>)
        ensures
            r@ == self.registry(),
            self.wf() ==> infos_unique(r@),
    {
        let mut r: Vec<ModelInfo> = Vec::new();
        let mut i: usize = 0;
        while i < self.available_models.len()
            invariant
                i <= self.available_models@.len(),
                r@ == self.available_models@.subrange(0, i as int),
            decreases self.available_models@.len() - i,
        {
            r.push(self.available_models[i].duplicate());
            i += 1;
            assert(r@ =~= self.available_models@.subrange(0, i as int));
        }
        assert(r@ =~= self.available_models@);
        r
    }

    fn find_entry(&self, name: &String) -> (r: Option<usize>)
        requires
            self.wf(),
        ensures
            r matches Some(i) ==> i < self.registry().len() && self.registry()[i as int].name@ == name@,
            r is None ==> forall|i: int| 0 <= i < self.registry().len() ==> self.registry()[i].name@ != name@,
            entry(self.registry(), name@) == match r {
                Some(i) => Some(self.registry()[i as int]),
                None => None::<ModelInfo>,
            },
    {
        let mut i: usize = 0;
        while i < self.available_models.len()
            invariant
                i <= self.available_models@.len(),
                forall|k: int| 0 <= k < i ==> self.available_models@[k].name@ != name@,
                self.wf(),
            decreases self.available_models@.len() - i,
        {
            if self.available_models[i].name == *name {
                proof {
                    let w = self.available_models@;
                    assert(0 <= i < w.len() && w[i as int].name@ == name@);
                    let j = choose|j: int| 0 <= j < w.len() && w[j].name@ == name@;
                    assert(j == i as int);
                }
                return Some(i);
            }
            i += 1;
        }
        None
    }

    fn find_definition(&self, name: &String) -> (r: Option<usize>)
        requires
            self.wf(),
        ensures
            r matches Some(i) ==> i < self.catalog().len() && self.catalog()[i as int].name@ == name@,
            definition(self.catalog(), name@) == match r {
                Some(i) => Some(self.catalog()[i as int]),
                None => None::<ModelDefinition>,
            },
    {
        let mut i: usize = 0;
        while i < self.catalog.len()
            invariant
                i <= self.catalog@.len(),
                forall|k: int| 0 <= k < i ==> self.catalog@[k].name@ != name@,
                self.wf(),
            decreases self.catalog@.len() - i,
        {
            if self.catalog[i].name == *name {
                proof {
                    let w = self.catalog@;
                    assert(0 <= i < w.len() && w[i as int].name@ == name@);
                    let j = choose|j: int| 0 <= j < w.len() && w[j].name@ == name@;
                    assert(j == i as int);
                }
                return Some(i);
            }
            i += 1;
        }
        None
    }

    /// The record of model `model_name`, if the registry has one.
    pub fn get_model_info(&self, model_name: &str) -> (r: Option<ModelInfo>)
        requires
            self.wf(),
        ensures
            r == entry(self.registry(), model_name@),
    {
        let key = model_name.to_owned();
        match self.find_entry(&key) {
            Some(i) => Some(self.available_models[i].duplicate()),
            None => None,
        }
    }

    /// Whether the registry records model `model_name` as `Available`.
    pub fn is_model_ready(&self, model_name: &str) -> (r: bool)
        requires
            self.wf(),
        ensures
            r == (entry(self.registry(), model_name@) matches Some(info) && info.status is Available),
    {
        match self.get_model_info(model_name) {
            Some(info) => info.status.is_available(),
            None => false,
        }
    }

    fn set_status(&mut self, name: &String, status: ModelStatus)
        requires
            old(self).wf(),
        ensures
            final(self).wf(),
            final(self).registry() == with_status(old(self).registry(), name@, status),
            final(self).models_dir == old(self).models_dir,
            final(self).catalog == old(self).catalog,
            final(self).active_downloads == old(self).active_downloads,
            final(self).cancel_download_flag == old(self).cancel_download_flag,
    {
        let ghost before = self.available_models@;
        match self.find_entry(name) {
            Some(i) => {
                let mut info = self.available_models[i].duplicate();
                info.status = status;
                self.available_models.set(i, info);
                proof {
                    assert forall|k: int| 0 <= k < before.len() && k != i implies before[k].name@ != name@ by {}
                    assert(self.available_models@ =~= with_status(before, name@, status));
                }
            },
            None => {
                assert(self.available_models@ =~= with_status(before, name@, status));
            },
        }
    }

    fn is_active(&self, name: &String) -> (r: bool)
        ensures
            r == self.active_names().contains(name@),
    {
        let mut i: usize = 0;
        while i < self.active_downloads.len()
            invariant
                i <= self.active_downloads@.len(),
                forall|k: int| 0 <= k < i ==> self.active_downloads@[k]@ != name@,
            decreases self.active_downloads@.len() - i,
        {
            if self.active_downloads[i] == *name {
                assert(self.active_downloads@[i as int]@ == name@);
                return true;
            }
            i += 1;
        }
        false
    }

    fn clear_active(&mut self, name: &String)
        ensures
            final(self).active_names() == old(self).active_names().remove(name@),
            final(self).models_dir == old(self).models_dir,
            final(self).catalog == old(self).catalog,
            final(self).available_models == old(self).available_models,
            final(self).cancel_download_flag == old(self).cancel_download_flag,
    {
        let ghost before = self.active_downloads@;
        let mut kept: Vec<String> = Vec::new();
        let mut i: usize = 0;
        while i < self.active_downloads.len()
            invariant
                i <= self.active_downloads@.len(),
                self.active_downloads@ == before,
                forall|n: Seq<char>| #[trigger] holds_name(kept@, kept@.len() as int, n) <==> (n != name@ && holds_name(before, i as int, n)),
            decreases self.active_downloads@.len() - i,
        {
            let ghost k0 = kept@;
            if self.active_downloads[i] != *name {
                kept.push(self.active_downloads[i].clone());
            }
            assert forall|n: Seq<char>| #[trigger] holds_name(kept@, kept@.len() as int, n) <==> (n != name@ && holds_name(before, i + 1, n)) by {
                if holds_name(kept@, kept@.len() as int, n) {
                    let k = choose|k: int| 0 <= k < kept@.len() && #[trigger] kept@[k]@ == n;
                    if k < k0.len() {
                        assert(k0[k]@ == n);
                        assert(holds_name(k0, k0.len() as int, n));
                        let j = choose|j: int| 0 <= j < i && #[trigger] before[j]@ == n;
                        assert(0 <= j < i + 1 && before[j]@ == n);
                    } else {
                        assert(before[i as int]@ == n);
                    }
                }
                if n != name@ && holds_name(before, i + 1, n) {
                    let k = choose|k: int| 0 <= k < i + 1 && #[trigger] before[k]@ == n;
                    if k < i {
                        assert(holds_name(before, i as int, n));
                        assert(holds_name(k0, k0.len() as int, n));
                        let j = choose|j: int| 0 <= j < k0.len() && #[trigger] k0[j]@ == n;
                        assert(kept@[j]@ == n);
                    } else {
                        assert(kept@[k0.len() as int]@ == n);
                    }
                }
            }
            i += 1;
        }
        let ghost old_names = self.active_names();
        self.active_downloads = kept;
        assert forall|n: Seq<char>| self.active_names().contains(n) <==> old_names.remove(name@).contains(n) by {
            assert(self.active_names().contains(n) == holds_name(kept@, kept@.len() as int, n));
            assert(old_names.contains(n) == holds_name(before, before.len() as int, n));
        }
        assert(self.active_names() =~= old_names.remove(name@));
    }

    fn mark_active(&mut self, name: &String)
        ensures
            final(self).active_names() == old(self).active_names().insert(name@),
            final(self).models_dir == old(self).models_dir,
            final(self).catalog == old(self).catalog,
            final(self).available_models == old(self).available_models,
            final(self).cancel_download_flag == old(self).cancel_download_flag,
    {
        let ghost before = self.active_downloads@;
        let ghost old_names = self.active_names();
        self.active_downloads.push(name.clone());
        assert forall|n: Seq<char>| self.active_names().contains(n) <==> old_names.insert(name@).contains(n) by {
            let now = self.active_downloads@;
            assert(self.active_names().contains(n) == holds_name(now, now.len() as int, n));
            assert(old_names.contains(n) == holds_name(before, before.len() as int, n));
            if holds_name(before, before.len() as int, n) {
                let k = choose|k: int| 0 <= k < before.len() && #[trigger] before[k]@ == n;
                assert(now[k]@ == n);
            }
            if n == name@ {
                assert(now[before.len() as int]@ == n);
            }
            if holds_name(now, now.len() as int, n) {
                let k = choose|k: int| 0 <= k < now.len() && #[trigger] now[k]@ == n;
                if k < before.len() {
                    assert(before[k]@ == n);
                }
            }
        }
        assert(self.active_names() =~= old_names.insert(name@));
    }

    /// Starts a download of `model_name`. Refused with `AlreadyDownloading`
    /// while one is in flight for it, and with `UnknownModel` when the catalog
    /// lacks it; a refusal changes nothing. Otherwise the identifier joins the
    /// in-flight set, any pending cancellation is dropped, the record goes to
    /// `Downloading` at 0, and the session for the transfer is returned.
    pub fn begin_download(&mut self, model_name: &str) -> (r: Result<DownloadSession, ModelError>)
        requires
            old(self).wf(),
        ensures
            final(self).wf(),
            r is Ok <==> old(self).download_admitted(model_name@),
            old(self).active_names().contains(model_name@) ==> (r matches Err(ModelError::AlreadyDownloading(s)) && s@ == model_name@),
            !old(self).active_names().contains(model_name@) && definition(old(self).catalog(), model_name@) is None ==> (r matches Err(ModelError::UnknownModel(s)) && s@ == model_name@),
            r is Err ==> *final(self) == *old(self),
            r matches Ok(session) ==> {
                &&& session.wf()
                &&& session.name() == model_name@
                &&& session.path() == join_path(old(self).dir(), definition(old(self).catalog(), model_name@)->0.gguf_file@)
                &&& session.url() == definition(old(self).catalog(), model_name@)->0.download_url@
                &&& session.total() == 0
                &&& session.received() == 0
                &&& session.last_report() == 0
                &&& final(self).active_names() == old(self).active_names().insert(model_name@)
                &&& final(self).cancel_target() is None
                &&& final(self).registry() == with_status(old(self).registry(), model_name@, ModelStatus::Downloading { progress: 0 })
                &&& final(self).dir() == old(self).dir()
                &&& final(self).catalog() == old(self).catalog()
            },
    {
        let key = model_name.to_owned();
        if self.is_active(&key) {
            return Err(ModelError::AlreadyDownloading(key));
        }
        let d = match self.find_definition(&key) {
            Some(d) => d,
            None => {
                return Err(ModelError::UnknownModel(key));
            },
        };
        self.mark_active(&key);
        self.cancel_download_flag = None;
        self.set_status(&key, ModelStatus::Downloading { progress: 0 });
        let path = join_path_exec(&self.models_dir, &self.catalog[d].gguf_file);
        let url = self.catalog[d].download_url.clone();
        Ok(DownloadSession::start(key, path, url))
    }

    /// Checked before each received chunk is written: when a cancellation
    /// names this session's model, the model leaves the in-flight set, its
    /// record goes to `NotDownloaded`, and `Cancelled` is returned. Otherwise
    /// nothing changes.
    pub fn poll_cancellation(&mut self, session: &DownloadSession) -> (r: Result<(), ModelError>)
        requires
            old(self).wf(),
        ensures
            final(self).wf(),
            r is Err <==> old(self).cancel_target() == Some(session.name()),
            r is Ok ==> *final(self) == *old(self),
            r is Err ==> {
                &&& r == Err::<(), ModelError>(ModelError::Cancelled)
                &&& final(self).active_names() == old(self).active_names().remove(session.name())
                &&& final(self).registry() == with_status(old(self).registry(), session.name(), ModelStatus::NotDownloaded)
                &&& final(self).cancel_target() == old(self).cancel_target()
                &&& final(self).dir() == old(self).dir()
                &&& final(self).catalog() == old(self).catalog()
            },
    {
        let cancelled = match &self.cancel_download_flag {
            Some(target) => *target == *session.model_name(),
            None => false,
        };
        if cancelled {
            self.clear_active(session.model_name());
            self.set_status(session.model_name(), ModelStatus::NotDownloaded);
            Err(ModelError::Cancelled)
        } else {
            Ok(())
        }
    }

    /// Counts a written chunk of `chunk_len` bytes, `secs_since_report`
    /// seconds after the last progress report. When the session decides to
    /// report, the record goes to `Downloading` at the new progress, which is
    /// returned for the progress sink.
    pub fn record_chunk(&mut self, session: &mut DownloadSession, chunk_len: u64, secs_since_report: u64) -> (r: Option<u8>)
        requires
            old(self).wf(),
            old(session).wf(),
        ensures
            final(self).wf(),
            chunk_step(*old(session), chunk_len, secs_since_report, *final(session), r),
            final(self).registry() == match r {
                Some(p) => with_status(old(self).registry(), old(session).name(), ModelStatus::Downloading { progress: p }),
                None => old(self).registry(),
            },
            final(self).active_names() == old(self).active_names(),
            final(self).cancel_target() == old(self).cancel_target(),
            final(self).dir() == old(self).dir(),
            final(self).catalog() == old(self).catalog(),
    {
        let r = session.progress_after_chunk(chunk_len, secs_since_report);
        if let Some(p) = r {
            self.set_status(session.model_name(), ModelStatus::Downloading { progress: p });
        }
        r
    }

    /// Ends a transfer that failed: the model leaves the in-flight set, its
    /// record goes to `Error` with the failure's reason, and the failure is
    /// returned as the matching error.
    pub fn fail_download(&mut self, session: &DownloadSession, failure: TransferFailure) -> (r: ModelError)
        requires
            old(self).wf(),
        ensures
            final(self).wf(),
            r == failure_error(failure),
            final(self).active_names() == old(self).active_names().remove(session.name()),
            final(self).registry() == with_status(old(self).registry(), session.name(), ModelStatus::Error(failure_reason(failure))),
            final(self).cancel_target() == old(self).cancel_target(),
            final(self).dir() == old(self).dir(),
            final(self).catalog() == old(self).catalog(),
    {
        self.clear_active(session.model_name());
        match failure {
            TransferFailure::Network(m) => {
                self.set_status(session.model_name(), ModelStatus::Error(m.clone()));
                ModelError::Network(m)
            },
            TransferFailure::Filesystem(m) => {
                self.set_status(session.model_name(), ModelStatus::Error(m.clone()));
                ModelError::Filesystem(m)
            },
        }
    }

    /// Ends a transfer whose bytes were all written, given the leading bytes
    /// of the file. The model leaves the in-flight set. When the file starts
    /// with a known signature its record goes to `Available` at the session's
    /// file path and 100 is returned, the last value for the progress sink.
    /// Otherwise, a file shorter than a signature included, its record goes to
    /// `Error` and `Validation` is returned with the leading bytes seen.
    pub fn finish_download(&mut self, session: &DownloadSession, header: &[u8]) -> (r: Result<u8, ModelError>)
        requires
            old(self).wf(),
        ensures
            final(self).wf(),
            r is Ok <==> header_accepted(header@),
            r is Ok ==> r == Ok::<u8, ModelError>(FULL_PROGRESS) && marked_available(old(self).registry(), session.name(), session.path(), final(self).registry()),
            r is Err ==> marked_failed(old(self).registry(), session.name(), validation_failure_message(), final(self).registry()),
            r is Err ==> (r matches Err(ModelError::Validation(b)) && b@ == seen_magic(header@)),
            final(self).active_names() == old(self).active_names().remove(session.name()),
            final(self).cancel_target() == old(self).cancel_target(),
            final(self).dir() == old(self).dir(),
            final(self).catalog() == old(self).catalog(),
    {
        self.clear_active(session.model_name());
        match validate_gguf_file(header) {
            Ok(()) => {
                self.set_available(session.model_name(), session.file_path());
                Ok(FULL_PROGRESS)
            },
            Err(_) => {
                let ghost before = self.available_models@;
                let m = "downloaded file failed validation".to_owned();
                proof {
                    reveal_strlit("downloaded file failed validation");
                }
                self.set_status(session.model_name(), ModelStatus::Error(m.clone()));
                assert(self.available_models@ == with_status(before, session.name(), ModelStatus::Error(m)));
                assert(marked_failed(before, session.name(), validation_failure_message(), self.available_models@));
                Err(ModelError::Validation(leading_bytes(header)))
            },
        }
    }

    fn set_available(&mut self, name: &String, path: &String)
        requires
            old(self).wf(),
        ensures
            final(self).wf(),
            marked_available(old(self).registry(), name@, path@, final(self).registry()),
            final(self).models_dir == old(self).models_dir,
            final(self).catalog == old(self).catalog,
            final(self).active_downloads == old(self).active_downloads,
            final(self).cancel_download_flag == old(self).cancel_download_flag,
    {
        let ghost before = self.available_models@;
        match self.find_entry(name) {
            Some(i) => {
                let mut info = self.available_models[i].duplicate();
                info.status = ModelStatus::Available;
                info.path = path.clone();
                self.available_models.set(i, info);
                proof {
                    let after = self.available_models@;
                    assert forall|k: int| 0 <= k < before.len() && k != i implies before[k].name@ != name@ by {}
                    assert forall|a: int, b: int| 0 <= a < after.len() && 0 <= b < after.len() && a != b implies after[a].name@ != after[b].name@ by {
                        assert(after[a].name == before[a].name);
                        assert(after[b].name == before[b].name);
                    }
                }
            },
            None => {},
        }
    }

    /// Asks the download of `model_name` to stop. The request is seen by the
    /// transfer at its next chunk; the model leaves the in-flight set at once
    /// and its record goes to `NotDownloaded`, so a new download of it is
    /// accepted right away.
    pub fn cancel_download(&mut self, model_name: &str)
        requires
            old(self).wf(),
        ensures
            final(self).wf(),
            final(self).cancel_target() == Some(model_name@),
            final(self).active_names() == old(self).active_names().remove(model_name@),
            final(self).registry() == with_status(old(self).registry(), model_name@, ModelStatus::NotDownloaded),
            final(self).dir() == old(self).dir(),
            final(self).catalog() == old(self).catalog(),
    {
        let key = model_name.to_owned();
        self.cancel_download_flag = Some(key.clone());
        self.clear_active(&key);
        self.set_status(&key, ModelStatus::NotDownloaded);
    }

    /// The path of the file of catalog model `model_name`, or `UnknownModel`.
    pub fn model_file_path(&self, model_name: &str) -> (r: Result<String, ModelError>)
        requires
            self.wf(),
        ensures
            definition(self.catalog(), model_name@) is None ==> (r matches Err(ModelError::UnknownModel(s)) && s@ == model_name@),
            definition(self.catalog(), model_name@) matches Some(d) ==> (r matches Ok(p) && p@ == join_path(self.dir(), d.gguf_file@)),
    {
        let key = model_name.to_owned();
        match self.find_definition(&key) {
            Some(d) => Ok(join_path_exec(&self.models_dir, &self.catalog[d].gguf_file)),
            None => Err(ModelError::UnknownModel(key)),
        }
    }

    /// Records that the file of `model_name` is gone: its record goes to
    /// `NotDownloaded`. Fails with `UnknownModel`, changing nothing, when the
    /// catalog lacks it.
    pub fn delete_model(&mut self, model_name: &str) -> (r: Result<(), ModelError>)
        requires
            old(self).wf(),
        ensures
            final(self).wf(),
            r is Ok <==> definition(old(self).catalog(), model_name@) is Some,
            r is Err ==> (r matches Err(ModelError::UnknownModel(s)) && s@ == model_name@) && *final(self) == *old(self),
            r is Ok ==> {
                &&& final(self).registry() == with_status(old(self).registry(), model_name@, ModelStatus::NotDownloaded)
                &&& final(self).active_names() == old(self).active_names()
                &&& final(self).cancel_target() == old(self).cancel_target()
                &&& final(self).dir() == old(self).dir()
                &&& final(self).catalog() == old(self).catalog()
            },
    {
        let key = model_name.to_owned();
        match self.find_definition(&key) {
            Some(_) => {
                self.set_status(&key, ModelStatus::NotDownloaded);
                Ok(())
            },
            None => Err(ModelError::UnknownModel(key)),
        }
    }
}

} // verus!
