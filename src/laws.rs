use vstd::prelude::*;

use crate::manager::{
    definition, definitions_unique, entry, infos_unique, marked_available, restatus, with_status,
    ModelManager,
};
use crate::scan::{
    info_matches, megabytes, min_size_mb, scanned_registry, scanned_status, within_band,
};
use crate::types::{FileProbe, ModelDefinition, ModelInfo, ModelStatus};

verus! {

/// After a scan, looking up catalog model `i` finds the record made from
/// `probes[i]`.
pub proof fn lemma_scanned_entry(
    reg: Seq<ModelInfo>,
    dir: Seq<char>,
    catalog: Seq<ModelDefinition>,
    probes: Seq<FileProbe>,
    i: int,
)
    requires
        definitions_unique(catalog),
        scanned_registry(reg, dir, catalog, probes),
        0 <= i < catalog.len(),
    ensures
        entry(reg, catalog[i].name@) == Some(reg[i]),
        reg[i].status == scanned_status(catalog[i].size_mb, probes[i]),
{
    let name = catalog[i].name@;
    assert forall|a: int, b: int| 0 <= a < reg.len() && 0 <= b < reg.len() && a != b implies reg[a].name@ != reg[b].name@ by {
        assert(info_matches(reg[a], dir, catalog[a], scanned_status(catalog[a].size_mb, probes[a])));
        assert(info_matches(reg[b], dir, catalog[b], scanned_status(catalog[b].size_mb, probes[b])));
    }
    assert(infos_unique(reg));
    assert(info_matches(reg[i], dir, catalog[i], scanned_status(catalog[i].size_mb, probes[i])));
    assert(0 <= i < reg.len() && reg[i].name@ == name);
}

/// A model whose file is missing is reported `NotDownloaded` by a lookup after
/// a scan.
pub proof fn scan_reports_missing_file(
    reg: Seq<ModelInfo>,
    dir: Seq<char>,
    catalog: Seq<ModelDefinition>,
    probes: Seq<FileProbe>,
    i: int,
)
    requires
        definitions_unique(catalog),
        scanned_registry(reg, dir, catalog, probes),
        0 <= i < catalog.len(),
        probes[i] is Missing,
    ensures
        entry(reg, catalog[i].name@) matches Some(info) && info.status is NotDownloaded,
{
    lemma_scanned_entry(reg, dir, catalog, probes, i);
}

/// A model whose file holds `bytes` bytes is reported `Available` by a lookup
/// after a scan when its size in megabytes is within 90% to 110% of the
/// expected size, both ends included, and `Corrupted` with that size and the
/// lower bound rounded down otherwise.
pub proof fn scan_applies_size_band(
    reg: Seq<ModelInfo>,
    dir: Seq<char>,
    catalog: Seq<ModelDefinition>,
    probes: Seq<FileProbe>,
    i: int,
    bytes: u64,
)
    requires
        definitions_unique(catalog),
        scanned_registry(reg, dir, catalog, probes),
        0 <= i < catalog.len(),
        probes[i] == FileProbe::Size(bytes),
    ensures
        entry(reg, catalog[i].name@) matches Some(info) && info.status == if within_band(
            megabytes(bytes),
            catalog[i].size_mb,
        ) {
            ModelStatus::Available
        } else {
            ModelStatus::Corrupted {
                file_size: megabytes(bytes) as u64,
                expected_min_size: min_size_mb(catalog[i].size_mb) as u64,
            }
        },
{
    lemma_scanned_entry(reg, dir, catalog, probes, i);
}

/// Setting a model's status changes what a lookup of it finds to that status,
/// and nothing else about the record.
pub proof fn lookup_after_status_change(reg: Seq<ModelInfo>, name: Seq<char>, s: ModelStatus)
    requires
        infos_unique(reg),
    ensures
        entry(with_status(reg, name, s), name) == match entry(reg, name) {
            Some(info) => Some(restatus(info, s)),
            None => None,
        },
{
    let after = with_status(reg, name, s);
    if exists|i: int| 0 <= i < reg.len() && reg[i].name@ == name {
        let i = choose|i: int| 0 <= i < reg.len() && reg[i].name@ == name;
        assert(after[i].name@ == name);
        let j = choose|j: int| 0 <= j < after.len() && after[j].name@ == name;
        if reg[j].name@ != name {
            assert(after[j] == reg[j]);
        }
        assert(j == i);
    } else {
        if exists|j: int| 0 <= j < after.len() && after[j].name@ == name {
            let j = choose|j: int| 0 <= j < after.len() && after[j].name@ == name;
            assert(after[j] == reg[j]);
        }
    }
}

/// A download that ends well, as `finish_download` leaves the registry on
/// success, makes a lookup of the model find it `Available` at the file that
/// was written, the rest of its record unchanged.
pub proof fn finished_download_is_available(
    before: Seq<ModelInfo>,
    name: Seq<char>,
    path: Seq<char>,
    after: Seq<ModelInfo>,
)
    requires
        infos_unique(before),
        entry(before, name) is Some,
        marked_available(before, name, path, after),
    ensures
        entry(after, name) matches Some(info) && {
            &&& info.status is Available
            &&& info.path@ == path
            &&& info.name == entry(before, name)->0.name
            &&& info.gguf_file == entry(before, name)->0.gguf_file
            &&& info.size_mb == entry(before, name)->0.size_mb
        },
{
    let i = choose|i: int| 0 <= i < before.len() && before[i].name@ == name;
    assert(after[i].name == before[i].name);
    assert(0 <= i < after.len() && after[i].name@ == name);
    let j = choose|j: int| 0 <= j < after.len() && after[j].name@ == name;
    if before[j].name@ != name {
        assert(after[j] == before[j]);
    }
    assert(j == i);
}

/// While a download of `name` is in flight, as a download that began leaves
/// it, a second download of `name` is refused.
pub proof fn second_download_refused(before: ModelManager, after: ModelManager, name: Seq<char>)
    requires
        after.active_names() == before.active_names().insert(name),
    ensures
        !after.download_admitted(name),
{
}

/// Once `name` is cancelled, as `cancel_download` leaves the manager, a lookup
/// of it finds `NotDownloaded` and a new download of it is accepted.
pub proof fn cancel_frees_model(before: ModelManager, after: ModelManager, name: Seq<char>)
    requires
        infos_unique(before.registry()),
        definition(before.catalog(), name) is Some,
        after.catalog() == before.catalog(),
        after.active_names() == before.active_names().remove(name),
        after.registry() == with_status(before.registry(), name, ModelStatus::NotDownloaded),
    ensures
        after.download_admitted(name),
        entry(after.registry(), name) matches Some(info) ==> info.status is NotDownloaded,
{
    lookup_after_status_change(before.registry(), name, ModelStatus::NotDownloaded);
}

} // verus!
