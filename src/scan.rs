use vstd::prelude::*;
use vstd::string::StringExecFns;

use crate::types::{FileProbe, ModelDefinition, ModelInfo, ModelStatus};

verus! {

/// Size of a megabyte, in bytes.
pub const BYTES_PER_MB: u64 = 1048576;

/// Reported lower bound of the accepted size band: 90% of the expected size,
/// rounded down.
pub open spec fn min_size_mb(size_mb: u64) -> int {
    size_mb * 9 / 10
}

/// Whether `mb` megabytes lie within 90% to 110% of `size_mb`, both ends
/// included and without rounding.
pub open spec fn within_band(mb: int, size_mb: u64) -> bool {
    9 * size_mb <= 10 * mb && 10 * mb <= 11 * size_mb
}

/// Whole megabytes in a file of `bytes` bytes.
pub open spec fn megabytes(bytes: u64) -> int {
    (bytes as int) / (BYTES_PER_MB as int)
}

/// The status that a scan gives a model of expected size `size_mb` whose file
/// was found as `probe` says.
pub open spec fn scanned_status(size_mb: u64, probe: FileProbe) -> ModelStatus {
    match probe {
        FileProbe::Missing => ModelStatus::NotDownloaded,
        FileProbe::Unreadable(reason) => ModelStatus::Error(reason),
        FileProbe::Size(bytes) => if within_band(megabytes(bytes), size_mb) {
            ModelStatus::Available
        } else {
            ModelStatus::Corrupted {
                file_size: megabytes(bytes) as u64,
                expected_min_size: min_size_mb(size_mb) as u64,
            }
        },
    }
}

/// Path of `file` inside directory `dir`.
pub open spec fn join_path(dir: Seq<char>, file: Seq<char>) -> Seq<char> {
    dir + seq!['/'] + file
}

/// Whether `info` is the registry record of catalog entry `def`, kept in
/// directory `dir`, with the given status.
pub open spec fn info_matches(
    info: ModelInfo,
    dir: Seq<char>,
    def: ModelDefinition,
    status: ModelStatus,
) -> bool {
    &&& info.name == def.name
    &&& info.display_name == def.display_name
    &&& info.status == status
    &&& info.path@ == join_path(dir, def.gguf_file@)
    &&& info.size_mb == def.size_mb
    &&& info.context_size == def.context_size
    &&& info.description == def.description
    &&& info.gguf_file == def.gguf_file
}

/// Whether `reg` is what a scan of directory `dir` records for `catalog`,
/// where `probes[i]` is what was found at the path of `catalog[i]`.
pub open spec fn scanned_registry(
    reg: Seq<ModelInfo>,
    dir: Seq<char>,
    catalog: Seq<ModelDefinition>,
    probes: Seq<FileProbe>,
) -> bool {
    &&& reg.len() == catalog.len()
    &&& probes.len() == catalog.len()
    &&& forall|i: int|
        0 <= i < reg.len() ==> #[trigger] info_matches(
            reg[i],
            dir,
            catalog[i],
            scanned_status(catalog[i].size_mb, probes[i]),
        )
}

/// Judges a model's file: `NotDownloaded` when it is missing, `Error` when it
/// cannot be read, `Available` when its size in whole megabytes lies within
/// 90% to 110% of the expected size, both ends included, and `Corrupted`
/// otherwise, with that size and 90% of the expected size rounded down.
pub fn status_for_probe(size_mb: u64, probe: &FileProbe) -> (r: ModelStatus)
    ensures
        r == scanned_status(size_mb, *probe),
{
    match probe {
        FileProbe::Missing => ModelStatus::NotDownloaded,
        FileProbe::Unreadable(reason) => ModelStatus::Error(reason.clone()),
        FileProbe::Size(bytes) => {
            let file_size_mb: u64 = *bytes / BYTES_PER_MB;
            let wide: u128 = size_mb as u128;
            let mb: u128 = file_size_mb as u128;
            assert(wide * 9 / 10 <= wide) by (nonlinear_arith);
            let expected_min: u64 = (wide * 9 / 10) as u64;
            if 9 * wide <= 10 * mb && 10 * mb <= 11 * wide {
                ModelStatus::Available
            } else {
                ModelStatus::Corrupted { file_size: file_size_mb, expected_min_size: expected_min }
            }
        },
    }
}

/// Path of the file `file` inside directory `dir`.
pub fn join_path_exec(dir: &String, file: &String) -> (r: String)
    ensures
        r@ == join_path(dir@, file@),
{
    let mut r = dir.clone();
    r.append("/");
    r.append(file.as_str());
    proof {
        reveal_strlit("/");
    }
    r
}

/// The registry record of catalog entry `def`, kept in directory `dir`, with
/// the given status.
pub fn info_from_definition(dir: &String, def: &ModelDefinition, status: ModelStatus) -> (r:
    ModelInfo)
    ensures
        info_matches(r, dir@, *def, status),
{
    ModelInfo {
        name: def.name.clone(),
        display_name: def.display_name.clone(),
        status: status,
        path: join_path_exec(dir, &def.gguf_file),
        size_mb: def.size_mb,
        context_size: def.context_size,
        description: def.description.clone(),
        gguf_file: def.gguf_file.clone(),
    }
}

} // verus!
