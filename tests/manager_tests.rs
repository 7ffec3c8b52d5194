use model_manager::download::DownloadSession;
use model_manager::manager::ModelManager;
use model_manager::scan::{status_for_probe, BYTES_PER_MB};
use model_manager::types::{FileProbe, ModelDefinition, ModelError, ModelStatus, TransferFailure};
use model_manager::validate::validate_gguf_file;

fn definition(name: &str, file: &str, size_mb: u64) -> ModelDefinition {
    ModelDefinition {
        name: name.to_string(),
        display_name: format!("{} display", name),
        gguf_file: file.to_string(),
        size_mb,
        context_size: 8192,
        description: format!("{} description", name),
        download_url: format!("http://example/{}", file),
    }
}

fn manager_a() -> ModelManager {
    ModelManager::new_with_models_dir("/models".to_string(), vec![definition("modelA", "a.bin", 100)])
}

fn status_of(m: &ModelManager, name: &str) -> ModelStatus {
    m.get_model_info(name).expect("model is in the registry").status
}

fn run_chunks(m: &mut ModelManager, s: &mut DownloadSession, chunks: u64, chunk_len: u64, sink: &mut Vec<u8>) {
    for _ in 0..chunks {
        m.poll_cancellation(s).expect("not cancelled");
        if let Some(p) = m.record_chunk(s, chunk_len, 0) {
            sink.push(p);
        }
    }
}

#[test]
fn validate_accepts_known_signatures() {
    assert_eq!(validate_gguf_file(b"GGUF"), Ok(()));
    assert_eq!(validate_gguf_file(b"ggjt"), Ok(()));
    assert_eq!(validate_gguf_file(b"ggla"), Ok(()));
    assert_eq!(validate_gguf_file(b"ggml"), Ok(()));
    assert_eq!(validate_gguf_file(b"GGUF\x03\x00\x00\x00"), Ok(()));
}

#[test]
fn validate_rejects_other_signatures() {
    assert_eq!(validate_gguf_file(b"abcd"), Err(ModelError::Validation(b"abcd".to_vec())));
    assert_eq!(validate_gguf_file(b"GGUG"), Err(ModelError::Validation(b"GGUG".to_vec())));
    assert_eq!(validate_gguf_file(b"ggufXYZ"), Err(ModelError::Validation(b"gguf".to_vec())));
}

#[test]
fn validate_rejects_short_files_as_read_errors() {
    assert!(matches!(validate_gguf_file(b""), Err(ModelError::Filesystem(_))));
    assert!(matches!(validate_gguf_file(b"GGU"), Err(ModelError::Filesystem(_))));
}

#[test]
fn probe_judges_size_band() {
    let mb = BYTES_PER_MB;
    assert_eq!(status_for_probe(100, &FileProbe::Missing), ModelStatus::NotDownloaded);
    assert_eq!(status_for_probe(100, &FileProbe::Size(90 * mb)), ModelStatus::Available);
    assert_eq!(status_for_probe(100, &FileProbe::Size(110 * mb)), ModelStatus::Available);
    assert_eq!(status_for_probe(100, &FileProbe::Size(110 * mb + mb - 1)), ModelStatus::Available);
    assert_eq!(
        status_for_probe(100, &FileProbe::Size(89 * mb)),
        ModelStatus::Corrupted { file_size: 89, expected_min_size: 90 }
    );
    assert_eq!(
        status_for_probe(100, &FileProbe::Size(111 * mb)),
        ModelStatus::Corrupted { file_size: 111, expected_min_size: 90 }
    );
    assert_eq!(
        status_for_probe(1234, &FileProbe::Size(0)),
        ModelStatus::Corrupted { file_size: 0, expected_min_size: 1110 }
    );
    assert_eq!(
        status_for_probe(100, &FileProbe::Unreadable("denied".to_string())),
        ModelStatus::Error("denied".to_string())
    );
    assert_eq!(status_for_probe(u64::MAX, &FileProbe::Size(u64::MAX)), ModelStatus::Corrupted {
        file_size: u64::MAX / mb,
        expected_min_size: ((u64::MAX as u128) * 9 / 10) as u64,
    });
}

#[test]
fn probe_band_is_inclusive_without_rounding() {
    let mb = BYTES_PER_MB;
    assert_eq!(
        status_for_probe(15, &FileProbe::Size(13 * mb)),
        ModelStatus::Corrupted { file_size: 13, expected_min_size: 13 }
    );
    assert_eq!(status_for_probe(15, &FileProbe::Size(14 * mb)), ModelStatus::Available);
    assert_eq!(status_for_probe(15, &FileProbe::Size(16 * mb)), ModelStatus::Available);
    assert_eq!(
        status_for_probe(15, &FileProbe::Size(17 * mb)),
        ModelStatus::Corrupted { file_size: 17, expected_min_size: 13 }
    );
    let mut m = ModelManager::new_with_models_dir("/m".to_string(), vec![definition("small", "s.gguf", 15)]);
    m.scan_models(&vec![FileProbe::Size(13 * mb)]);
    assert!(!m.is_model_ready("small"));
    m.scan_models(&vec![FileProbe::Size(14 * mb)]);
    assert!(m.is_model_ready("small"));
}

#[test]
fn scan_of_missing_file_reports_not_downloaded() {
    let mut m = manager_a();
    assert!(m.get_model_info("modelA").is_none());
    m.scan_models(&vec![FileProbe::Missing]);
    let info = m.get_model_info("modelA").unwrap();
    assert_eq!(info.status, ModelStatus::NotDownloaded);
    assert_eq!(info.path, "/models/a.bin");
    assert_eq!(info.gguf_file, "a.bin");
    assert_eq!(info.size_mb, 100);
    assert!(!m.is_model_ready("modelA"));
    assert!(m.get_model_info("modelB").is_none());
}

#[test]
fn scan_of_half_size_file_reports_corrupted() {
    let mut m = manager_a();
    m.scan_models(&vec![FileProbe::Size(50 * BYTES_PER_MB)]);
    assert_eq!(status_of(&m, "modelA"), ModelStatus::Corrupted { file_size: 50, expected_min_size: 90 });
}

#[test]
fn scan_covers_every_catalog_entry() {
    let mut m = ModelManager::new_with_models_dir(
        "/m".to_string(),
        vec![definition("one", "1.gguf", 10), definition("two", "2.gguf", 20), definition("three", "3.gguf", 30)],
    );
    assert_eq!(m.catalog_paths(), vec!["/m/1.gguf".to_string(), "/m/2.gguf".to_string(), "/m/3.gguf".to_string()]);
    m.scan_models(&vec![
        FileProbe::Size(10 * BYTES_PER_MB),
        FileProbe::Unreadable("io".to_string()),
        FileProbe::Missing,
    ]);
    let all = m.list_models();
    assert_eq!(all.len(), 3);
    assert_eq!(all[0].name, "one");
    assert_eq!(all[0].status, ModelStatus::Available);
    assert_eq!(all[1].status, ModelStatus::Error("io".to_string()));
    assert_eq!(all[2].status, ModelStatus::NotDownloaded);
    assert!(m.is_model_ready("one"));
    assert!(!m.is_model_ready("two"));
    assert_eq!(m.get_models_directory(), "/m");
}

#[test]
fn download_streams_to_available() {
    let mut m = manager_a();
    m.scan_models(&vec![FileProbe::Missing]);
    let mut s = m.begin_download("modelA").unwrap();
    let mut sink = vec![s.last_progress_report()];
    assert_eq!(status_of(&m, "modelA"), ModelStatus::Downloading { progress: 0 });
    assert_eq!(s.file_path(), "/models/a.bin");
    assert_eq!(s.download_url(), "http://example/a.bin");
    assert_eq!(s.model_name(), "modelA");
    s.set_content_length(Some(100 * BYTES_PER_MB));
    run_chunks(&mut m, &mut s, 200, BYTES_PER_MB / 2, &mut sink);
    assert_eq!(s.downloaded(), 100 * BYTES_PER_MB);
    assert_eq!(status_of(&m, "modelA"), ModelStatus::Downloading { progress: 100 });
    let last = m.finish_download(&s, b"GGUF").unwrap();
    sink.push(last);
    assert_eq!(sink[0], 0);
    assert_eq!(*sink.last().unwrap(), 100);
    assert!(sink.windows(2).all(|w| w[0] <= w[1]));
    assert_eq!(sink.len(), 102);
    assert_eq!(status_of(&m, "modelA"), ModelStatus::Available);
    assert_eq!(m.get_model_info("modelA").unwrap().path, "/models/a.bin");
    assert!(m.is_model_ready("modelA"));
    m.scan_models(&vec![FileProbe::Missing]);
    assert_eq!(status_of(&m, "modelA"), ModelStatus::NotDownloaded);
}

#[test]
fn progress_is_throttled() {
    let mut m = manager_a();
    m.scan_models(&vec![FileProbe::Missing]);
    let mut s = m.begin_download("modelA").unwrap();
    s.set_content_length(Some(1000));
    assert_eq!(m.record_chunk(&mut s, 5, 0), None);
    assert_eq!(status_of(&m, "modelA"), ModelStatus::Downloading { progress: 0 });
    assert_eq!(m.record_chunk(&mut s, 4, 2), Some(0));
    assert_eq!(m.record_chunk(&mut s, 1, 0), Some(1));
    assert_eq!(m.record_chunk(&mut s, 29, 0), Some(3));
    assert_eq!(status_of(&m, "modelA"), ModelStatus::Downloading { progress: 3 });
    assert_eq!(m.record_chunk(&mut s, 5000, 0), Some(100));
    assert_eq!(m.record_chunk(&mut s, 1, 0), Some(100));
}

#[test]
fn unknown_length_reports_zero() {
    let mut m = manager_a();
    m.scan_models(&vec![FileProbe::Missing]);
    let mut s = m.begin_download("modelA").unwrap();
    s.set_content_length(None);
    assert_eq!(s.total_size(), 0);
    assert_eq!(m.record_chunk(&mut s, 1 << 30, 0), None);
    assert_eq!(m.record_chunk(&mut s, 1 << 30, 3), Some(0));
    assert_eq!(m.record_chunk(&mut s, u64::MAX, 0), None);
    assert_eq!(s.downloaded(), u64::MAX);
}

#[test]
fn second_download_is_refused() {
    let mut m = manager_a();
    m.scan_models(&vec![FileProbe::Missing]);
    let mut s = m.begin_download("modelA").unwrap();
    s.set_content_length(Some(10));
    assert_eq!(m.begin_download("modelA").err(), Some(ModelError::AlreadyDownloading("modelA".to_string())));
    assert_eq!(m.record_chunk(&mut s, 10, 0), Some(100));
    assert_eq!(m.finish_download(&s, b"ggml"), Ok(100));
    assert_eq!(status_of(&m, "modelA"), ModelStatus::Available);
    assert!(m.begin_download("modelA").is_ok());
}

#[test]
fn cancel_stops_download_and_frees_model() {
    let mut m = manager_a();
    m.scan_models(&vec![FileProbe::Missing]);
    let mut s = m.begin_download("modelA").unwrap();
    s.set_content_length(Some(100));
    assert_eq!(m.poll_cancellation(&s), Ok(()));
    m.record_chunk(&mut s, 10, 0);
    m.cancel_download("modelA");
    assert_eq!(status_of(&m, "modelA"), ModelStatus::NotDownloaded);
    assert_eq!(m.poll_cancellation(&s), Err(ModelError::Cancelled));
    assert_eq!(status_of(&m, "modelA"), ModelStatus::NotDownloaded);
    let s2 = m.begin_download("modelA").unwrap();
    assert_eq!(m.poll_cancellation(&s2), Ok(()));
    assert_eq!(status_of(&m, "modelA"), ModelStatus::Downloading { progress: 0 });
}

#[test]
fn unknown_model_is_refused() {
    let mut m = manager_a();
    m.scan_models(&vec![FileProbe::Missing]);
    assert_eq!(m.begin_download("modelZ").err(), Some(ModelError::UnknownModel("modelZ".to_string())));
    assert_eq!(status_of(&m, "modelA"), ModelStatus::NotDownloaded);
    assert!(m.get_model_info("modelZ").is_none());
    assert!(m.begin_download("modelA").is_ok());
}

#[test]
fn transfer_failure_marks_error() {
    let mut m = manager_a();
    m.scan_models(&vec![FileProbe::Missing]);
    let s = m.begin_download("modelA").unwrap();
    let e = m.fail_download(&s, TransferFailure::Network("status 404".to_string()));
    assert_eq!(e, ModelError::Network("status 404".to_string()));
    assert_eq!(status_of(&m, "modelA"), ModelStatus::Error("status 404".to_string()));
    let s = m.begin_download("modelA").unwrap();
    let e = m.fail_download(&s, TransferFailure::Filesystem("disk full".to_string()));
    assert_eq!(e, ModelError::Filesystem("disk full".to_string()));
    assert!(m.begin_download("modelA").is_ok());
}

#[test]
fn invalid_download_marks_error() {
    let mut m = manager_a();
    m.scan_models(&vec![FileProbe::Missing]);
    let s = m.begin_download("modelA").unwrap();
    assert_eq!(m.finish_download(&s, b"<htm"), Err(ModelError::Validation(b"<htm".to_vec())));
    assert!(matches!(status_of(&m, "modelA"), ModelStatus::Error(_)));
    let s = m.begin_download("modelA").unwrap();
    assert_eq!(m.finish_download(&s, b"GG"), Err(ModelError::Validation(b"GG".to_vec())));
    assert_eq!(status_of(&m, "modelA"), ModelStatus::Error("downloaded file failed validation".to_string()));
    let s = m.begin_download("modelA").unwrap();
    assert_eq!(m.finish_download(&s, b""), Err(ModelError::Validation(Vec::new())));
    assert!(!m.is_model_ready("modelA"));
}

#[test]
fn delete_resets_status() {
    let mut m = manager_a();
    m.scan_models(&vec![FileProbe::Size(100 * BYTES_PER_MB)]);
    assert!(m.is_model_ready("modelA"));
    assert_eq!(m.model_file_path("modelA"), Ok("/models/a.bin".to_string()));
    assert_eq!(m.model_file_path("modelZ"), Err(ModelError::UnknownModel("modelZ".to_string())));
    assert_eq!(m.delete_model("modelZ"), Err(ModelError::UnknownModel("modelZ".to_string())));
    assert!(m.is_model_ready("modelA"));
    assert_eq!(m.delete_model("modelA"), Ok(()));
    assert_eq!(status_of(&m, "modelA"), ModelStatus::NotDownloaded);
}
