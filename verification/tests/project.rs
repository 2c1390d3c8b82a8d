use curcat::project::{
    loaded_status, loading_status, opened_project_step, push_checksum, save_request_status, save_status,
    warning_text, ImagePathSource, OpenedProjectStep, ProjectWarning, ResolvedImageCheck, SaveEvent,
};

fn checksum(v: u32) -> String {
    let mut s = String::new();
    push_checksum(&mut s, v);
    s
}

#[test]
fn checksums_print_as_padded_lower_hex() {
    assert_eq!(checksum(0), "0x00000000");
    assert_eq!(checksum(255), "0x000000ff");
    assert_eq!(checksum(0x1234_abcd), "0x1234abcd");
    assert_eq!(checksum(u32::MAX), "0xffffffff");
    for v in [1u32, 16, 0xdead_beef, 0x0bad_f00d, 4_000_000_000] {
        assert_eq!(checksum(v), format!("{v:#010x}"));
    }
}

#[test]
fn loading_status_names_source_or_checksum_mismatch() {
    let ok = ResolvedImageCheck {
        source: ImagePathSource::Relative,
        checksum_matches: true,
        expected: 7,
        actual: Some(7),
    };
    assert_eq!(loading_status(2, ok), "Loading project v2 image from relative path…");
    let bad = ResolvedImageCheck {
        source: ImagePathSource::Absolute,
        checksum_matches: false,
        expected: 0xabc,
        actual: None,
    };
    assert_eq!(
        loading_status(3, bad),
        "Image checksum mismatch (expected 0x00000abc, got unknown). Loading from absolute path…"
    );
    let other = ResolvedImageCheck { actual: Some(0x10), ..bad };
    assert_eq!(
        loading_status(3, other),
        "Image checksum mismatch (expected 0x00000abc, got 0x00000010). Loading from absolute path…"
    );
}

#[test]
fn loaded_status_reports_checksum_warning() {
    let ok = ResolvedImageCheck {
        source: ImagePathSource::Absolute,
        checksum_matches: true,
        expected: 1,
        actual: Some(1),
    };
    assert_eq!(loaded_status(12, ok), "Project v12 loaded (absolute path).");
    let bad = ResolvedImageCheck { checksum_matches: false, actual: Some(2), ..ok };
    assert_eq!(
        loaded_status(12, bad),
        "Project v12 loaded with checksum warning (expected 0x00000001, got 0x00000002)."
    );
}

#[test]
fn project_warnings_describe_missing_and_mismatched_images() {
    let missing = ProjectWarning::MissingImage {
        path: "/data/plot.png".to_string(),
        source: ImagePathSource::Relative,
        reason: "not found".to_string(),
    };
    assert_eq!(warning_text(&missing), "Missing image (Relative path) at /data/plot.png: not found");
    let mismatch = ProjectWarning::ChecksumMismatch {
        path: "a.png".to_string(),
        source: ImagePathSource::Absolute,
        expected: 0xff,
        actual: 0x100,
    };
    assert_eq!(
        warning_text(&mismatch),
        "Checksum mismatch (Absolute path) at a.png: expected 0x000000ff, got 0x00000100"
    );
}

#[test]
fn opened_projects_with_warnings_wait_for_confirmation() {
    assert_eq!(opened_project_step(0), OpenedProjectStep::ApplyNow);
    assert_eq!(
        opened_project_step(2),
        OpenedProjectStep::Confirm { status: "Project has warnings. Confirm to continue loading.".to_string() }
    );
}

#[test]
fn save_job_reports_each_outcome() {
    assert_eq!(save_status(&SaveEvent::Saved).as_deref(), Some("Project saved."));
    assert_eq!(
        save_status(&SaveEvent::Failed("disk full".to_string())).as_deref(),
        Some("Project save failed: disk full")
    );
    assert_eq!(save_status(&SaveEvent::Pending), None);
    assert_eq!(
        save_status(&SaveEvent::Disconnected).as_deref(),
        Some("Project save failed: worker disconnected.")
    );
    assert_eq!(save_request_status(true, &None).as_deref(), Some("Project save already in progress."));
    assert_eq!(
        save_request_status(false, &Some("no image".to_string())).as_deref(),
        Some("Project save failed: no image")
    );
    assert_eq!(save_request_status(false, &None), None);
}
