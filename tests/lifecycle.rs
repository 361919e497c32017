use jobbroker::client::{run_outcome, validate_script, ClientError};
use jobbroker::config::{Config, Service};
use jobbroker::job::{join, Job, Payload};
use jobbroker::status::Status;
use jobbroker::tasks::{
    clean_pass, getter_apply, getter_status, is_expired, runner_status, sender_finish,
    sender_start, DirEntry,
};
use jobbroker::transfer::{
    download_plan, output_path, retrieve_code, retrieve_url, send_url, upload_outcome,
    upload_part_names, DownloadError, DownloadPlan, UploadError, GETTER_CONCURRENCY,
};

fn submitted_job(dest_id: u32) -> Job {
    let mut job = Job::new("/data/3");
    job.set_status(Status::Submitted);
    job.set_dest_id(dest_id);
    job
}

fn outcome_for(code: u16) -> Result<(), DownloadError> {
    match download_plan(code) {
        DownloadPlan::WriteOutput => Ok(()),
        DownloadPlan::Fail(e) => Err(e),
        DownloadPlan::ReportUnexpected => Err(DownloadError::UnexpectedStatus {
            status: code,
            body: "Unexpected error".to_string(),
        }),
    }
}

fn status_after_download(code: u16) -> Status {
    let mut job = submitted_job(123);
    getter_apply(&mut job, &outcome_for(code));
    job.status
}

#[test]
fn getter_maps_each_http_status() {
    assert_eq!(status_after_download(200), Status::Completed);
    assert_eq!(status_after_download(202), Status::Submitted);
    assert_eq!(status_after_download(204), Status::Cleaned);
    assert_eq!(status_after_download(400), Status::Invalid);
    assert_eq!(status_after_download(404), Status::Unknown);
    assert_eq!(status_after_download(410), Status::Failed);
    assert_eq!(status_after_download(500), Status::Failed);
    assert_eq!(status_after_download(418), Status::Unknown);
}

#[test]
fn getter_scenario_remote_answers() {
    for (code, expected) in [
        (204, Status::Cleaned),
        (410, Status::Failed),
        (400, Status::Invalid),
        (202, Status::Submitted),
    ] {
        let mut job = submitted_job(123);
        getter_apply(&mut job, &outcome_for(code));
        assert_eq!(job.status, expected);
        assert_eq!(job.dest_id, 123);
    }
}

#[test]
fn getter_leaves_job_alone_when_not_ready() {
    assert_eq!(getter_status(&Err(DownloadError::JobNotReady)), None);
    assert_eq!(getter_status(&Ok(())), Some(Status::Completed));
    let e = DownloadError::FileWrite { path: "/x/output.zip".to_string(), message: "disk full".to_string() };
    assert_eq!(getter_status(&Err(e)), Some(Status::Unknown));
    assert_eq!(getter_status(&Err(DownloadError::NoUrlConfigured)), Some(Status::Unknown));
}

#[test]
fn download_plan_fine_grained() {
    assert!(matches!(download_plan(200), DownloadPlan::WriteOutput));
    assert!(matches!(download_plan(202), DownloadPlan::Fail(DownloadError::JobNotReady)));
    assert!(matches!(download_plan(204), DownloadPlan::Fail(DownloadError::JobCleaned)));
    assert!(matches!(download_plan(400), DownloadPlan::Fail(DownloadError::JobInvalid)));
    assert!(matches!(download_plan(404), DownloadPlan::Fail(DownloadError::JobNotFound)));
    assert!(matches!(download_plan(410), DownloadPlan::Fail(DownloadError::JobFailed)));
    assert!(matches!(download_plan(500), DownloadPlan::Fail(DownloadError::JobFailed)));
    assert!(matches!(download_plan(418), DownloadPlan::ReportUnexpected));
    assert!(matches!(download_plan(201), DownloadPlan::ReportUnexpected));
}

#[test]
fn runner_maps_outcomes() {
    assert_eq!(runner_status(&Ok(())), Status::Completed);
    assert_eq!(runner_status(&Err(ClientError::Script)), Status::Completed);
    assert_eq!(runner_status(&Err(ClientError::NoExecScript)), Status::Invalid);
    let unsafe_script = ClientError::UnsafeScript { reason: "network tool: curl".to_string() };
    assert_eq!(runner_status(&Err(unsafe_script)), Status::Invalid);
    assert_eq!(runner_status(&Err(ClientError::Execution)), Status::Failed);
}

#[test]
fn runner_nonzero_exit_completes() {
    // run.sh is `#!/bin/bash\nexit 1\n`: it is accepted, runs, exits 1.
    assert!(validate_script("#!/bin/bash\nexit 1\n").is_ok());
    assert_eq!(runner_status(&run_outcome(Some(false))), Status::Completed);
}

#[test]
fn runner_unsafe_script_is_invalid() {
    let verdict = validate_script("#!/bin/bash\ncurl evil\n");
    assert_eq!(runner_status(&verdict), Status::Invalid);
}

#[test]
fn sender_transitions() {
    let mut job = Job::new("/data/1");
    job.set_status(Status::Queued);
    sender_start(&mut job);
    assert_eq!(job.status, Status::Processing);
    sender_finish(&mut job, &Ok(42));
    assert_eq!(job.status, Status::Submitted);
    assert_eq!(job.dest_id, 42);

    let mut job = Job::new("/data/2");
    sender_start(&mut job);
    sender_finish(&mut job, &Err(UploadError::NoUrlConfigured));
    assert_eq!(job.status, Status::Failed);
    assert_eq!(job.dest_id, 0);
}

fn config_with(name: &str) -> Config {
    Config {
        services: vec![Service {
            name: name.to_string(),
            upload_url: "http://c.example/submit".to_string(),
            download_url: "http://c.example/retrieve".to_string(),
            runs_per_user: 5,
        }],
        db_path: "/db.sqlite".to_string(),
        data_path: "/data".to_string(),
        max_age: 60,
    }
}

#[test]
fn urls_resolve_through_service() {
    let config = config_with("gpu");
    let mut job = Job::new("/data/1");
    job.set_service("gpu".to_string());
    job.set_dest_id(123);
    assert_eq!(send_url(&job, &config).unwrap(), "http://c.example/submit");
    assert_eq!(retrieve_url(&job, &config).unwrap(), "http://c.example/retrieve/123");

    job.set_service("cpu".to_string());
    assert!(matches!(send_url(&job, &config), Err(UploadError::NoUrlConfigured)));
    assert!(matches!(retrieve_url(&job, &config), Err(DownloadError::NoUrlConfigured)));
}

#[test]
fn retrieve_url_writes_ids_in_decimal() {
    let config = config_with("a");
    let mut job = Job::new("/data/1");
    job.set_service("a".to_string());
    for (id, text) in [(0u32, "0"), (7, "7"), (10, "10"), (4294967295, "4294967295")] {
        job.set_dest_id(id);
        assert_eq!(retrieve_url(&job, &config).unwrap(), format!("http://c.example/retrieve/{}", text));
    }
}

#[test]
fn upload_keeps_tree_structure() {
    assert_eq!(
        upload_part_names("/data/5", "/data/5/a/b.txt"),
        ("a/b.txt".to_string(), "b.txt".to_string())
    );
    assert_eq!(
        upload_part_names("/data/5", "/data/5/c.txt"),
        ("c.txt".to_string(), "c.txt".to_string())
    );
    assert_eq!(
        upload_part_names("/data/5/", "/data/5/c.txt"),
        ("c.txt".to_string(), "c.txt".to_string())
    );
    assert_eq!(
        upload_part_names("/data/5", "/elsewhere/d.txt"),
        ("/elsewhere/d.txt".to_string(), "d.txt".to_string())
    );
}

#[test]
fn upload_outcome_cases() {
    assert_eq!(upload_outcome(200, "{}".to_string(), Ok(42)).unwrap(), 42);
    match upload_outcome(201, "x".to_string(), Err("expected value".to_string())) {
        Err(UploadError::DeserializationFailed { message }) => assert_eq!(message, "expected value"),
        _ => panic!("expected a deserialization failure"),
    }
    match upload_outcome(500, "Internal Server Error".to_string(), Ok(1)) {
        Err(UploadError::UnexpectedStatus { status, body }) => {
            assert_eq!(status, 500);
            assert_eq!(body, "Internal Server Error");
        }
        _ => panic!("expected an unexpected status"),
    }
}

#[test]
fn retrieve_codes() {
    assert_eq!(retrieve_code(None), 404);
    assert_eq!(retrieve_code(Some(Status::Completed)), 200);
    assert_eq!(retrieve_code(Some(Status::Invalid)), 400);
    assert_eq!(retrieve_code(Some(Status::Failed)), 500);
    assert_eq!(retrieve_code(Some(Status::Cleaned)), 204);
    for s in [
        Status::Pending,
        Status::Prepared,
        Status::Processing,
        Status::Queued,
        Status::Submitted,
        Status::Unknown,
    ] {
        assert_eq!(retrieve_code(Some(s)), 202);
    }
}

#[test]
fn download_target_is_output_zip() {
    assert_eq!(output_path("/data/4"), "/data/4/output.zip");
    assert_eq!(output_path("/data/4/"), "/data/4/output.zip");
}

#[test]
fn getter_bound_is_ten() {
    assert_eq!(GETTER_CONCURRENCY, 10);
}

#[test]
fn submit_sanitizes_and_prepares() {
    let mut payload = Payload::new();
    payload.receive_file("../../etc/passwd", b"x".to_vec());
    payload.set_id(1);
    let writes = payload.prepare("/srv/data");
    assert_eq!(payload.loc, "/srv/data/1");
    assert!(payload.inputs.is_empty());
    assert_eq!(writes, vec![("/srv/data/1/passwd".to_string(), b"x".to_vec())]);
    payload.set_status(Status::Prepared);
    assert_eq!(payload.status, Status::Prepared);
}

#[test]
fn prepare_writes_every_file_in_order() {
    let mut payload = Payload::new();
    payload.receive_files(vec![
        ("a.txt".to_string(), b"A".to_vec()),
        ("dir/run.sh".to_string(), b"#!/bin/bash".to_vec()),
        ("".to_string(), b"".to_vec()),
    ]);
    payload.set_id(12);
    let writes = payload.prepare("/d/");
    assert_eq!(payload.loc, "/d/12");
    assert_eq!(
        writes,
        vec![
            ("/d/12/a.txt".to_string(), b"A".to_vec()),
            ("/d/12/run.sh".to_string(), b"#!/bin/bash".to_vec()),
            ("/d/12/file".to_string(), Vec::new()),
        ]
    );
}

#[test]
fn new_payload_is_pending() {
    let payload = Payload::new();
    assert_eq!(payload.status, Status::Pending);
    assert_eq!(payload.id, 0);
    assert_eq!(payload.loc, "");
}

#[test]
fn join_paths() {
    assert_eq!(join("/a", "b"), "/a/b");
    assert_eq!(join("/a/", "b"), "/a/b");
    assert_eq!(join("", "b"), "b");
}

fn dir(path: &str, age: Option<u64>) -> DirEntry {
    DirEntry { path: path.to_string(), is_dir: true, age }
}

#[test]
fn cleaner_reaps_owned_expired_directories() {
    let mut owner = Job::new("/data/1");
    owner.set_status(Status::Completed);
    let mut jobs = vec![owner];
    let dirs = vec![dir("/data/1", Some(0)), dir("/data/9", Some(5))];
    let remove = clean_pass(&mut jobs, &dirs, 0);
    assert_eq!(remove, vec![true, false]);
    assert_eq!(jobs[0].status, Status::Cleaned);
}

#[test]
fn cleaner_keeps_young_directories_and_files() {
    let mut jobs = vec![Job::new("/data/1"), Job::new("/data/2")];
    let dirs = vec![
        dir("/data/1", Some(10)),
        DirEntry { path: "/data/2".to_string(), is_dir: false, age: Some(100) },
        dir("/data/3", None),
    ];
    let remove = clean_pass(&mut jobs, &dirs, 60);
    assert_eq!(remove, vec![false, false, false]);
    assert_eq!(jobs[0].status, Status::Pending);
    assert_eq!(jobs[1].status, Status::Pending);
}

#[test]
fn cleaner_second_pass_changes_nothing() {
    let mut jobs = vec![Job::new("/data/1"), Job::new("/data/2")];
    let dirs = vec![dir("/data/1", Some(100)), dir("/data/2", Some(1)), dir("/data/7", Some(100))];
    let remove = clean_pass(&mut jobs, &dirs, 50);
    assert_eq!(remove, vec![true, false, false]);
    let left: Vec<DirEntry> = dirs
        .into_iter()
        .zip(remove)
        .filter(|(_, r)| !r)
        .map(|(d, _)| d)
        .collect();
    let statuses: Vec<Status> = jobs.iter().map(|j| j.status).collect();
    let again = clean_pass(&mut jobs, &left, 50);
    assert_eq!(again, vec![false, false]);
    let statuses_again: Vec<Status> = jobs.iter().map(|j| j.status).collect();
    assert_eq!(statuses, statuses_again);
}

#[test]
fn expiry_compares_whole_seconds() {
    assert!(is_expired(&dir("/d", Some(7200)), 7200));
    assert!(!is_expired(&dir("/d", Some(7199)), 7200));
    assert!(!is_expired(&dir("/d", None), 0));
    assert!(is_expired(&dir("/d", Some(0)), 0));
}
