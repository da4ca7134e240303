use fileman::pipeline::{new_folder_request, FileOperationRequest, FsCall, OperationRun, Outcome};

fn s(x: &str) -> String {
    x.to_string()
}

#[test]
fn delete_stops_at_first_failure_and_still_refreshes() {
    let mut run = OperationRun::start(FileOperationRequest::Delete(vec![s("/tmp/a"), s("/tmp/b")]));
    assert_eq!(run.next_call(), Some(FsCall::Delete(s("/tmp/a"))));
    run.record(Err(s("Failed to remove file: permission denied")));
    assert_eq!(run.next_call(), None);
    assert_eq!(
        run.outcome(),
        Outcome { status: s("Error: Failed to remove file: permission denied"), refresh: true }
    );
}

#[test]
fn delete_of_every_path_reports_the_count() {
    let mut run = OperationRun::start(FileOperationRequest::Delete(vec![s("/tmp/a"), s("/tmp/b")]));
    assert_eq!(run.next_call(), Some(FsCall::Delete(s("/tmp/a"))));
    run.record(Ok(()));
    assert_eq!(run.next_call(), Some(FsCall::Delete(s("/tmp/b"))));
    run.record(Ok(()));
    assert_eq!(run.next_call(), None);
    assert_eq!(run.outcome(), Outcome { status: s("Deleted 2 item(s)"), refresh: true });
}

#[test]
fn created_directory_is_refreshed_into_view() {
    let request = FileOperationRequest::CreateDirectory { parent: s("/tmp"), name: s("New Folder 123") };
    let mut run = OperationRun::start(request);
    assert_eq!(run.next_call(), Some(FsCall::CreateDirectory(s("/tmp/New Folder 123"))));
    run.record(Ok(()));
    assert_eq!(run.next_call(), None);
    assert_eq!(run.outcome(), Outcome { status: s("Created directory 'New Folder 123'"), refresh: true });
}

#[test]
fn failed_creation_reports_without_refresh() {
    let request = FileOperationRequest::CreateDirectory { parent: s("/tmp/"), name: s("x") };
    let mut run = OperationRun::start(request);
    assert_eq!(run.next_call(), Some(FsCall::CreateDirectory(s("/tmp/x"))));
    run.record(Err(s("Failed to create directory: exists")));
    assert_eq!(run.outcome(), Outcome { status: s("Error: Failed to create directory: exists"), refresh: false });
}

#[test]
fn rename_reports_success_or_error() {
    let mut ok = OperationRun::start(FileOperationRequest::Rename { from: s("/tmp/a"), to: s("/tmp/b") });
    assert_eq!(ok.next_call(), Some(FsCall::Rename { from: s("/tmp/a"), to: s("/tmp/b") }));
    ok.record(Ok(()));
    assert_eq!(ok.outcome(), Outcome { status: s("Renamed successfully"), refresh: true });
    let mut bad = OperationRun::start(FileOperationRequest::Rename { from: s("/tmp/a"), to: s("/tmp/b") });
    bad.record(Err(s("Failed to rename: gone")));
    assert_eq!(bad.next_call(), None);
    assert_eq!(bad.outcome(), Outcome { status: s("Error: Failed to rename: gone"), refresh: false });
}

#[test]
fn properties_make_no_call() {
    let run = OperationRun::start(FileOperationRequest::Properties(vec![s("/tmp/a")]));
    assert_eq!(run.next_call(), None);
    assert_eq!(
        run.outcome(),
        Outcome { status: s("Properties functionality available via right-click"), refresh: false }
    );
}

#[test]
fn empty_delete_reports_zero_items() {
    let run = OperationRun::start(FileOperationRequest::Delete(Vec::new()));
    assert_eq!(run.next_call(), None);
    assert_eq!(run.outcome(), Outcome { status: s("Deleted 0 item(s)"), refresh: true });
}

#[test]
fn new_folder_is_named_after_the_time() {
    assert_eq!(
        new_folder_request(s("/home/u"), 1700000000),
        FileOperationRequest::CreateDirectory { parent: s("/home/u"), name: s("New Folder 1700000000") }
    );
}
