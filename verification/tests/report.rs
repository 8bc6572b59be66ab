use lana_core::primitives::EntityId;
use lana_core::report::{
    monitor_report_run_step, report_events_to_publish, report_run_events_to_publish,
    CoreReportEvent, JobCompletion, NewReport, NewReportRun, PipelineReport, PipelineRunDetails,
    Report, ReportConfig, ReportError, ReportFile, ReportRun, ReportRunState, ReportRunType,
};

fn file(ext: &str, path: &str) -> ReportFile {
    ReportFile { extension: ext.to_string(), path_in_bucket: path.to_string() }
}

fn new_run() -> ReportRun {
    let new_run = NewReportRun::builder().external_id("ext-run".to_string()).build().unwrap();
    ReportRun::try_from_events(new_run.into_events()).unwrap()
}

#[test]
fn report_files_are_found_by_extension() {
    let new_report = NewReport::builder()
        .external_id("r-1".to_string())
        .run_id(EntityId::new())
        .name("balance sheet".to_string())
        .norm("nrp".to_string())
        .files(vec![file("csv", "a.csv"), file("xml", "a.xml"), file("csv", "b.csv")])
        .build()
        .unwrap();
    let report = Report::try_from_events(new_report.into_events()).unwrap();
    assert_eq!(report.file_with_extension("csv").unwrap().path_in_bucket, "a.csv");
    assert_eq!(report.file_with_extension("xml").unwrap().path_in_bucket, "a.xml");
    assert_eq!(report.file_with_extension("pdf").err(), Some(ReportError::NotFound));
    let announced = report_events_to_publish(&report, &report.events);
    assert_eq!(announced, vec![CoreReportEvent::ReportCreated { id: report.id }]);
    assert!(Report::try_from_events(vec![]).is_err());
}

#[test]
fn new_report_run_starts_queued_and_manual() {
    let run = new_run();
    assert_eq!(run.state, ReportRunState::Queued);
    assert_eq!(run.run_type, ReportRunType::Manual);
    assert_eq!(run.external_id, "ext-run");
    assert!(run.start_date.is_none());
    assert!(NewReportRun::builder().build().is_err());
}

#[test]
fn monitoring_waits_without_details_or_change() {
    let mut run = new_run();
    let out = monitor_report_run_step(&mut run, None);
    assert_eq!(out.completion, JobCompletion::RescheduleNow);
    assert!(out.new_reports.is_empty());
    let details = PipelineRunDetails {
        state: ReportRunState::Queued,
        run_type: ReportRunType::Manual,
        execution_date: 1,
        start_date: 2,
        end_date: None,
        reports: None,
    };
    let out = monitor_report_run_step(&mut run, Some(details));
    assert_eq!(out.completion, JobCompletion::RescheduleNow);
    assert_eq!(run.events.len(), 1);
}

#[test]
fn monitoring_records_progress_and_creates_reports_at_the_end() {
    let mut run = new_run();
    let running = PipelineRunDetails {
        state: ReportRunState::Running,
        run_type: ReportRunType::Scheduled,
        execution_date: 10,
        start_date: 11,
        end_date: None,
        reports: None,
    };
    let out = monitor_report_run_step(&mut run, Some(running));
    assert_eq!(out.completion, JobCompletion::RescheduleNow);
    assert_eq!(run.state, ReportRunState::Running);
    assert_eq!(run.start_date, Some(11));

    let done = PipelineRunDetails {
        state: ReportRunState::Success,
        run_type: ReportRunType::Scheduled,
        execution_date: 10,
        start_date: 11,
        end_date: Some(20),
        reports: Some(vec![
            PipelineReport {
                id: "rep-a".to_string(),
                name: "a".to_string(),
                norm: "n".to_string(),
                files: vec![file("csv", "a.csv")],
            },
            PipelineReport {
                id: "rep-b".to_string(),
                name: "b".to_string(),
                norm: "n".to_string(),
                files: vec![],
            },
        ]),
    };
    let out = monitor_report_run_step(&mut run, Some(done));
    assert_eq!(out.completion, JobCompletion::Complete);
    assert_eq!(run.state, ReportRunState::Success);
    assert_eq!(run.end_date, Some(20));
    assert_eq!(out.new_reports.len(), 2);
    assert_eq!(out.new_reports[0].external_id, "rep-a");
    assert_eq!(out.new_reports[0].run_id, run.id);
    assert_eq!(out.new_reports[1].name, "b");
    let announced = report_run_events_to_publish(&run, &run.events);
    assert_eq!(
        announced,
        vec![
            CoreReportEvent::ReportRunCreated { id: run.id },
            CoreReportEvent::ReportRunStateUpdated { id: run.id },
            CoreReportEvent::ReportRunStateUpdated { id: run.id },
        ]
    );
}

#[test]
fn reports_are_enabled_by_the_data_pipeline_setting() {
    assert!(ReportConfig::from_data_pipeline_setting(Some("true".to_string())).enabled);
    assert!(ReportConfig::from_data_pipeline_setting(Some("TRUE".to_string())).enabled);
    assert!(ReportConfig::from_data_pipeline_setting(Some("True".to_string())).enabled);
    assert!(!ReportConfig::from_data_pipeline_setting(Some("yes".to_string())).enabled);
    assert!(!ReportConfig::from_data_pipeline_setting(Some(" true".to_string())).enabled);
    assert!(!ReportConfig::from_data_pipeline_setting(None).enabled);
    assert_eq!(ReportConfig { enabled: false }.check_enabled(), Err(ReportError::Disabled));
    assert_eq!(ReportConfig { enabled: true }.check_enabled(), Ok(()));
}
