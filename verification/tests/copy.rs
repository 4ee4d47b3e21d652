use onedrive_api::copy::{read_status, MonitorReport};
use onedrive_api::error::{MissingPart, MisuseError, ProtocolError, TransportError};
use onedrive_api::resource::{DriveItem, ErrorObject};
use onedrive_api::{CopyProgressMonitor, CopyStatus, Error, ItemId};

const URL: &str = "https://api.example/monitor/4A3407B5";

fn report(status: &str) -> MonitorReport<f64> {
    MonitorReport {
        status: status.to_owned(),
        percentage: None,
        item: None,
        error: None,
    }
}

fn in_progress(percentage: f64) -> MonitorReport<f64> {
    MonitorReport {
        percentage: Some(percentage),
        ..report("inProgress")
    }
}

fn the_copy() -> DriveItem {
    let mut item = DriveItem::default();
    item.id = Some(ItemId::new("01COPY".to_owned()));
    item
}

fn the_reason() -> ErrorObject {
    ErrorObject {
        code: Some("nameAlreadyExists".to_owned()),
        message: Some("Name already exists".to_owned()),
        inner_error: None,
        extra_data: serde_json::Map::new(),
    }
}

#[test]
fn new_monitor_has_not_started() {
    let monitor: CopyProgressMonitor<f64> = CopyProgressMonitor::new(URL.to_owned());
    assert_eq!(monitor.monitor_url(), URL);
    assert_eq!(monitor.status(), &CopyStatus::NotStarted);
    assert_eq!(monitor.poll_request(), Ok(URL));
}

#[test]
fn start_response_wraps_the_monitor_url() {
    let monitor: CopyProgressMonitor<f64> =
        CopyProgressMonitor::start_response(Ok(Some(URL.to_owned()))).unwrap();
    assert_eq!(monitor.monitor_url(), URL);
    assert_eq!(monitor.status(), &CopyStatus::NotStarted);

    match CopyProgressMonitor::<f64>::start_response(Ok(None)) {
        Err(e) => assert_eq!(
            e,
            Error::Protocol(ProtocolError::Missing {
                what: MissingPart::MonitorUrl
            })
        ),
        Ok(_) => panic!("a monitor without a URL"),
    }
    let lost = TransportError::NoResponse { message: "refused".to_owned() };
    match CopyProgressMonitor::<f64>::start_response(Err(Error::Transport(lost.clone()))) {
        Err(e) => assert_eq!(e, Error::Transport(lost)),
        Ok(_) => panic!("a monitor from a failed request"),
    }
}

#[test]
fn status_by_name() {
    assert_eq!(read_status(report("notStarted")), Ok(CopyStatus::NotStarted));
    assert_eq!(
        read_status(in_progress(45.5)),
        Ok(CopyStatus::InProgress { percentage: 45.5 })
    );
    assert_eq!(
        read_status(MonitorReport {
            item: Some(the_copy()),
            ..report("completed")
        }),
        Ok(CopyStatus::Completed { item: the_copy() })
    );
    assert_eq!(
        read_status(MonitorReport {
            error: Some(the_reason()),
            ..report("failed")
        }),
        Ok(CopyStatus::Failed {
            error: the_reason()
        })
    );
}

#[test]
fn unknown_status_is_a_protocol_error() {
    for name in ["", "paused", "Completed", "inprogress", "failed ", "not_started"] {
        assert_eq!(
            read_status(MonitorReport {
                percentage: Some(1.0),
                item: Some(the_copy()),
                error: Some(the_reason()),
                ..report(name)
            }),
            Err(ProtocolError::UnknownStatus {
                status: name.to_owned()
            })
        );
    }
}

#[test]
fn status_without_its_member_is_a_protocol_error() {
    assert_eq!(
        read_status(report("inProgress")),
        Err(ProtocolError::Missing {
            what: MissingPart::Percentage
        })
    );
    assert_eq!(
        read_status(report("completed")),
        Err(ProtocolError::Missing {
            what: MissingPart::Item
        })
    );
    assert_eq!(
        read_status(report("failed")),
        Err(ProtocolError::Missing {
            what: MissingPart::Error
        })
    );
}

#[test]
fn poll_follows_the_reports() {
    let mut monitor = CopyProgressMonitor::new(URL.to_owned());
    assert_eq!(monitor.poll_response(Ok(report("notStarted"))), Ok(()));
    assert_eq!(monitor.status(), &CopyStatus::NotStarted);

    assert_eq!(monitor.poll_request(), Ok(URL));
    assert_eq!(monitor.poll_response(Ok(in_progress(60.0))), Ok(()));
    assert_eq!(monitor.status(), &CopyStatus::InProgress { percentage: 60.0 });

    // The percentage may fall.
    assert_eq!(monitor.poll_request(), Ok(URL));
    assert_eq!(monitor.poll_response(Ok(in_progress(25.0))), Ok(()));
    assert_eq!(monitor.status(), &CopyStatus::InProgress { percentage: 25.0 });

    assert_eq!(monitor.poll_request(), Ok(URL));
    assert_eq!(
        monitor.poll_response(Ok(MonitorReport {
            item: Some(the_copy()),
            ..report("completed")
        })),
        Ok(())
    );
    assert_eq!(monitor.status(), &CopyStatus::Completed { item: the_copy() });
    assert!(monitor.status().is_finished());
}

#[test]
fn poll_after_completed_is_misuse() {
    let mut monitor = CopyProgressMonitor::<f64>::new(URL.to_owned());
    assert_eq!(
        monitor.poll_response(Ok(MonitorReport {
            item: Some(the_copy()),
            ..report("completed")
        })),
        Ok(())
    );
    assert_eq!(
        monitor.poll_request(),
        Err(Error::Misuse(MisuseError::MonitorFinished))
    );
    assert_eq!(
        monitor.poll_response(Ok(in_progress(10.0))),
        Err(Error::Misuse(MisuseError::MonitorFinished))
    );
    assert_eq!(monitor.status(), &CopyStatus::Completed { item: the_copy() });
}

#[test]
fn poll_after_failed_is_misuse() {
    let mut monitor = CopyProgressMonitor::<f64>::new(URL.to_owned());
    assert_eq!(
        monitor.poll_response(Ok(MonitorReport {
            error: Some(the_reason()),
            ..report("failed")
        })),
        Ok(())
    );
    assert_eq!(
        monitor.status(),
        &CopyStatus::Failed {
            error: the_reason()
        }
    );
    assert_eq!(
        monitor.poll_request(),
        Err(Error::Misuse(MisuseError::MonitorFinished))
    );
    assert_eq!(
        monitor.poll_response(Ok(report("notStarted"))),
        Err(Error::Misuse(MisuseError::MonitorFinished))
    );
}

#[test]
fn failed_poll_keeps_the_last_status() {
    let mut monitor = CopyProgressMonitor::new(URL.to_owned());
    assert_eq!(monitor.poll_response(Ok(in_progress(30.0))), Ok(()));

    let lost = TransportError::NoResponse { message: "timed out".to_owned() };
    assert_eq!(
        monitor.poll_response(Err(Error::Transport(lost.clone()))),
        Err(Error::Transport(lost))
    );
    assert_eq!(monitor.status(), &CopyStatus::InProgress { percentage: 30.0 });

    assert_eq!(
        monitor.poll_response(Ok(report("paused"))),
        Err(Error::Protocol(ProtocolError::UnknownStatus {
            status: "paused".to_owned()
        }))
    );
    assert_eq!(monitor.status(), &CopyStatus::InProgress { percentage: 30.0 });

    assert_eq!(
        monitor.poll_response(Ok(report("completed"))),
        Err(Error::Protocol(ProtocolError::Missing {
            what: MissingPart::Item
        }))
    );
    assert_eq!(monitor.status(), &CopyStatus::InProgress { percentage: 30.0 });
    assert_eq!(monitor.poll_request(), Ok(URL));
}

#[test]
fn status_tells_whether_it_is_an_end() {
    assert!(!CopyStatus::<f64>::NotStarted.is_finished());
    assert!(!CopyStatus::InProgress { percentage: 99.9 }.is_finished());
    assert!(CopyStatus::<f64>::Completed { item: the_copy() }.is_finished());
    assert!(CopyStatus::<f64>::Failed {
        error: the_reason()
    }
    .is_finished());
}
