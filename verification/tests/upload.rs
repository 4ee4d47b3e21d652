use onedrive_api::error::{MisuseError, ProtocolError, TransportError};
use onedrive_api::resource::DriveItem;
use onedrive_api::upload::{read_ranges, ChunkReply, ChunkRequest};
use onedrive_api::{ConflictBehavior, Error, ExpectRange, ItemId, UploadSession};

/// A server that commits every chunk it gets, and answers as the service
/// does: with the runs of bytes that it misses, or with the item.
struct Server {
    have: Vec<bool>,
}

impl Server {
    fn new(size: usize) -> Server {
        Server {
            have: vec![false; size],
        }
    }

    fn put(&mut self, range: &ExpectRange) -> ChunkReply {
        for offset in range.start..range.end.unwrap() {
            assert!(!self.have[offset as usize], "byte {} sent twice", offset);
            self.have[offset as usize] = true;
        }
        let mut missing = Vec::new();
        let mut at = 0;
        while at < self.have.len() {
            if self.have[at] {
                at += 1;
                continue;
            }
            let from = at;
            while at < self.have.len() && !self.have[at] {
                at += 1;
            }
            if at == self.have.len() {
                missing.push(format!("{}-", from));
            } else {
                missing.push(format!("{}-{}", from, at - 1));
            }
        }
        if missing.is_empty() {
            ChunkReply::Completed { item: the_item() }
        } else {
            ChunkReply::Pending {
                next_expected_ranges: missing,
            }
        }
    }
}

fn the_item() -> DriveItem {
    let mut item = DriveItem::default();
    item.id = Some(ItemId::new("01NEW".to_owned()));
    item.name = Some("file.bin".to_owned());
    item.size = Some(10);
    item
}

fn session(size: u64) -> UploadSession {
    UploadSession::new(
        "https://up.example/session/1".to_owned(),
        size,
        ConflictBehavior::Replace,
    )
}

fn bounded(start: u64, end: u64) -> ExpectRange {
    ExpectRange {
        start,
        end: Some(end),
    }
}

fn upload(
    session: &mut UploadSession,
    server: &mut Server,
    range: &ExpectRange,
) -> Result<Option<DriveItem>, Error> {
    let len = (range.end.unwrap() - range.start) as usize;
    session.chunk_request(range, len)?;
    session.chunk_response(Ok(server.put(range)))
}

#[test]
fn new_session_misses_the_whole_file() {
    let session = session(10);
    assert_eq!(session.upload_url(), "https://up.example/session/1");
    assert_eq!(session.file_size(), 10);
    assert_eq!(session.conflict_behavior(), ConflictBehavior::Replace);
    assert!(!session.is_finished());
    assert_eq!(
        session.missing_ranges(),
        &vec![ExpectRange {
            start: 0,
            end: None
        }]
    );
}

#[test]
fn chunk_request_names_url_and_content_range() {
    let session = session(10);
    assert_eq!(
        session.chunk_request(&bounded(0, 3), 3),
        Ok(ChunkRequest {
            url: "https://up.example/session/1".to_owned(),
            content_range: "bytes 0-2/10".to_owned(),
        })
    );
    assert_eq!(
        session.chunk_request(&bounded(7, 10), 3).unwrap().content_range,
        "bytes 7-9/10"
    );
    assert_eq!(
        session.chunk_request(&bounded(0, 10), 10).unwrap().content_range,
        "bytes 0-9/10"
    );
}

#[test]
fn every_order_of_a_partition_completes_once() {
    let parts = [bounded(0, 3), bounded(3, 7), bounded(7, 10)];
    let orders = [
        [0, 1, 2],
        [0, 2, 1],
        [1, 0, 2],
        [1, 2, 0],
        [2, 0, 1],
        [2, 1, 0],
    ];
    for order in &orders {
        let mut session = session(10);
        let mut server = Server::new(10);
        assert_eq!(upload(&mut session, &mut server, &parts[order[0]]), Ok(None));
        assert!(!session.is_finished());
        assert_eq!(upload(&mut session, &mut server, &parts[order[1]]), Ok(None));
        assert!(!session.is_finished());
        assert_eq!(
            upload(&mut session, &mut server, &parts[order[2]]),
            Ok(Some(the_item()))
        );
        assert!(session.is_finished());
        assert!(session.missing_ranges().is_empty());
        for part in &parts {
            assert_eq!(
                session.chunk_request(part, (part.end.unwrap() - part.start) as usize),
                Err(Error::Misuse(MisuseError::UploadFinished))
            );
        }
    }
}

#[test]
fn single_chunk_upload_completes() {
    let mut session = session(10);
    let mut server = Server::new(10);
    assert_eq!(
        upload(&mut session, &mut server, &bounded(0, 10)),
        Ok(Some(the_item()))
    );
}

#[test]
fn missing_ranges_follow_the_server() {
    let mut session = session(10);
    let mut server = Server::new(10);
    assert_eq!(upload(&mut session, &mut server, &bounded(3, 7)), Ok(None));
    assert_eq!(
        session.missing_ranges(),
        &vec![
            bounded(0, 3),
            ExpectRange {
                start: 7,
                end: None
            }
        ]
    );
    assert!(session.misses(&bounded(0, 3)));
    assert!(session.misses(&bounded(1, 2)));
    assert!(session.misses(&bounded(7, 10)));
    assert!(!session.misses(&bounded(2, 4)));
    assert!(!session.misses(&bounded(3, 7)));
    assert!(!session.misses(&bounded(6, 8)));
}

#[test]
fn committed_range_is_refused() {
    let mut session = session(10);
    let mut server = Server::new(10);
    assert_eq!(upload(&mut session, &mut server, &bounded(0, 4)), Ok(None));
    // The same range again, a part of it, and a range that overlaps it.
    for (range, len) in [(bounded(0, 4), 4), (bounded(1, 2), 1), (bounded(3, 6), 3)] {
        assert_eq!(
            session.chunk_request(&range, len),
            Err(Error::Misuse(MisuseError::RangeNotMissing))
        );
    }
    // What is still missing is taken.
    assert!(session.chunk_request(&bounded(4, 6), 2).is_ok());
}

#[test]
fn chunk_misuse_by_kind() {
    let session = session(10);
    assert_eq!(
        session.chunk_request(
            &ExpectRange {
                start: 0,
                end: None
            },
            10
        ),
        Err(Error::Misuse(MisuseError::UnboundedRange))
    );
    assert_eq!(
        session.chunk_request(&bounded(5, 5), 0),
        Err(Error::Misuse(MisuseError::EmptyRange))
    );
    assert_eq!(
        session.chunk_request(&bounded(5, 3), 2),
        Err(Error::Misuse(MisuseError::EmptyRange))
    );
    assert_eq!(
        session.chunk_request(&bounded(0, 11), 11),
        Err(Error::Misuse(MisuseError::RangeExceedsFile))
    );
    // One byte too many, and one too few.
    assert_eq!(
        session.chunk_request(&bounded(0, 4), 5),
        Err(Error::Misuse(MisuseError::LengthMismatch))
    );
    assert_eq!(
        session.chunk_request(&bounded(0, 4), 3),
        Err(Error::Misuse(MisuseError::LengthMismatch))
    );
}

#[test]
fn empty_file_takes_no_chunk() {
    let session = session(0);
    assert_eq!(
        session.chunk_request(&bounded(0, 1), 1),
        Err(Error::Misuse(MisuseError::RangeExceedsFile))
    );
}

#[test]
fn failed_request_leaves_the_session_as_it_was() {
    let mut session = session(10);
    let mut server = Server::new(10);
    assert_eq!(upload(&mut session, &mut server, &bounded(0, 4)), Ok(None));
    let before = session.missing_ranges().clone();

    let lost = Error::Transport(TransportError::NoResponse { message: "timed out".to_owned() });
    assert!(session.chunk_request(&bounded(4, 8), 4).is_ok());
    assert_eq!(
        session.chunk_response(Err(Error::Transport(TransportError::NoResponse { message: "timed out".to_owned() }))),
        Err(lost)
    );
    assert_eq!(session.missing_ranges(), &before);
    assert!(!session.is_finished());

    // The same chunk can be sent again.
    assert_eq!(upload(&mut session, &mut server, &bounded(4, 8)), Ok(None));
    assert_eq!(
        upload(&mut session, &mut server, &bounded(8, 10)),
        Ok(Some(the_item()))
    );
}

#[test]
fn malformed_range_is_a_protocol_error() {
    let mut session = session(10);
    let reply = ChunkReply::Pending {
        next_expected_ranges: vec!["4-5".to_owned(), "8-6".to_owned(), "x".to_owned()],
    };
    assert_eq!(
        session.chunk_response(Ok(reply)),
        Err(Error::Protocol(ProtocolError::MalformedRange {
            text: "8-6".to_owned()
        }))
    );
    assert_eq!(
        session.missing_ranges(),
        &vec![ExpectRange {
            start: 0,
            end: None
        }]
    );
}

#[test]
fn finished_session_takes_no_response() {
    let mut session = session(4);
    let mut server = Server::new(4);
    assert_eq!(
        upload(&mut session, &mut server, &bounded(0, 4)),
        Ok(Some(the_item()))
    );
    assert_eq!(
        session.chunk_response(Ok(ChunkReply::Completed { item: the_item() })),
        Err(Error::Misuse(MisuseError::UploadFinished))
    );
    assert!(session.is_finished());
}

#[test]
fn read_ranges_reads_each_text() {
    assert_eq!(read_ranges(&vec![]), Ok(vec![]));
    assert_eq!(
        read_ranges(&vec!["0-9".to_owned(), "20-".to_owned()]),
        Ok(vec![
            bounded(0, 10),
            ExpectRange {
                start: 20,
                end: None
            }
        ])
    );
    assert_eq!(
        read_ranges(&vec!["0-9".to_owned(), "".to_owned(), "-".to_owned()]),
        Err(ProtocolError::MalformedRange {
            text: "".to_owned()
        })
    );
}

#[test]
fn resumed_session_goes_on_where_the_server_is() {
    let url = "https://up.example/session/2".to_owned();
    let texts = vec!["4-5".to_owned(), "8-".to_owned()];
    let mut session =
        UploadSession::resume(url.clone(), 10, ConflictBehavior::Fail, &texts).unwrap();
    assert_eq!(session.upload_url(), url);
    assert_eq!(session.file_size(), 10);
    assert_eq!(session.conflict_behavior(), ConflictBehavior::Fail);
    assert_eq!(
        session.missing_ranges(),
        &vec![
            bounded(4, 6),
            ExpectRange {
                start: 8,
                end: None
            }
        ]
    );
    assert_eq!(
        session.chunk_request(&bounded(0, 4), 4),
        Err(Error::Misuse(MisuseError::RangeNotMissing))
    );
    assert_eq!(
        session.chunk_request(&bounded(8, 10), 2).unwrap().content_range,
        "bytes 8-9/10"
    );

    let mut server = Server::new(10);
    for offset in [0, 1, 2, 3, 6, 7] {
        server.have[offset] = true;
    }
    assert_eq!(upload(&mut session, &mut server, &bounded(8, 10)), Ok(None));
    assert_eq!(
        upload(&mut session, &mut server, &bounded(4, 6)),
        Ok(Some(the_item()))
    );

    let bad = vec!["4-5".to_owned(), "5-4".to_owned()];
    match UploadSession::resume(url, 10, ConflictBehavior::Fail, &bad) {
        Err(e) => assert_eq!(
            e,
            Error::Protocol(ProtocolError::MalformedRange {
                text: "5-4".to_owned()
            })
        ),
        Ok(_) => panic!("a malformed range was taken"),
    }
}
