use onedrive_api::error::{ApiError, MissingPart, MisuseError, ProtocolError, TransportError};
use onedrive_api::fetch::{DeltaPage, Fetched, Page};
use onedrive_api::resource::{DriveItem, ErrorObject};
use onedrive_api::{Error, ItemId, ListChildrenFetcher, TrackChangeFetcher};

fn item(id: &str) -> DriveItem {
    let mut item = DriveItem::default();
    item.id = Some(ItemId::new(id.to_owned()));
    item
}

fn deleted(id: &str) -> DriveItem {
    let mut item = item(id);
    item.deleted = Some(Box::new(serde_json::Value::Object(serde_json::Map::new())));
    item
}

fn ids(items: &[DriveItem]) -> Vec<String> {
    items
        .iter()
        .map(|item| item.id.as_ref().unwrap().as_str().to_owned())
        .collect()
}

/// Serves a folder of five children, two to a page.
fn children_page(url: &str) -> Page {
    match url {
        "https://api.example/children?$top=2" => Page {
            items: vec![item("a"), item("b")],
            next_link: Some("https://api.example/children?$top=2&$skiptoken=X1".to_owned()),
        },
        "https://api.example/children?$top=2&$skiptoken=X1" => Page {
            items: vec![item("c"), item("d")],
            next_link: Some("https://api.example/children?$top=2&$skiptoken=X2".to_owned()),
        },
        "https://api.example/children?$top=2&$skiptoken=X2" => Page {
            items: vec![item("e")],
            next_link: None,
        },
        other => panic!("a URL that the server never gave: {}", other),
    }
}

#[test]
fn children_are_listed_page_by_page() {
    let mut fetcher = ListChildrenFetcher::new("https://api.example/children?$top=2".to_owned());
    let mut seen = Vec::new();
    let mut pages = 0;
    while !fetcher.is_exhausted() {
        let url = fetcher.next_page_request().unwrap().to_owned();
        let fetched = fetcher.next_page_response(Ok(children_page(&url))).unwrap();
        pages += 1;
        assert_eq!(fetched.has_more, !fetcher.is_exhausted());
        seen.extend(ids(&fetched.items));
    }
    assert_eq!(pages, 3);
    assert_eq!(seen, ["a", "b", "c", "d", "e"]);
}

#[test]
fn next_page_is_requested_by_the_link_as_it_came() {
    let mut fetcher = ListChildrenFetcher::new("first".to_owned());
    assert_eq!(fetcher.next_page_request(), Ok("first"));
    let link = "https://api.example/p?$skiptoken=a%20b&x=%2F#frag";
    assert_eq!(
        fetcher.next_page_response(Ok(Page {
            items: vec![item("a")],
            next_link: Some(link.to_owned()),
        })),
        Ok(Fetched {
            items: vec![item("a")],
            has_more: true
        })
    );
    assert_eq!(fetcher.next_page_request(), Ok(link));
}

#[test]
fn next_page_after_the_last_is_misuse() {
    let mut fetcher = ListChildrenFetcher::new("first".to_owned());
    assert_eq!(
        fetcher.next_page_response(Ok(Page {
            items: vec![],
            next_link: None,
        })),
        Ok(Fetched {
            items: vec![],
            has_more: false
        })
    );
    assert!(fetcher.is_exhausted());
    assert_eq!(
        fetcher.next_page_request(),
        Err(Error::Misuse(MisuseError::FetcherExhausted))
    );
    assert_eq!(
        fetcher.next_page_response(Ok(Page {
            items: vec![item("late")],
            next_link: Some("more".to_owned()),
        })),
        Err(Error::Misuse(MisuseError::FetcherExhausted))
    );
    assert!(fetcher.is_exhausted());
}

#[test]
fn failed_fetch_keeps_the_cursor() {
    let mut fetcher = ListChildrenFetcher::new("first".to_owned());
    let lost = TransportError::NoResponse { message: "reset".to_owned() };
    assert_eq!(
        fetcher.next_page_response(Err(Error::Transport(lost.clone()))),
        Err(Error::Transport(lost))
    );
    assert_eq!(fetcher.next_page_request(), Ok("first"));

    let mut delta = TrackChangeFetcher::new("delta".to_owned());
    let gone = ApiError {
        status: 410,
        error: ErrorObject {
            code: Some("resyncRequired".to_owned()),
            message: None,
            inner_error: None,
            extra_data: serde_json::Map::new(),
        },
    };
    match delta.next_page_response(Err(Error::Api(gone))) {
        Err(Error::Api(e)) => assert_eq!(e.status, 410),
        other => panic!("not the API error: {:?}", other),
    }
    assert_eq!(delta.next_page_request(), Ok("delta"));
    assert_eq!(delta.delta_link(), None);
}

/// A drive whose changes are numbered. `delta?token=k` lists the changes
/// after the `k`th, two to a page, and ends with the link for the next time.
struct Drive {
    changes: Vec<DriveItem>,
}

impl Drive {
    fn page(&self, url: &str) -> DeltaPage {
        let rest = url.strip_prefix("https://api.example/delta?token=").unwrap();
        let from: usize = rest.parse().unwrap();
        let to = (from + 2).min(self.changes.len());
        let items = self.changes[from..to]
            .iter()
            .map(|change| {
                let mut copy = item(change.id.as_ref().unwrap().as_str());
                copy.deleted = change.deleted.clone();
                copy
            })
            .collect();
        if to < self.changes.len() {
            DeltaPage {
                items,
                next_link: Some(format!("https://api.example/delta?token={}", to)),
                delta_link: None,
            }
        } else {
            DeltaPage {
                items,
                next_link: None,
                delta_link: Some(format!("https://api.example/delta?token={}", to)),
            }
        }
    }

    fn track(&self, mut fetcher: TrackChangeFetcher) -> (Vec<DriveItem>, String) {
        let mut seen = Vec::new();
        while !fetcher.is_exhausted() {
            assert_eq!(fetcher.delta_link(), None);
            let url = fetcher.next_page_request().unwrap().to_owned();
            let fetched = fetcher.next_page_response(Ok(self.page(&url))).unwrap();
            seen.extend(fetched.items);
        }
        (seen, fetcher.delta_link().unwrap().to_owned())
    }
}

#[test]
fn resumed_fetcher_sees_only_later_changes() {
    let mut drive = Drive {
        changes: vec![item("a"), item("b"), item("c")],
    };
    let first = TrackChangeFetcher::new("https://api.example/delta?token=0".to_owned());
    let (before, token) = drive.track(first);
    assert_eq!(ids(&before), ["a", "b", "c"]);
    assert_eq!(token, "https://api.example/delta?token=3");

    // Later, one item is made, one is deleted and one is changed.
    drive.changes.push(item("d"));
    drive.changes.push(deleted("b"));
    drive.changes.push(item("a"));

    let resumed = TrackChangeFetcher::resume_from(token.clone());
    assert_eq!(resumed.next_page_request(), Ok(token.as_str()));
    let (after, next_token) = drive.track(resumed);
    assert_eq!(after, vec![item("d"), deleted("b"), item("a")]);
    assert!(after[1].deleted.is_some());
    assert_eq!(next_token, "https://api.example/delta?token=6");

    // Nothing has changed since.
    let (nothing, same_token) = drive.track(TrackChangeFetcher::resume_from(next_token.clone()));
    assert!(nothing.is_empty());
    assert_eq!(same_token, next_token);
}

#[test]
fn delta_link_comes_with_the_last_page_only() {
    let mut fetcher = TrackChangeFetcher::new("delta".to_owned());
    assert_eq!(
        fetcher.next_page_response(Ok(DeltaPage {
            items: vec![item("a")],
            next_link: Some("next".to_owned()),
            delta_link: None,
        })),
        Ok(Fetched {
            items: vec![item("a")],
            has_more: true
        })
    );
    assert_eq!(fetcher.delta_link(), None);
    assert_eq!(fetcher.next_page_request(), Ok("next"));

    assert_eq!(
        fetcher.next_page_response(Ok(DeltaPage {
            items: vec![deleted("b")],
            next_link: None,
            delta_link: Some("later".to_owned()),
        })),
        Ok(Fetched {
            items: vec![deleted("b")],
            has_more: false
        })
    );
    assert_eq!(fetcher.delta_link(), Some("later"));
    assert!(fetcher.is_exhausted());
    assert_eq!(
        fetcher.next_page_request(),
        Err(Error::Misuse(MisuseError::FetcherExhausted))
    );
    assert_eq!(
        fetcher.next_page_response(Ok(DeltaPage {
            items: vec![],
            next_link: None,
            delta_link: Some("other".to_owned()),
        })),
        Err(Error::Misuse(MisuseError::FetcherExhausted))
    );
    assert_eq!(fetcher.delta_link(), Some("later"));
}

#[test]
fn next_link_goes_before_delta_link() {
    let mut fetcher = TrackChangeFetcher::new("delta".to_owned());
    assert_eq!(
        fetcher.next_page_response(Ok(DeltaPage {
            items: vec![],
            next_link: Some("next".to_owned()),
            delta_link: Some("early".to_owned()),
        })),
        Ok(Fetched {
            items: vec![],
            has_more: true
        })
    );
    assert_eq!(fetcher.delta_link(), None);
    assert_eq!(fetcher.next_page_request(), Ok("next"));
}

#[test]
fn page_without_any_link_is_a_protocol_error() {
    let mut fetcher = TrackChangeFetcher::new("delta".to_owned());
    assert_eq!(
        fetcher.next_page_response(Ok(DeltaPage {
            items: vec![item("a")],
            next_link: None,
            delta_link: None,
        })),
        Err(Error::Protocol(ProtocolError::Missing {
            what: MissingPart::Link
        }))
    );
    assert!(!fetcher.is_exhausted());
    assert_eq!(fetcher.next_page_request(), Ok("delta"));
    assert_eq!(fetcher.delta_link(), None);
}
