use sipbot::endpoint::Endpoint;
use sipbot::errors::SipError;
use sipbot::history::History;
use sipbot::post::{SipPost, SipPostType};
use sipbot::payload::render_batches;
use sipbot::scheduler::{extraction_event, prepare_batches, step, CycleAction, CycleEvent, CycleStage};

fn post(post_type: SipPostType, link: &str) -> SipPost {
    SipPost {
        post_type,
        date: "d".to_string(),
        title: format!("title {}", link),
        content: "c".to_string(),
        link: link.to_string(),
    }
}

fn history(general: &[&str], important: &[&str]) -> History {
    History {
        general: general.iter().map(|l| post(SipPostType::New, l)).collect(),
        important: important.iter().map(|l| post(SipPostType::Important, l)).collect(),
    }
}

fn links(posts: &Vec<SipPost>) -> Vec<String> {
    posts.iter().map(|p| p.link.clone()).collect()
}

fn endpoint(id: u64, token: Option<&str>) -> Endpoint {
    Endpoint { id, token: token.map(|t| t.to_string()), name: None, owner: None }
}

fn many(n: usize) -> Vec<String> {
    (0..n).map(|k| format!("/g{}", k)).collect()
}

#[test]
fn a_tick_starts_a_cycle_from_idle() {
    let (stage, action) = step(CycleStage::Idle, CycleEvent::Tick);
    assert!(matches!(stage, CycleStage::ReadingHistory));
    assert!(matches!(action, CycleAction::ReadHistory));
}

#[test]
fn a_tick_during_a_cycle_changes_nothing() {
    let (stage, action) = step(CycleStage::ReadingHistory, CycleEvent::Tick);
    assert!(matches!(stage, CycleStage::ReadingHistory));
    assert!(matches!(action, CycleAction::Ignore));
    let (stage, action) = step(CycleStage::Fetching { old: history(&["/a"], &[]) }, CycleEvent::Tick);
    match stage {
        CycleStage::Fetching { old } => assert_eq!(links(&old.general), vec!["/a".to_string()]),
        other => panic!("unexpected stage {:?}", other),
    }
    assert!(matches!(action, CycleAction::Ignore));
    let (stage, action) = step(
        CycleStage::Persisting { old: history(&[], &[]), fresh: history(&["/a"], &[]) },
        CycleEvent::Tick,
    );
    assert!(matches!(stage, CycleStage::Persisting { .. }));
    assert!(matches!(action, CycleAction::Ignore));
    let (stage, action) = step(CycleStage::ReadingEndpoints { batches: vec![] }, CycleEvent::Tick);
    assert!(matches!(stage, CycleStage::ReadingEndpoints { .. }));
    assert!(matches!(action, CycleAction::Ignore));
}

#[test]
fn an_event_out_of_turn_is_ignored() {
    let (stage, action) = step(CycleStage::Idle, CycleEvent::EndpointsRead(vec![]));
    assert!(matches!(stage, CycleStage::Idle));
    assert!(matches!(action, CycleAction::Ignore));
    let (stage, action) =
        step(CycleStage::ReadingHistory, CycleEvent::Extracted(Ok(history(&["/a"], &[]))));
    assert!(matches!(stage, CycleStage::ReadingHistory));
    assert!(matches!(action, CycleAction::Ignore));
    let (stage, action) = step(CycleStage::Idle, CycleEvent::HistoryWritten(Ok(())));
    assert!(matches!(stage, CycleStage::Idle));
    assert!(matches!(action, CycleAction::Ignore));
}

#[test]
fn unreadable_history_gives_the_cycle_up() {
    let failure = SipError::StorageError("No left posts found".to_string());
    let (stage, action) = step(CycleStage::ReadingHistory, CycleEvent::HistoryRead(Err(failure)));
    assert!(matches!(stage, CycleStage::Idle));
    match action {
        CycleAction::Abandon(e) => {
            assert_eq!(e, SipError::StorageError("No left posts found".to_string()))
        }
        other => panic!("unexpected action {:?}", other),
    }
}

#[test]
fn failed_fetch_writes_nothing_and_delivers_nothing() {
    let old = history(&["/a"], &["/b"]);
    let failure = SipError::FetchError("connection refused".to_string());
    let (stage, action) = step(CycleStage::Fetching { old }, CycleEvent::Extracted(Err(failure)));
    assert!(matches!(stage, CycleStage::Idle));
    match action {
        CycleAction::Abandon(e) => {
            assert_eq!(e, SipError::FetchError("connection refused".to_string()))
        }
        other => panic!("unexpected action {:?}", other),
    }
}

#[test]
fn malformed_item_gives_the_cycle_up_without_a_write() {
    let html = "<html><body><div class=\"news-box\"><ul>\
                <li><p>d</p><h4>t</h4><p>c</p></li></ul></div>\
                <div class=\"news-box\"><ul></ul></div></body></html>";
    let event = extraction_event(Ok(html.to_string()));
    let (stage, action) = step(CycleStage::Fetching { old: history(&["/a"], &[]) }, event);
    assert!(matches!(stage, CycleStage::Idle));
    match action {
        CycleAction::Abandon(e) => assert_eq!(
            e,
            SipError::PostParseError("Post parse error: Error parsing link".to_string())
        ),
        other => panic!("unexpected action {:?}", other),
    }
}

#[test]
fn extraction_event_passes_a_failure_on() {
    let event = extraction_event(Err(SipError::TextParseError("not utf-8".to_string())));
    match event {
        CycleEvent::Extracted(Err(e)) => {
            assert_eq!(e, SipError::TextParseError("not utf-8".to_string()))
        }
        other => panic!("unexpected event {:?}", other),
    }
}

#[test]
fn extraction_event_extracts_a_page() {
    let html = "<html><body><div class=\"news-box\"><ul>\
                <li><p>d</p><h4>t</h4><p>c</p><a href=\"/g\">x</a></li></ul></div>\
                <div class=\"news-box\"><ul></ul></div></body></html>";
    match extraction_event(Ok(html.to_string())) {
        CycleEvent::Extracted(Ok(found)) => {
            assert_eq!(links(&found.general), vec!["/g".to_string()]);
            assert!(found.important.is_empty());
        }
        other => panic!("unexpected event {:?}", other),
    }
}

#[test]
fn the_fresh_history_is_written_in_full() {
    let old = history(&["/a", "/gone"], &["/x"]);
    let fresh = history(&["/a", "/b"], &["/b"]);
    let (stage, action) = step(CycleStage::Fetching { old }, CycleEvent::Extracted(Ok(fresh)));
    match action {
        CycleAction::WriteHistory(written) => {
            assert_eq!(links(&written.general), vec!["/a".to_string(), "/b".to_string()]);
            assert_eq!(links(&written.important), vec!["/b".to_string()]);
            assert_eq!(written.general[1].title, "title /b");
            assert_eq!(written.important[0].post_type, SipPostType::Important);
        }
        other => panic!("unexpected action {:?}", other),
    }
    match stage {
        CycleStage::Persisting { old, fresh } => {
            assert_eq!(links(&old.general), vec!["/a".to_string(), "/gone".to_string()]);
            assert_eq!(links(&fresh.general), vec!["/a".to_string(), "/b".to_string()]);
        }
        other => panic!("unexpected stage {:?}", other),
    }
}

#[test]
fn failed_write_gives_the_cycle_up() {
    let (stage, action) = step(
        CycleStage::Persisting { old: history(&[], &[]), fresh: history(&["/a"], &[]) },
        CycleEvent::HistoryWritten(Err(SipError::StorageError("disk full".to_string()))),
    );
    assert!(matches!(stage, CycleStage::Idle));
    assert!(matches!(action, CycleAction::Abandon(SipError::StorageError(_))));
}

#[test]
fn example_cycle_delivers_the_important_post_only() {
    let old = history(&["/a"], &[]);
    let fresh = history(&["/a", "/b"], &["/b"]);
    let (stage, action) = step(CycleStage::Idle, CycleEvent::Tick);
    assert!(matches!(action, CycleAction::ReadHistory));
    let (stage, action) = step(stage, CycleEvent::HistoryRead(Ok(old)));
    assert!(matches!(action, CycleAction::FetchPage));
    let (stage, action) = step(stage, CycleEvent::Extracted(Ok(fresh)));
    match action {
        CycleAction::WriteHistory(written) => {
            assert_eq!(links(&written.general), vec!["/a".to_string(), "/b".to_string()]);
            assert_eq!(links(&written.important), vec!["/b".to_string()]);
        }
        other => panic!("unexpected action {:?}", other),
    }
    let (stage, action) = step(stage, CycleEvent::HistoryWritten(Ok(())));
    assert!(matches!(action, CycleAction::ReadEndpoints));
    let (stage, action) = step(stage, CycleEvent::EndpointsRead(vec![endpoint(5, Some("tok"))]));
    assert!(matches!(stage, CycleStage::Idle));
    match action {
        CycleAction::Deliver { batches, calls } => {
            assert_eq!(batches.len(), 1);
            assert_eq!(batches[0].len(), 1);
            assert_eq!(batches[0][0].url, "/b");
            assert_eq!(batches[0][0].author_name, "Важна обавештења");
            assert_eq!(batches[0][0].color, 0x66F442);
            assert_eq!(calls.len(), 1);
            assert_eq!(calls[0].endpoint, 5);
            assert_eq!(calls[0].token, "tok");
            assert_eq!(calls[0].batch, 0);
        }
        other => panic!("unexpected action {:?}", other),
    }
}

#[test]
fn second_cycle_on_an_unchanged_page_delivers_nothing() {
    let page = history(&["/a", "/b"], &["/c"]);
    // First cycle: nothing was known before.
    let (stage, _) = step(CycleStage::Idle, CycleEvent::Tick);
    let (stage, _) = step(stage, CycleEvent::HistoryRead(Ok(history(&[], &[]))));
    let (stage, action) = step(stage, CycleEvent::Extracted(Ok(page.clone())));
    let written = match action {
        CycleAction::WriteHistory(written) => written,
        other => panic!("unexpected action {:?}", other),
    };
    let (stage, _) = step(stage, CycleEvent::HistoryWritten(Ok(())));
    let (stage, action) = step(stage, CycleEvent::EndpointsRead(vec![endpoint(1, Some("t"))]));
    match action {
        CycleAction::Deliver { batches, calls } => {
            assert_eq!(batches.len(), 1);
            assert_eq!(batches[0].len(), 3);
            assert_eq!(calls.len(), 1);
        }
        other => panic!("unexpected action {:?}", other),
    }
    // Second cycle: the store hands back what was written, the page is the same.
    let (stage, _) = step(stage, CycleEvent::Tick);
    let (stage, _) = step(stage, CycleEvent::HistoryRead(Ok(written)));
    let (stage, _) = step(stage, CycleEvent::Extracted(Ok(page)));
    let (stage, action) = step(stage, CycleEvent::HistoryWritten(Ok(())));
    assert!(matches!(action, CycleAction::ReadEndpoints));
    match &stage {
        CycleStage::ReadingEndpoints { batches } => assert!(batches.is_empty()),
        other => panic!("unexpected stage {:?}", other),
    }
    let (stage, action) = step(stage, CycleEvent::EndpointsRead(vec![endpoint(1, Some("t"))]));
    assert!(matches!(stage, CycleStage::Idle));
    assert!(matches!(action, CycleAction::Rest));
}

#[test]
fn no_endpoints_no_delivery() {
    let (stage, _) = step(
        CycleStage::Persisting { old: history(&[], &[]), fresh: history(&["/a"], &[]) },
        CycleEvent::HistoryWritten(Ok(())),
    );
    let (stage, action) = step(stage, CycleEvent::EndpointsRead(vec![]));
    assert!(matches!(stage, CycleStage::Idle));
    assert!(matches!(action, CycleAction::Rest));
}

#[test]
fn every_batch_goes_to_every_endpoint_with_a_token() {
    let fresh_links = many(23);
    let refs: Vec<&str> = fresh_links.iter().map(|s| s.as_str()).collect();
    let (stage, _) = step(
        CycleStage::Persisting { old: history(&[], &[]), fresh: history(&refs, &[]) },
        CycleEvent::HistoryWritten(Ok(())),
    );
    let endpoints = vec![endpoint(1, Some("one")), endpoint(2, None), endpoint(3, Some("three"))];
    let (stage, action) = step(stage, CycleEvent::EndpointsRead(endpoints));
    assert!(matches!(stage, CycleStage::Idle));
    match action {
        CycleAction::Deliver { batches, calls } => {
            let sizes: Vec<usize> = batches.iter().map(|b| b.len()).collect();
            assert_eq!(sizes, vec![10, 10, 3]);
            assert_eq!(batches[2][2].url, "/g22");
            let plan: Vec<(u64, String, usize)> =
                calls.iter().map(|c| (c.endpoint, c.token.clone(), c.batch)).collect();
            assert_eq!(
                plan,
                vec![
                    (1, "one".to_string(), 0),
                    (1, "one".to_string(), 1),
                    (1, "one".to_string(), 2),
                    (3, "three".to_string(), 0),
                    (3, "three".to_string(), 1),
                    (3, "three".to_string(), 2),
                ]
            );
        }
        other => panic!("unexpected action {:?}", other),
    }
}

#[test]
fn endpoints_without_tokens_receive_no_call() {
    let (stage, _) = step(
        CycleStage::Persisting { old: history(&[], &[]), fresh: history(&["/a"], &[]) },
        CycleEvent::HistoryWritten(Ok(())),
    );
    let (_, action) = step(stage, CycleEvent::EndpointsRead(vec![endpoint(9, None)]));
    match action {
        CycleAction::Deliver { batches, calls } => {
            assert_eq!(batches.len(), 1);
            assert!(calls.is_empty());
        }
        other => panic!("unexpected action {:?}", other),
    }
}

#[test]
fn prepared_batches_hold_the_rendered_delivery() {
    let old = history(&["/a"], &["/i"]);
    let fresh = history(&["/a", "/n", "/both"], &["/both", "/i"]);
    let batches = prepare_batches(&old, &fresh);
    assert_eq!(batches.len(), 1);
    let urls: Vec<String> = batches[0].iter().map(|e| e.url.clone()).collect();
    assert_eq!(urls, vec!["/both".to_string(), "/n".to_string()]);
    assert_eq!(batches[0][0].author_name, "Важна обавештења");
    assert_eq!(batches[0][1].author_name, "Најновије вести");
    assert_eq!(batches[0][1].title, "title /n");
    assert!(prepare_batches(&fresh, &fresh).is_empty());
}

#[test]
fn history_clone_copies_both_categories() {
    let h = history(&["/a", "/b"], &["/c"]);
    let c = h.clone();
    assert_eq!(links(&c.general), links(&h.general));
    assert_eq!(links(&c.important), links(&h.important));
    assert_eq!(c.general[0].title, "title /a");
    assert_eq!(c.important[0].post_type, SipPostType::Important);
}

fn urls_of(body: &serde_json::Map<String, serde_json::Value>) -> Vec<String> {
    body["embeds"]
        .as_array()
        .unwrap()
        .iter()
        .map(|e| e["url"].as_str().unwrap().to_string())
        .collect()
}

#[test]
fn twenty_five_posts_go_out_in_three_calls() {
    let fresh_links: Vec<String> = (1..=25).map(|k| format!("/{}", k)).collect();
    let refs: Vec<&str> = fresh_links.iter().map(|s| s.as_str()).collect();
    let (stage, _) = step(
        CycleStage::Persisting { old: history(&[], &[]), fresh: history(&refs, &[]) },
        CycleEvent::HistoryWritten(Ok(())),
    );
    let (_, action) = step(stage, CycleEvent::EndpointsRead(vec![endpoint(1, Some("t"))]));
    match action {
        CycleAction::Deliver { batches, calls } => {
            let bodies = render_batches(&batches);
            assert_eq!(calls.len(), 3);
            let mut sent: Vec<String> = Vec::new();
            let mut sizes: Vec<usize> = Vec::new();
            for call in &calls {
                assert_eq!(call.endpoint, 1);
                assert_eq!(call.token, "t");
                let urls = urls_of(&bodies[call.batch]);
                sizes.push(urls.len());
                sent.extend(urls);
            }
            assert_eq!(sizes, vec![10, 10, 5]);
            assert_eq!(sent, fresh_links);
            assert_eq!(urls_of(&bodies[1])[0], "/11");
            assert_eq!(urls_of(&bodies[2])[4], "/25");
        }
        other => panic!("unexpected action {:?}", other),
    }
}

#[test]
fn two_endpoints_each_get_both_batches_in_order() {
    let fresh_links: Vec<String> = (1..=12).map(|k| format!("/{}", k)).collect();
    let refs: Vec<&str> = fresh_links.iter().map(|s| s.as_str()).collect();
    let (stage, _) = step(
        CycleStage::Persisting { old: history(&[], &[]), fresh: history(&refs, &[]) },
        CycleEvent::HistoryWritten(Ok(())),
    );
    let endpoints = vec![endpoint(1, Some("one")), endpoint(2, Some("two"))];
    let (_, action) = step(stage, CycleEvent::EndpointsRead(endpoints));
    match action {
        CycleAction::Deliver { batches, calls } => {
            let bodies = render_batches(&batches);
            assert_eq!(bodies.len(), 2);
            let plan: Vec<(u64, String, usize)> =
                calls.iter().map(|c| (c.endpoint, c.token.clone(), c.batch)).collect();
            assert_eq!(
                plan,
                vec![
                    (1, "one".to_string(), 0),
                    (1, "one".to_string(), 1),
                    (2, "two".to_string(), 0),
                    (2, "two".to_string(), 1),
                ]
            );
            for body in &bodies {
                assert_eq!(body.len(), 1);
            }
            assert_eq!(urls_of(&bodies[0]), fresh_links[..10].to_vec());
            assert_eq!(urls_of(&bodies[1]), fresh_links[10..].to_vec());
            assert_eq!(bodies[1]["embeds"][1]["title"], "title /12");
        }
        other => panic!("unexpected action {:?}", other),
    }
}
