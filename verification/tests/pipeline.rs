use std::io::Read;
use std::io::Write;

use clipfixd::fetch::FetchEvent;
use clipfixd::fetch::ReadEnd;
use clipfixd::listener::on_fetched;
use clipfixd::listener::on_notify;
use clipfixd::listener::on_originals;
use clipfixd::listener::on_published;
use clipfixd::listener::on_temp_path;
use clipfixd::listener::Action;
use clipfixd::listener::State;
use clipfixd::mimes::marker_mime_type;
use clipfixd::mimes::nautilus_mime_type;
use clipfixd::mimes::qt_image_mime_type;
use clipfixd::mimes::temp_file_prefix;
use clipfixd::mimes::temp_file_suffix;
use clipfixd::mimes::uri_list_mime_type;
use clipfixd::reps::Reps;
use clipfixd::writer::build_published;
use clipfixd::writer::published_pairs;

fn fetched(bytes: &[u8]) -> FetchEvent {
    FetchEvent::Read { bytes: bytes.to_vec(), end: ReadEnd::Complete }
}

#[test]
fn image_fix_end_to_end() {
    // Side-B advertises only the opaque image type, with payload IMG.
    let mimes = vec![qt_image_mime_type().to_string()];
    let (st, act) = on_notify(State::Idle, mimes);
    let fetch_mime = match &act {
        Action::Fetch { mime } => mime.clone(),
        _ => panic!("expected a fetch"),
    };
    assert_eq!(fetch_mime, qt_image_mime_type());

    let (st, act) = on_fetched(st, fetched(b"IMG"));
    let bytes = match act {
        Action::MakeTempFile { bytes } => bytes,
        _ => panic!("expected a temp-file request"),
    };
    assert_eq!(bytes, b"IMG".to_vec());

    // The driver persists the payload to a fresh temporary file.
    let mut tf = tempfile::Builder::new()
        .prefix(temp_file_prefix())
        .suffix(temp_file_suffix())
        .tempfile()
        .unwrap();
    tf.write_all(&bytes).unwrap();
    let path = tf.path().to_str().unwrap().to_string();

    let (st, act) = on_temp_path(st, Some(path.clone()));
    let all = match act {
        Action::FetchAll { mimes } => mimes,
        _ => panic!("expected an originals fetch"),
    };
    assert_eq!(all, vec![qt_image_mime_type().to_string()]);

    let (st, act) = on_originals(
        st,
        vec![(qt_image_mime_type().to_string(), Some(b"IMG".to_vec()))],
    );
    let reps = match act {
        Action::Publish { reps } => reps,
        _ => panic!("expected a publish"),
    };
    let published = build_published(reps);

    // The published offer holds the file URL as text, the guard marker with
    // an empty payload, and the original image representation.
    let expected_url = url::Url::from_file_path(&path).unwrap().to_string();
    assert_eq!(published.get(uri_list_mime_type()), Some(&expected_url.clone().into_bytes()));
    assert_eq!(published.get(marker_mime_type()), Some(&Vec::new()));
    assert_eq!(published.get(qt_image_mime_type()), Some(&b"IMG".to_vec()));

    // The temporary file holds exactly the image payload.
    let mut f = tf.reopen().unwrap();
    let mut back = Vec::new();
    f.read_to_end(&mut back).unwrap();
    assert_eq!(back, b"IMG".to_vec());

    let (st, act) = on_published(st, true);
    assert!(matches!(st, State::Idle));
    assert!(matches!(act, Action::Wait));

    // Republishing never cascades: when the published offer comes back as a
    // notification, the guard drops it before any work.
    let mut republished_mimes: Vec<String> = Vec::new();
    for (mime, _) in published.pairs() {
        republished_mimes.push(mime.clone());
    }
    let (st, act) = on_notify(State::Idle, republished_mimes);
    assert!(matches!(st, State::Idle));
    assert!(matches!(act, Action::Wait));
}

#[test]
fn files_fix_end_to_end() {
    let mimes = vec!["text/plain".to_string(), nautilus_mime_type().to_string()];
    let (st, act) = on_notify(State::Idle, mimes);
    let fetch_mime = match &act {
        Action::Fetch { mime } => mime.clone(),
        _ => panic!("expected a fetch"),
    };
    assert_eq!(fetch_mime, nautilus_mime_type());

    let payload = b"copy\nfile:///tmp/a.txt\nfile:///tmp/b.txt\n";
    let (st, act) = on_fetched(st, fetched(payload));
    let all = match act {
        Action::FetchAll { mimes } => mimes,
        _ => panic!("expected an originals fetch"),
    };
    assert_eq!(all.len(), 2);

    let (_, act) = on_originals(
        st,
        vec![
            ("text/plain".to_string(), Some(b"a.txt b.txt".to_vec())),
            (nautilus_mime_type().to_string(), Some(payload.to_vec())),
        ],
    );
    let reps = match act {
        Action::Publish { reps } => reps,
        _ => panic!("expected a publish"),
    };
    let published = build_published(reps);
    assert_eq!(
        published.get(uri_list_mime_type()),
        Some(&b"file:///tmp/a.txt".to_vec()),
    );
    assert_eq!(published.get("text/plain"), Some(&b"a.txt b.txt".to_vec()));
    assert_eq!(published.get(nautilus_mime_type()), Some(&payload.to_vec()));
    assert_eq!(published.get(marker_mime_type()), Some(&Vec::new()));
}

#[test]
fn guarded_offer_is_skipped_without_work() {
    let mimes = vec![
        qt_image_mime_type().to_string(),
        marker_mime_type().to_string(),
    ];
    let (st, act) = on_notify(State::Idle, mimes);
    assert!(matches!(st, State::Idle));
    assert!(matches!(act, Action::Wait));
}

#[test]
fn unmatched_offer_is_left_alone() {
    let mimes = vec!["text/plain".to_string(), "text/html".to_string()];
    let (st, act) = on_notify(State::Idle, mimes);
    assert!(matches!(st, State::Idle));
    assert!(matches!(act, Action::Wait));
}

#[test]
fn vanished_content_abandons_cycle_quietly() {
    let mimes = vec![qt_image_mime_type().to_string()];
    let (st, _) = on_notify(State::Idle, mimes);
    let (st, act) = on_fetched(st, FetchEvent::Vanished);
    assert!(matches!(st, State::Idle));
    assert!(matches!(act, Action::Wait));

    let mimes = vec![nautilus_mime_type().to_string()];
    let (st, _) = on_notify(State::Idle, mimes);
    let (st, act) = on_fetched(st, FetchEvent::Vanished);
    assert!(matches!(st, State::Idle));
    assert!(matches!(act, Action::Wait));
}

#[test]
fn hard_fetch_error_is_fatal() {
    let mimes = vec![qt_image_mime_type().to_string()];
    let (st, _) = on_notify(State::Idle, mimes);
    let (st, act) = on_fetched(st, FetchEvent::Read { bytes: vec![1], end: ReadEnd::Failed });
    assert!(matches!(st, State::Idle));
    assert!(matches!(act, Action::Fatal));
}

#[test]
fn timed_out_image_fetch_still_synthesizes() {
    let mimes = vec![qt_image_mime_type().to_string()];
    let (st, _) = on_notify(State::Idle, mimes);
    let (_, act) = on_fetched(
        st,
        FetchEvent::Read { bytes: b"PART".to_vec(), end: ReadEnd::TimedOut },
    );
    assert!(matches!(act, Action::MakeTempFile { bytes } if bytes == b"PART".to_vec()));
}

#[test]
fn rejected_files_payload_makes_cycle_a_noop() {
    for payload in [&b"move\nfile:///tmp/a.txt\n"[..], &b"copy\nhttp://example.com/x\n"[..]] {
        let mimes = vec![nautilus_mime_type().to_string()];
        let (st, _) = on_notify(State::Idle, mimes);
        let (st, act) = on_fetched(st, fetched(payload));
        assert!(matches!(st, State::Idle));
        assert!(matches!(act, Action::Wait));
    }
}

#[test]
fn invalid_utf8_files_payload_makes_cycle_a_noop() {
    let mimes = vec![nautilus_mime_type().to_string()];
    let (st, _) = on_notify(State::Idle, mimes);
    let (st, act) = on_fetched(st, fetched(&[0xff, 0xfe, b'\n']));
    assert!(matches!(st, State::Idle));
    assert!(matches!(act, Action::Wait));
}

#[test]
fn files_fix_wins_output_collision_with_image_fix() {
    // Both rules fire; the files fix is evaluated last, so its URI list wins.
    let mimes = vec![
        qt_image_mime_type().to_string(),
        nautilus_mime_type().to_string(),
    ];
    let (st, act) = on_notify(State::Idle, mimes);
    assert!(matches!(&act, Action::Fetch { mime } if mime == qt_image_mime_type()));
    let (st, act) = on_fetched(st, fetched(b"IMG"));
    let bytes = match act {
        Action::MakeTempFile { bytes } => bytes,
        _ => panic!("expected a temp-file request"),
    };
    let mut tf = tempfile::Builder::new()
        .prefix(temp_file_prefix())
        .suffix(temp_file_suffix())
        .tempfile()
        .unwrap();
    tf.write_all(&bytes).unwrap();
    let path = tf.path().to_str().unwrap().to_string();
    let (st, act) = on_temp_path(st, Some(path));
    assert!(matches!(&act, Action::Fetch { mime } if mime == nautilus_mime_type()));
    let (st, act) = on_fetched(st, fetched(b"copy\nfile:///tmp/chosen.txt\n"));
    assert!(matches!(act, Action::FetchAll { .. }));
    let (_, act) = on_originals(st, Vec::new());
    let reps = match act {
        Action::Publish { reps } => reps,
        _ => panic!("expected a publish"),
    };
    assert_eq!(
        reps.get(uri_list_mime_type()),
        Some(&b"file:///tmp/chosen.txt".to_vec()),
    );
}

#[test]
fn augmentation_keeps_every_original() {
    let mimes = vec![
        "image/png".to_string(),
        qt_image_mime_type().to_string(),
        "text/plain".to_string(),
    ];
    let (st, _) = on_notify(State::Idle, mimes);
    let (st, act) = on_fetched(st, fetched(b"IMG"));
    let bytes = match act {
        Action::MakeTempFile { bytes } => bytes,
        _ => panic!("expected a temp-file request"),
    };
    let mut tf = tempfile::Builder::new()
        .prefix(temp_file_prefix())
        .suffix(temp_file_suffix())
        .tempfile()
        .unwrap();
    tf.write_all(&bytes).unwrap();
    let path = tf.path().to_str().unwrap().to_string();
    let (st, _) = on_temp_path(st, Some(path));
    // One original failed to fetch: it is omitted, the rest still publish.
    let (_, act) = on_originals(
        st,
        vec![
            ("image/png".to_string(), Some(b"png".to_vec())),
            (qt_image_mime_type().to_string(), Some(b"IMG".to_vec())),
            ("text/plain".to_string(), None),
        ],
    );
    let reps = match act {
        Action::Publish { reps } => reps,
        _ => panic!("expected a publish"),
    };
    let published = build_published(reps);
    assert_eq!(published.get("image/png"), Some(&b"png".to_vec()));
    assert_eq!(published.get(qt_image_mime_type()), Some(&b"IMG".to_vec()));
    assert_eq!(published.get("text/plain"), None);
    assert!(published.contains_mime(uri_list_mime_type()));
    assert!(published.contains_mime(marker_mime_type()));
}

#[test]
fn published_pairs_puts_marker_first_and_uri_list_last() {
    let mut r = Reps::new();
    r.insert("image/png".to_string(), b"png".to_vec());
    r.insert(uri_list_mime_type().to_string(), b"file:///tmp/x".to_vec());
    r.insert(qt_image_mime_type().to_string(), b"IMG".to_vec());
    let pairs = published_pairs(&r);
    assert_eq!(pairs.len(), 4);
    assert_eq!(pairs[0].0, marker_mime_type());
    assert_eq!(pairs[0].1, Vec::<u8>::new());
    assert_eq!(pairs[3].0, uri_list_mime_type());
    assert_eq!(pairs[3].1, b"file:///tmp/x".to_vec());
    let png: Vec<_> = pairs.iter().filter(|p| p.0 == "image/png").collect();
    assert_eq!(png.len(), 1);
    assert_eq!(png[0].1, b"png".to_vec());
    let img: Vec<_> = pairs.iter().filter(|p| p.0 == qt_image_mime_type()).collect();
    assert_eq!(img.len(), 1);
    assert_eq!(img[0].1, b"IMG".to_vec());
}

#[test]
fn published_pairs_always_carries_the_marker() {
    let mut r = Reps::new();
    r.insert("image/png".to_string(), b"png".to_vec());
    let pairs = published_pairs(&r);
    assert_eq!(pairs.len(), 2);
    assert_eq!(pairs[0].0, marker_mime_type());
    assert_eq!(pairs[1].0, "image/png");
    let empty = published_pairs(&Reps::new());
    assert_eq!(empty.len(), 1);
    assert_eq!(empty[0].0, marker_mime_type());
}

#[test]
fn failed_publish_is_fatal() {
    let (st, act) = on_published(State::Publishing, false);
    assert!(matches!(st, State::Idle));
    assert!(matches!(act, Action::Fatal));
}

#[test]
fn temp_file_failure_is_fatal() {
    let mimes = vec![qt_image_mime_type().to_string()];
    let (st, _) = on_notify(State::Idle, mimes);
    let (st, _) = on_fetched(st, fetched(b"IMG"));
    let (st, act) = on_temp_path(st, None);
    assert!(matches!(st, State::Idle));
    assert!(matches!(act, Action::Fatal));
}
