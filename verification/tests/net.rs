use plug_gui::net::{
    can_name_a_file, redraw_provider, route, DataUrlError, Delivery, DeliveryStep, Fetch, LocalAssets, Route,
};
use std::sync::atomic::{AtomicUsize, Ordering};
use std::sync::Arc;

fn settle<W>(delivery: Delivery<'_, W>, wake: impl Fn(&W, usize)) -> Option<(String, Vec<u8>)> {
    let mut handed = None;
    for step in delivery.steps() {
        match step {
            DeliveryStep::HandOver(url, bytes) => handed = Some((url, bytes)),
            DeliveryStep::Wake(waker, doc_id) => {
                assert!(handed.is_some(), "woken before the bytes were handed over");
                wake(waker, doc_id);
            }
        }
    }
    handed
}

/// Fetches a URL; `file` is what a file would be read as.
fn fetch_waking<W>(
    provider: &LocalAssets<W>,
    doc_id: usize,
    url: &str,
    file: Option<Vec<u8>>,
    wake: impl Fn(&W, usize),
) -> Option<(String, Vec<u8>)> {
    match provider.fetch(doc_id, url) {
        Fetch::Done(delivery) => settle(delivery, wake),
        Fetch::ReadFile(_) => settle(provider.deliver(doc_id, url, file), wake),
        Fetch::Refused(_) | Fetch::NotAUrl => None,
    }
}

fn fetch(provider: &LocalAssets<()>, url: &str) -> Option<Vec<u8>> {
    fetch_waking(provider, 0, url, None, |_, _| ()).map(|(_, bytes)| bytes)
}

#[test]
fn a_data_url_resolves_to_its_bytes() {
    let provider = LocalAssets::new(None);
    // "hi" as base64, the shape an app hands over for an image.
    let bytes = fetch(&provider, "data:image/png;base64,aGk=");
    assert_eq!(bytes.as_deref(), Some(&b"hi"[..]));
}

#[test]
fn a_file_url_is_read_and_delivered() {
    let provider: LocalAssets<()> = LocalAssets::new(None);
    let url = "file:///tmp/nice-plug-net-test/asset.txt";
    let read = Some(b"on disk".to_vec());
    let (answered, bytes) = fetch_waking(&provider, 0, url, read, |_, _| ()).unwrap();
    assert_eq!(answered, url);
    assert_eq!(bytes, b"on disk");
}

#[test]
fn http_is_refused() {
    let provider = LocalAssets::new(None);
    assert!(fetch(&provider, "https://example.com/tracker.png").is_none());
    assert!(fetch(&provider, "http://192.168.1.1/admin").is_none());
}

#[test]
fn a_refused_scheme_is_named() {
    let provider: LocalAssets<()> = LocalAssets::new(None);
    match provider.fetch(0, "HTTPS://example.com/tracker.png") {
        Fetch::Refused(scheme) => assert_eq!(scheme, "https"),
        _ => panic!("not refused"),
    }
    match provider.fetch(0, "ftp://example.com/x") {
        Fetch::Refused(scheme) => assert_eq!(scheme, "ftp"),
        _ => panic!("not refused"),
    }
}

#[test]
fn a_relative_reference_is_no_url() {
    let provider: LocalAssets<()> = LocalAssets::new(None);
    assert!(matches!(provider.fetch(0, "img/logo.png"), Fetch::NotAUrl));
    assert!(matches!(provider.fetch(0, ""), Fetch::NotAUrl));
}

#[test]
fn a_missing_file_resolves_to_nothing_rather_than_panicking() {
    let provider = LocalAssets::new(None);
    assert!(fetch(&provider, "file:///definitely/not/here.png").is_none());
}

#[test]
fn the_shell_is_woken_when_a_resource_lands() {
    let count = Arc::new(AtomicUsize::new(0));
    let provider = LocalAssets::new(Some(count.clone()));
    let wake = |counter: &Arc<AtomicUsize>, _doc_id: usize| {
        counter.fetch_add(1, Ordering::Relaxed);
    };

    fetch_waking(&provider, 0, "data:text/plain;base64,aGk=", None, wake);
    assert_eq!(count.load(Ordering::Relaxed), 1);

    // A refused fetch resolves nothing, so there is nothing to redraw.
    fetch_waking(&provider, 0, "https://example.com/x.png", None, wake);
    assert_eq!(count.load(Ordering::Relaxed), 1);
}

#[test]
fn the_waker_learns_of_the_document() {
    let woken = Arc::new(AtomicUsize::new(0));
    let provider = redraw_provider(woken.clone());
    let landed = fetch_waking(&provider, 7, "data:,x", None, |w: &Arc<AtomicUsize>, id| {
        w.store(id, Ordering::Relaxed)
    });
    assert_eq!(landed.unwrap().1, b"x");
    assert_eq!(woken.load(Ordering::Relaxed), 7);
}

#[test]
fn without_a_waker_nobody_is_woken() {
    let provider: LocalAssets<u8> = LocalAssets::new(None);
    let delivery = provider.deliver(1, "data:,x", Some(vec![1]));
    assert!(delivery.wake.is_none());
    assert_eq!(delivery.handler.unwrap().1, vec![1]);
}

#[test]
fn a_shared_provider_keeps_its_waker() {
    let provider = LocalAssets::shared(Some(3u8));
    assert_eq!(provider.waker, Some(3));
}

#[test]
fn a_broken_data_url_resolves_to_nothing() {
    let provider = LocalAssets::new(None);
    // Not base64, and no comma.
    assert!(fetch(&provider, "data:image/png;base64,a").is_none());
    assert!(fetch(&provider, "data:image/png").is_none());
}

#[test]
fn no_decoding_error_delivers_anything() {
    let provider: LocalAssets<u8> = LocalAssets::new(Some(1));
    for error in [DataUrlError::NotADataUrl, DataUrlError::NoComma, DataUrlError::InvalidBase64] {
        let delivery = provider.deliver_body(0, "data:x", Err(error));
        assert!(delivery.handler.is_none());
        assert!(delivery.wake.is_none());
    }
    let delivery = provider.deliver_body(4, "data:,x", Ok(vec![120]));
    assert_eq!(delivery.handler, Some(("data:,x".to_string(), vec![120])));
    assert_eq!(delivery.wake, Some((&1, 4)));
}

#[test]
fn schemes_route() {
    assert_eq!(route("data"), Route::Data);
    assert_eq!(route("file"), Route::File);
    assert_eq!(route("http"), Route::Refused);
    assert_eq!(route("dat"), Route::Refused);
    assert_eq!(route("DATA"), Route::Refused);
    assert_eq!(route(""), Route::Refused);
}

#[test]
fn the_path_of_a_file_url_is_decoded() {
    let provider: LocalAssets<()> = LocalAssets::new(None);
    match provider.fetch(0, "file:///tmp/a%20b/%C3%A9.png?x#y") {
        Fetch::ReadFile(path) => assert_eq!(path, "/tmp/a b/\u{e9}.png".as_bytes()),
        _ => panic!("no file"),
    }
    match provider.fetch(0, "FILE://localhost/definitely/not/../here.png") {
        Fetch::ReadFile(path) => assert_eq!(path, b"/definitely/here.png"),
        _ => panic!("no file"),
    }
}

#[test]
fn a_file_url_without_a_path_resolves_to_nothing() {
    let provider = LocalAssets::new(Some(1u8));
    match provider.fetch(0, "file://example.com/share/x.png") {
        Fetch::Done(delivery) => assert!(delivery.steps().is_empty()),
        _ => panic!("not done"),
    }
}

#[test]
fn a_path_is_read_where_there_is_one() {
    let provider = LocalAssets::new(Some(1u8));
    match provider.file_request(0, "file:///x", Some(b"/x".to_vec())) {
        Fetch::ReadFile(path) => assert_eq!(path, b"/x"),
        _ => panic!("no file"),
    }
    match provider.file_request(0, "file:///x", None) {
        Fetch::Done(delivery) => assert!(delivery.steps().is_empty()),
        _ => panic!("not done"),
    }
}

#[test]
fn the_bytes_come_before_the_wake() {
    let provider = LocalAssets::new(Some(8u8));
    let steps = provider.deliver(3, "data:,x", Some(vec![120])).steps();
    assert_eq!(steps.len(), 2);
    assert!(matches!(&steps[0], DeliveryStep::HandOver(url, bytes) if url == "data:,x" && bytes == &[120]));
    assert!(matches!(steps[1], DeliveryStep::Wake(8, 3)));
    let provider: LocalAssets<u8> = LocalAssets::new(None);
    assert_eq!(provider.deliver(3, "data:,x", Some(vec![])).steps().len(), 1);
}

#[test]
fn a_drive_alone_names_no_file() {
    for path in ["/C:", "/z:", "/C%3A", "/c%3a"] {
        assert!(!can_name_a_file(path, false), "{path}");
    }
    for path in ["/C:/", "/C:/x", "/C|", "/CD", "/1:", "/C%3B", "/", "", "//x"] {
        assert!(can_name_a_file(path, false), "{path}");
    }
    let provider = LocalAssets::new(Some(1u8));
    match provider.fetch(0, "file:///C:") {
        Fetch::Done(delivery) => assert!(delivery.steps().is_empty()),
        _ => panic!("not done"),
    }
    match provider.fetch(0, "file:///C:/x") {
        Fetch::ReadFile(path) => assert!(!path.is_empty()),
        _ => panic!("no file"),
    }
}

#[test]
fn a_host_without_a_share_names_no_file() {
    for path in ["/", "", "//share/x", "/\\share", "/%2Fx", "/%2fx", "/%5Cx", "/%5cx"] {
        assert!(!can_name_a_file(path, true), "{path}");
    }
    for path in ["/share/x", "/%41/x", "/%5Dx", "/%2", "/C:/x"] {
        assert!(can_name_a_file(path, true), "{path}");
    }
    assert!(!can_name_a_file("/C:", true));
}

#[test]
fn the_root_needs_no_share_without_a_host() {
    let provider: LocalAssets<()> = LocalAssets::new(None);
    match provider.fetch(0, "file:///") {
        Fetch::ReadFile(path) => assert_eq!(path, b"/"),
        _ => panic!("no file"),
    }
}
