//! Resource loading for the editor's document.
//!
//! The document asks for every resource that it references, `<img src>` included. What is served
//! here is `data:` and `file:` only; every other scheme is refused. A plugin editor runs inside
//! someone else's host and has no business making network requests, and serving local schemes
//! needs no runtime to spawn onto. An application that wants remote content fetches it through its
//! own transport and hands the bytes to the document as a `data:` URL.
//!
//! Reading a file is left to the caller: [`LocalAssets::fetch`] says which file, if any, and
//! [`LocalAssets::deliver`] what to do once the bytes are there.

use std::sync::Arc;

use vstd::prelude::*;

use crate::text::{characters, same_text, text_view};

verus! {

/// Why a `data:` URL has no body.
#[derive(Clone, Copy, Debug, PartialEq, Eq, Structural)]
pub enum DataUrlError {
    NotADataUrl,
    NoComma,
    InvalidBase64,
}

/// How a URL is served, by its scheme.
#[derive(Clone, Copy, Debug, PartialEq, Eq, Structural)]
pub enum Route {
    /// The URL holds the resource.
    Data,
    /// The resource is a file.
    File,
    /// The request is not made.
    Refused,
}

/// What becomes of a resource that was asked for. [`Delivery::steps`] gives the order.
pub struct Delivery<'a, W> {
    /// The URL and the bytes to hand to the request's handler. Without them the handler is
    /// dropped, which is how a failed fetch is reported.
    pub handler: Option<(String, Vec<u8>)>,
    /// Whom to wake, and for which document, so that the resource is drawn.
    pub wake: Option<(&'a W, usize)>,
}

/// A step of delivering a resource.
pub enum DeliveryStep<'a, W> {
    /// Hand the bytes to the request's handler, under this URL.
    HandOver(String, Vec<u8>),
    /// Wake this waker for this document.
    Wake(&'a W, usize),
}

/// The contents of a [`DeliveryStep`].
pub enum DeliveryStepView<W> {
    HandOver(Seq<char>, Seq<u8>),
    Wake(W, usize),
}

impl<'a, W> View for DeliveryStep<'a, W> {
    type V = DeliveryStepView<W>;

    open spec fn view(&self) -> DeliveryStepView<W> {
        match self {
            DeliveryStep::HandOver(url, bytes) => DeliveryStepView::HandOver(url@, bytes@),
            DeliveryStep::Wake(waker, doc_id) => DeliveryStepView::Wake(**waker, *doc_id),
        }
    }
}

/// The contents of some steps.
pub open spec fn steps_view<'a, W>(steps: Seq<DeliveryStep<'a, W>>) -> Seq<DeliveryStepView<W>> {
    steps.map_values(|step: DeliveryStep<'a, W>| step@)
}

/// What to do with a request.
pub enum Fetch<'a, W> {
    /// The outcome is known.
    Done(Delivery<'a, W>),
    /// Read the file with this path, in the platform's encoding of paths, and pass what was read
    /// to [`LocalAssets::deliver`].
    ReadFile(Vec<u8>),
    /// Drop the handler: the URL has this scheme, which is not served.
    Refused(String),
    /// Drop the handler: the text is not a URL.
    NotAUrl,
}

/// Serves `data:` and `file:` URLs; refuses every other scheme.
pub struct LocalAssets<W> {
    /// Woken after each resource resolves, so the shell redraws with it. The document itself is
    /// not repainted by the handler: without this the image lands in the document and is not seen
    /// until the next unrelated frame.
    pub waker: Option<W>,
}

/// The scheme of the URL that a text parses to, or `None` where it is no URL: what
/// `url::Url::parse` and `url::Url::scheme` give.
pub uninterp spec fn url_scheme_text(url: Seq<char>) -> Option<Seq<char>>;

/// The path component of the URL that a text parses to, or `None` where it is no URL: what
/// `url::Url::parse` and `url::Url::path` give.
pub uninterp spec fn url_path_text(url: Seq<char>) -> Option<Seq<char>>;

/// Whether a text parses to a URL with a host: what `url::Url::parse` and `url::Url::has_host` give.
pub uninterp spec fn url_with_host(url: Seq<char>) -> bool;

/// The path of the file that a `file:` URL names by a family of rules, or `None` where it names
/// none: what `url::Url::parse` and `url::Url::to_file_path` give where those rules apply.
pub uninterp spec fn url_file_path(url: Seq<char>, family: u8) -> Option<Seq<u8>>;

/// The body of a `data:` URL: what `data_url::DataUrl::process` and
/// `data_url::DataUrl::decode_to_vec` give.
pub uninterp spec fn data_url_body(url: Seq<char>) -> Result<Seq<u8>, DataUrlError>;

/// The bytes of a decoded body.
pub open spec fn body_view(body: Result<Vec<u8>, DataUrlError>) -> Result<Seq<u8>, DataUrlError> {
    match body {
        Ok(bytes) => Ok(bytes@),
        Err(e) => Err(e),
    }
}

/// Some bytes, where there are any.
pub open spec fn bytes_view(bytes: Option<Vec<u8>>) -> Option<Seq<u8>> {
    match bytes {
        Some(b) => Some(b@),
        None => None,
    }
}

/// The text begins with lower-case ASCII letters, and a colon follows them at `end`.
pub open spec fn scheme_ends_at(url: Seq<char>, end: int) -> bool {
    &&& 0 < end < url.len()
    &&& url[end] == ':'
    &&& forall|j: int| 0 <= j < end ==> 'a' <= #[trigger] url[j] <= 'z'
}

/// The scheme of a URL, by `url::Url::parse` and `url::Url::scheme` (the `Url` that
/// `blitz_traits::net` re-exports). It is `None` where the text does not parse. The two are
/// claimed to be a function of the text. Where the text begins with lower-case letters and a
/// colon, and parses, those letters are claimed to be the scheme.
#[verifier::external_body]
fn url_scheme(url: &str) -> (scheme: Option<String>)
    ensures
        text_view(scheme) == url_scheme_text(url@),
        forall|end: int| #[trigger]
            scheme_ends_at(url@, end) && scheme is Some ==> scheme->0@ == url@.take(end),
{
    match blitz_traits::net::Url::parse(url) {
        Ok(parsed) => Some(parsed.scheme().to_string()),
        Err(_) => None,
    }
}

/// The body of a `data:` URL, by `data_url::DataUrl::process` and
/// `data_url::DataUrl::decode_to_vec`; the fragment is left out. The two are claimed to be a
/// function of the text.
#[verifier::external_body]
fn decode_data_url(url: &str) -> (body: Result<Vec<u8>, DataUrlError>)
    ensures
        body_view(body) == data_url_body(url@),
{
    match data_url::DataUrl::process(url) {
        Ok(data) => match data.decode_to_vec() {
            Ok((bytes, _)) => Ok(bytes),
            Err(_) => Err(DataUrlError::InvalidBase64),
        },
        Err(data_url::DataUrlError::NotADataUrl) => Err(DataUrlError::NotADataUrl),
        Err(data_url::DataUrlError::NoComma) => Err(DataUrlError::NoComma),
    }
}

/// The path component of a URL, still percent-encoded, by `url::Url::parse` and `url::Url::path`.
/// It is `None` where the text does not parse. The two are claimed to be a function of the text.
#[verifier::external_body]
fn url_path(url: &str) -> (path: Option<String>)
    ensures
        text_view(path) == url_path_text(url@),
{
    match blitz_traits::net::Url::parse(url) {
        Ok(parsed) => Some(parsed.path().to_string()),
        Err(_) => None,
    }
}

/// Whether a text parses to a URL that has a host, by `url::Url::parse` and `url::Url::has_host`.
/// The two are claimed to be a function of the text.
#[verifier::external_body]
fn url_has_host(url: &str) -> (r: bool)
    ensures
        r == url_with_host(url@),
{
    match blitz_traits::net::Url::parse(url) {
        Ok(parsed) => parsed.has_host(),
        Err(_) => false,
    }
}

/// The path of the file that a `file:` URL names, by `url::Url::parse`, `url::Url::to_file_path`
/// and `std::ffi::OsString::into_encoded_bytes`; the file is not looked at.
///
/// The path is claimed to be a function of the text and of a family of rules: those of the platform
/// that this is built for, or that of naming nothing when memory runs out. It is claimed to be given
/// only where the text parses, and not to be empty. Which family applies is not said.
///
/// With debug assertions `to_file_path` panics on Windows where the path would not be absolute;
/// [`names_a_file`] leaves those URLs out.
#[verifier::external_body]
fn file_path(url: &str) -> (path: Option<Vec<u8>>)
    requires
        url_scheme_text(url@) == Some("file"@),
        names_a_file(url@),
    ensures
        exists|family: u8| bytes_view(path) == #[trigger] url_file_path(url@, family),
        path is Some ==> url_scheme_text(url@) is Some,
        path matches Some(bytes) ==> bytes@.len() > 0,
{
    match blitz_traits::net::Url::parse(url) {
        Ok(parsed) => match parsed.to_file_path() {
            Ok(path) => Some(path.into_os_string().into_encoded_bytes()),
            Err(_) => None,
        },
        Err(_) => None,
    }
}

/// An ASCII letter.
pub open spec fn letter(c: char) -> bool {
    'a' <= c <= 'z' || 'A' <= c <= 'Z'
}

/// A URL's path is that of a drive and no more: `/C:`, or `/C%3A`. It names no file.
pub open spec fn lone_drive(path: Seq<char>) -> bool {
    ||| path.len() == 3 && letter(path[1]) && path[2] == ':'
    ||| path.len() == 5 && letter(path[1]) && path[2] == '%' && path[3] == '3' && (path[4] == 'a'
        || path[4] == 'A')
}

/// A URL's path begins with something other than a separator, plain or percent-encoded: the name of
/// a host's share.
pub open spec fn begins_with_a_share(path: Seq<char>) -> bool {
    &&& path.len() >= 2
    &&& path[1] != '/'
    &&& path[1] != '\\'
    &&& !(path.len() >= 4 && path[1] == '%' && path[2] == '2' && (path[3] == 'f' || path[3] == 'F'))
    &&& !(path.len() >= 4 && path[1] == '%' && path[2] == '5' && (path[3] == 'c' || path[3] == 'C'))
}

/// A `file:` URL with this path, and with a host or without, can name a file on some platform.
pub open spec fn usable_path(path: Seq<char>, has_host: bool) -> bool {
    !lone_drive(path) && (has_host ==> begins_with_a_share(path))
}

/// A `file:` URL can name a file on some platform.
pub open spec fn names_a_file(url: Seq<char>) -> bool {
    match url_path_text(url) {
        Some(path) => usable_path(path, url_with_host(url)),
        None => false,
    }
}

/// The path of the file that a `file:` URL is answered with, by a family of rules.
pub open spec fn named_file(url: Seq<char>, family: u8) -> Option<Seq<u8>> {
    if names_a_file(url) {
        url_file_path(url, family)
    } else {
        None
    }
}

fn is_letter(c: char) -> (r: bool)
    ensures
        r == letter(c),
{
    ('a' <= c && c <= 'z') || ('A' <= c && c <= 'Z')
}

/// Whether a `file:` URL with this path, and with a host or without, can name a file. A drive alone
/// does not, nor does a host without a share.
pub fn can_name_a_file(path: &str, has_host: bool) -> (r: bool)
    ensures
        r == usable_path(path@, has_host),
{
    let p: Vec<char> = characters(path);
    let n: usize = p.len();
    if n == 3 && is_letter(p[1]) && p[2] == ':' {
        return false;
    }
    if n == 5 && is_letter(p[1]) && p[2] == '%' && p[3] == '3' && (p[4] == 'a' || p[4] == 'A') {
        return false;
    }
    if !has_host {
        return true;
    }
    if n < 2 || p[1] == '/' || p[1] == '\\' {
        return false;
    }
    if n >= 4 && p[1] == '%' {
        if p[2] == '2' && (p[3] == 'f' || p[3] == 'F') {
            return false;
        }
        if p[2] == '5' && (p[3] == 'c' || p[3] == 'C') {
            return false;
        }
    }
    true
}

/// The path of the file that a `file:` URL is answered with, if any.
fn answering_file(url: &str) -> (path: Option<Vec<u8>>)
    requires
        url_scheme_text(url@) == Some("file"@),
    ensures
        exists|family: u8| bytes_view(path) == #[trigger] named_file(url@, family),
        path matches Some(bytes) ==> bytes@.len() > 0,
{
    let usable: bool = match url_path(url) {
        Some(path) => can_name_a_file(path.as_str(), url_has_host(url)),
        None => false,
    };
    if usable {
        let path: Option<Vec<u8>> = file_path(url);
        proof {
            let family = choose|family: u8| bytes_view(path) == #[trigger] url_file_path(
                url@,
                family,
            );
            assert(bytes_view(path) == named_file(url@, family));
        }
        path
    } else {
        proof {
            assert(named_file(url@, 0) is None);
        }
        None
    }
}

/// How a scheme is served.
pub open spec fn route_of(scheme: Seq<char>) -> Route {
    if scheme == "data"@ {
        Route::Data
    } else if scheme == "file"@ {
        Route::File
    } else {
        Route::Refused
    }
}

/// Decides how a URL is served from its scheme alone.
pub fn route(scheme: &str) -> (r: Route)
    ensures
        r == route_of(scheme@),
{
    if same_text(scheme, "data") {
        Route::Data
    } else if same_text(scheme, "file") {
        Route::File
    } else {
        Route::Refused
    }
}

/// What the contents of a request's outcome are: the bytes for the handler, and the document that
/// is woken for.
pub struct DeliveryView<W> {
    pub handler: Option<(Seq<char>, Seq<u8>)>,
    pub wake: Option<(W, usize)>,
}

impl<'a, W> View for Delivery<'a, W> {
    type V = DeliveryView<W>;

    open spec fn view(&self) -> DeliveryView<W> {
        DeliveryView {
            handler: match self.handler {
                Some((url, bytes)) => Some((url@, bytes@)),
                None => None,
            },
            wake: match self.wake {
                Some((waker, doc_id)) => Some((*waker, doc_id)),
                None => None,
            },
        }
    }
}

impl<W> DeliveryView<W> {
    /// The steps of a delivery: the bytes are handed over first, so that what is drawn after the
    /// wake has them.
    pub open spec fn in_order(self) -> Seq<DeliveryStepView<W>> {
        let handed = match self.handler {
            Some((url, bytes)) => seq![DeliveryStepView::HandOver(url, bytes)],
            None => seq![],
        };
        let woken = match self.wake {
            Some((waker, doc_id)) => seq![DeliveryStepView::Wake(waker, doc_id)],
            None => seq![],
        };
        handed + woken
    }
}

impl<'a, W> Delivery<'a, W> {
    /// The steps of the delivery, in order. Without any, the request's handler is dropped.
    pub fn steps(self) -> (r: Vec<DeliveryStep<'a, W>>)
        ensures
            steps_view(r@) == self@.in_order(),
    {
        let mut steps: Vec<DeliveryStep<'a, W>> = Vec::new();
        if let Some((url, bytes)) = self.handler {
            steps.push(DeliveryStep::HandOver(url, bytes));
        }
        if let Some((waker, doc_id)) = self.wake {
            steps.push(DeliveryStep::Wake(waker, doc_id));
        }
        proof {
            assert(steps_view(steps@) =~= self@.in_order());
        }
        steps
    }
}

/// What a request comes to.
pub enum FetchView<W> {
    Done(DeliveryView<W>),
    ReadFile(Seq<u8>),
    Refused(Seq<char>),
    NotAUrl,
}

impl<'a, W> View for Fetch<'a, W> {
    type V = FetchView<W>;

    open spec fn view(&self) -> FetchView<W> {
        match self {
            Fetch::Done(delivery) => FetchView::Done(delivery@),
            Fetch::ReadFile(path) => FetchView::ReadFile(path@),
            Fetch::Refused(scheme) => FetchView::Refused(scheme@),
            Fetch::NotAUrl => FetchView::NotAUrl,
        }
    }
}

impl<W> LocalAssets<W> {
    /// Resolved bytes go to the handler together with the URL, and the waker is woken for the
    /// document. Where nothing was resolved, neither happens.
    pub open spec fn delivery_of(self, doc_id: usize, url: Seq<char>, bytes: Option<Seq<u8>>)
        -> DeliveryView<W> {
        match bytes {
            Some(b) => DeliveryView {
                handler: Some((url, b)),
                wake: match self.waker {
                    Some(w) => Some((w, doc_id)),
                    None => None,
                },
            },
            None => DeliveryView { handler: None, wake: None },
        }
    }

    /// What a request for a file comes to, where `path` is the path that its URL names, if it
    /// names one. Without a path nothing resolves.
    pub open spec fn file_requested(self, doc_id: usize, url: Seq<char>, path: Option<Seq<u8>>)
        -> FetchView<W> {
        match path {
            Some(p) => FetchView::ReadFile(p),
            None => FetchView::Done(self.delivery_of(doc_id, url, None)),
        }
    }

    /// What a request for `url` comes to, where `scheme` is the URL's scheme, `body` is its body as
    /// a `data:` URL and `path` is the path that it names as a `file:` URL.
    pub open spec fn fetched(
        self,
        doc_id: usize,
        url: Seq<char>,
        scheme: Option<Seq<char>>,
        body: Result<Seq<u8>, DataUrlError>,
        path: Option<Seq<u8>>,
    ) -> FetchView<W> {
        match scheme {
            None => FetchView::NotAUrl,
            Some(s) => match route_of(s) {
                Route::Data => FetchView::Done(
                    self.delivery_of(
                        doc_id,
                        url,
                        match body {
                            Ok(b) => Some(b),
                            Err(_) => None,
                        },
                    ),
                ),
                Route::File => self.file_requested(doc_id, url, path),
                Route::Refused => FetchView::Refused(s),
            },
        }
    }

    /// A provider that wakes `waker` when a resource resolves.
    pub fn new(waker: Option<W>) -> (r: LocalAssets<W>)
        ensures
            r.waker == waker,
    {
        LocalAssets { waker }
    }

    /// As an `Arc`, ready to be shared with a document.
    pub fn shared(waker: Option<W>) -> (r: Arc<LocalAssets<W>>)
        ensures
            r.waker == waker,
    {
        Arc::new(Self::new(waker))
    }

    /// Decides what to do with a request for `url`.
    ///
    /// A URL that spells its scheme in lower-case letters is served by that scheme, if it is served
    /// at all: a text that begins with `https:` is refused, or is no URL. A `file:` URL is read from
    /// the path that it names, and resolves to nothing where it names none.
    pub fn fetch(&self, doc_id: usize, url: &str) -> (r: Fetch<'_, W>)
        ensures
            exists|family: u8|
                r@ == self.fetched(
                    doc_id,
                    url@,
                    url_scheme_text(url@),
                    data_url_body(url@),
                    #[trigger] named_file(url@, family),
                ),
            url_scheme_text(url@) == Some("file"@) ==> r@ is ReadFile || r@ == FetchView::Done(
                self.delivery_of(doc_id, url@, None),
            ),
            r@ matches FetchView::ReadFile(path) ==> path.len() > 0,
            forall|end: int| #[trigger]
                scheme_ends_at(url@, end) ==> r@ is NotAUrl || exists|family: u8|
                    r@ == self.fetched(
                        doc_id,
                        url@,
                        Some(url@.take(end)),
                        data_url_body(url@),
                        #[trigger] named_file(url@, family),
                    ),
    {
        let ghost body = data_url_body(url@);
        match url_scheme(url) {
            None => {
                proof {
                    assert(self.fetched(doc_id, url@, None, body, named_file(url@, 0)) is NotAUrl);
                }
                Fetch::NotAUrl
            },
            Some(scheme) => {
                let ghost s = scheme@;
                let ghost mut family: u8 = 0;
                let r: Fetch<'_, W> = match route(scheme.as_str()) {
                    Route::Data => Fetch::Done(
                        self.deliver_body(doc_id, url, decode_data_url(url)),
                    ),
                    Route::File => {
                        let path: Option<Vec<u8>> = answering_file(url);
                        proof {
                            family =
                            choose|family: u8| bytes_view(path) == #[trigger] named_file(
                                url@,
                                family,
                            );
                        }
                        self.file_request(doc_id, url, path)
                    },
                    Route::Refused => Fetch::Refused(scheme),
                };
                proof {
                    reveal_strlit("data");
                    reveal_strlit("file");
                    assert("data"@[0] != "file"@[0]);
                    assert(r@ == self.fetched(
                        doc_id,
                        url@,
                        Some(s),
                        body,
                        named_file(url@, family),
                    ));
                }
                r
            },
        }
    }

    /// Decides what to do with a `file:` URL, given the path that it names, if it names one.
    pub fn file_request(&self, doc_id: usize, url: &str, path: Option<Vec<u8>>) -> (r: Fetch<'_, W>)
        ensures
            r@ == self.file_requested(doc_id, url@, bytes_view(path)),
    {
        match path {
            Some(p) => Fetch::ReadFile(p),
            None => Fetch::Done(self.deliver(doc_id, url, None)),
        }
    }

    /// Decides what becomes of a `data:` URL whose body was decoded.
    pub fn deliver_body(&self, doc_id: usize, url: &str, body: Result<Vec<u8>, DataUrlError>)
        -> (r: Delivery<'_, W>)
        ensures
            r@ == self.delivery_of(
                doc_id,
                url@,
                match body_view(body) {
                    Ok(b) => Some(b),
                    Err(_) => None,
                },
            ),
    {
        match body {
            Ok(bytes) => self.deliver(doc_id, url, Some(bytes)),
            Err(_) => self.deliver(doc_id, url, None),
        }
    }

    /// Decides what becomes of a resource, given the bytes that it resolved to, if it did.
    pub fn deliver(&self, doc_id: usize, url: &str, bytes: Option<Vec<u8>>) -> (r: Delivery<'_, W>)
        ensures
            r@ == self.delivery_of(
                doc_id,
                url@,
                bytes_view(bytes),
            ),
    {
        match bytes {
            None => Delivery { handler: None, wake: None },
            Some(body) => Delivery {
                handler: Some((url.to_owned(), body)),
                wake: match &self.waker {
                    Some(waker) => Some((waker, doc_id)),
                    None => None,
                },
            },
        }
    }
}

/// A provider that raises `needs_redraw` when a resource lands.
///
/// The editor paints on demand, so a document that resolves an image between frames would
/// otherwise sit there holding it until something unrelated caused a repaint.
pub fn redraw_provider<R>(needs_redraw: R) -> (r: Arc<LocalAssets<R>>)
    ensures
        r.waker == Some(needs_redraw),
{
    LocalAssets::shared(Some(needs_redraw))
}

/// A URL of any scheme but `data` and `file` is refused: nothing is read for it, its handler gets
/// no bytes, and nobody is woken.
pub proof fn other_schemes_are_refused<W>(
    provider: LocalAssets<W>,
    doc_id: usize,
    url: Seq<char>,
    scheme: Seq<char>,
    path: Option<Seq<u8>>,
)
    requires
        url_scheme_text(url) == Some(scheme),
        scheme != "data"@,
        scheme != "file"@,
    ensures
        provider.fetched(doc_id, url, url_scheme_text(url), data_url_body(url), path)
            == FetchView::<W>::Refused(scheme),
{
}

/// The waker is woken for a request exactly where its handler gets bytes.
pub proof fn woken_when_a_resource_lands<W>(
    provider: LocalAssets<W>,
    doc_id: usize,
    url: Seq<char>,
    bytes: Option<Seq<u8>>,
)
    requires
        provider.waker is Some,
    ensures
        provider.delivery_of(doc_id, url, bytes).wake is Some
            <==> provider.delivery_of(doc_id, url, bytes).handler is Some,
        provider.delivery_of(doc_id, url, bytes).handler is Some <==> bytes is Some,
        bytes is Some ==> provider.delivery_of(doc_id, url, bytes).wake
            == Some((provider.waker->0, doc_id)),
{
}

/// A `data:` URL that decodes is answered with the bytes that it decodes to, under its own URL,
/// and is answered without reading a file.
pub proof fn a_data_url_resolves_to_its_body<W>(
    provider: LocalAssets<W>,
    doc_id: usize,
    url: Seq<char>,
    body: Seq<u8>,
    path: Option<Seq<u8>>,
)
    requires
        url_scheme_text(url) == Some("data"@),
        data_url_body(url) == Ok::<Seq<u8>, DataUrlError>(body),
    ensures
        provider.fetched(doc_id, url, url_scheme_text(url), data_url_body(url), path) matches
            FetchView::Done(delivery) && delivery.handler == Some((url, body)),
{
}

/// A resource that lands is handed over once, under its own URL, and then the waker, where there is
/// one, is woken once for the document. For one that does not, nothing is done.
pub proof fn bytes_are_handed_over_before_the_wake<W>(
    provider: LocalAssets<W>,
    doc_id: usize,
    url: Seq<char>,
    bytes: Option<Seq<u8>>,
)
    ensures
        provider.delivery_of(doc_id, url, bytes).in_order() == match bytes {
            None => seq![],
            Some(b) => match provider.waker {
                Some(w) => seq![
                    DeliveryStepView::HandOver(url, b),
                    DeliveryStepView::Wake(w, doc_id),
                ],
                None => seq![DeliveryStepView::HandOver(url, b)],
            },
        },
{
}

/// A `file:` URL that names a file is answered by reading that file, whichever family of rules says
/// which one it is; one that names none resolves to nothing.
pub proof fn a_file_url_is_answered_with_the_file_that_it_names<W>(
    provider: LocalAssets<W>,
    doc_id: usize,
    url: Seq<char>,
    family: u8,
)
    requires
        url_scheme_text(url) == Some("file"@),
    ensures
        provider.fetched(
            doc_id,
            url,
            url_scheme_text(url),
            data_url_body(url),
            named_file(url, family),
        ) == match named_file(url, family) {
            Some(path) => FetchView::ReadFile(path),
            None => FetchView::Done(provider.delivery_of(doc_id, url, None)),
        },
{
    reveal_strlit("data");
    reveal_strlit("file");
    assert("data"@[0] != "file"@[0]);
}

/// What is served is `data:` and `file:`, each in its own way, and nothing else.
pub proof fn two_schemes_are_served(scheme: Seq<char>)
    ensures
        route_of(scheme) is Data <==> scheme == "data"@,
        route_of(scheme) is File <==> scheme == "file"@,
        route_of(scheme) is Refused <==> scheme != "data"@ && scheme != "file"@,
{
    reveal_strlit("data");
    reveal_strlit("file");
    assert("data"@[0] != "file"@[0]);
}

/// A `data:` URL whose body does not decode resolves to nothing: its handler gets no bytes and
/// nobody is woken. One that decodes to no bytes resolves to that.
pub proof fn a_broken_data_url_resolves_to_nothing<W>(
    provider: LocalAssets<W>,
    doc_id: usize,
    url: Seq<char>,
    body: Result<Seq<u8>, DataUrlError>,
    path: Option<Seq<u8>>,
)
    ensures
        ({
            let fetched = provider.fetched(doc_id, url, Some("data"@), body, path);
            &&& fetched is Done
            &&& fetched->Done_0.handler is Some <==> body is Ok
            &&& body is Ok ==> fetched->Done_0.handler == Some((url, body->Ok_0))
            &&& fetched->Done_0.wake is Some <==> body is Ok && provider.waker is Some
            &&& fetched->Done_0.wake is Some ==> fetched->Done_0.wake == Some(
                (provider.waker->0, doc_id),
            )
        }),
        provider.fetched(doc_id, url, None, body, path) is NotAUrl,
{
}

/// A `file:` URL is read from the path that it names, whatever else the URL could stand for, and
/// resolves to nothing without one.
pub proof fn a_file_is_read_from_its_path<W>(
    provider: LocalAssets<W>,
    doc_id: usize,
    url: Seq<char>,
    body: Result<Seq<u8>, DataUrlError>,
    path: Option<Seq<u8>>,
)
    ensures
        ({
            let fetched = provider.fetched(doc_id, url, Some("file"@), body, path);
            &&& path is Some ==> fetched is ReadFile && fetched->ReadFile_0 == path->0
            &&& path is None ==> fetched is Done && fetched->Done_0.handler is None
                && fetched->Done_0.wake is None
        }),
{
    reveal_strlit("data");
    reveal_strlit("file");
    assert("data"@[0] != "file"@[0]);
}

/// Without a host every path can name a file but that of a drive alone, which is a letter and a
/// colon, plain or percent-encoded, and no more.
pub proof fn only_a_drive_alone_names_no_file(path: Seq<char>)
    ensures
        path.len() != 3 && path.len() != 5 ==> usable_path(path, false),
        path.len() == 3 && path[2] != ':' ==> usable_path(path, false),
        path.len() == 5 && path[2] != '%' ==> usable_path(path, false),
        path.len() == 3 && path[2] == ':' && 'a' <= path[1] <= 'z' ==> !usable_path(path, false),
        path.len() == 3 && path[2] == ':' && 'A' <= path[1] <= 'Z' ==> !usable_path(path, false),
        path.len() == 5 && path[2] == '%' && path[3] == '3' && (path[4] == 'A' || path[4] == 'a')
            && ('a' <= path[1] <= 'z' || 'A' <= path[1] <= 'Z') ==> !usable_path(path, false),
        path.len() == 5 && path[3] != '3' ==> usable_path(path, false),
        path.len() == 5 && path[4] != 'A' && path[4] != 'a' ==> usable_path(path, false),
        path.len() > 1 && !('a' <= path[1] <= 'z') && !('A' <= path[1] <= 'Z') ==> usable_path(
            path,
            false,
        ),
        usable_path(path, true) ==> usable_path(path, false),
{
}

/// With a host, a path that begins with an ordinary character names a file on a share, but for a
/// drive alone; one that is empty or begins with a separator, plain or percent-encoded, does not.
pub proof fn a_share_has_a_name(path: Seq<char>)
    ensures
        path.len() < 2 ==> !usable_path(path, true),
        path.len() >= 2 && (path[1] == '/' || path[1] == '\\') ==> !usable_path(path, true),
        path.len() >= 2 && path[1] != '/' && path[1] != '\\' && path[1] != '%' && usable_path(
            path,
            false,
        ) ==> usable_path(path, true),
        path.len() >= 4 && path[1] == '%' ==> (usable_path(path, true) <==> !(path[2] == '2' && (
        path[3] == 'f' || path[3] == 'F')) && !(path[2] == '5' && (path[3] == 'c' || path[3]
            == 'C'))),
        2 <= path.len() < 4 && path[1] == '%' ==> usable_path(path, true),
{
}

/// What is answered with is what the URL names where it can name a file, and nothing where it
/// cannot.
pub proof fn a_named_file_is_that_of_the_url(url: Seq<char>, family: u8)
    ensures
        names_a_file(url) ==> named_file(url, family) == url_file_path(url, family),
        !names_a_file(url) ==> named_file(url, family) is None,
        url_path_text(url) is None ==> !names_a_file(url),
        url_path_text(url) matches Some(path) ==> (names_a_file(url) <==> usable_path(
            path,
            url_with_host(url),
        )),
{
}

/// What a request comes to holds every part of what was made for it.
pub proof fn an_outcome_is_handed_over_whole<W>(
    delivery: Delivery<'_, W>,
    fetch: Fetch<'_, W>,
    step: DeliveryStep<'_, W>,
)
    ensures
        delivery@.handler is Some <==> delivery.handler is Some,
        delivery.handler matches Some(h) ==> delivery@.handler == Some((h.0@, h.1@)),
        delivery@.wake is Some <==> delivery.wake is Some,
        delivery.wake matches Some(w) ==> delivery@.wake == Some((*w.0, w.1)),
        fetch matches Fetch::Done(d) ==> fetch@ == FetchView::Done(d@),
        fetch matches Fetch::ReadFile(path) ==> fetch@ == FetchView::<W>::ReadFile(path@),
        fetch matches Fetch::Refused(scheme) ==> fetch@ == FetchView::<W>::Refused(scheme@),
        fetch is NotAUrl ==> fetch@ is NotAUrl,
        step matches DeliveryStep::HandOver(url, bytes) ==> step@ == DeliveryStepView::<
            W,
        >::HandOver(url@, bytes@),
        step matches DeliveryStep::Wake(waker, doc_id) ==> step@ == DeliveryStepView::Wake(
            *waker,
            doc_id,
        ),
{
}

/// A scheme of lower-case letters ends at the first colon, and has a letter at least.
pub proof fn a_scheme_ends_at_its_colon(letters: Seq<char>, rest: Seq<char>, end: int)
    requires
        forall|i: int| 0 <= i < letters.len() ==> 'a' <= #[trigger] letters[i] <= 'z',
    ensures
        scheme_ends_at(letters + seq![':'] + rest, end) <==> letters.len() > 0 && end
            == letters.len(),
{
    let url = letters + seq![':'] + rest;
    assert(url[letters.len() as int] == ':');
    assert forall|i: int| 0 <= i < letters.len() implies 'a' <= #[trigger] url[i] <= 'z' by {
        assert(url[i] == letters[i]);
    }
    if scheme_ends_at(url, end) && end > letters.len() {
        assert('a' <= url[letters.len() as int]);
    }
}

/// Bytes are handed over as they are, and a failure as it is.
pub proof fn bytes_are_taken_whole(
    bytes: Vec<u8>,
    error: DataUrlError,
)
    ensures
        bytes_view(Some(bytes)) == Some(bytes@),
        bytes_view(None) is None,
        body_view(Ok(bytes)) == Ok::<Seq<u8>, DataUrlError>(bytes@),
        body_view(Err(error)) == Err::<Seq<u8>, DataUrlError>(error),
{
}

} // verus!
