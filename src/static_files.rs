//! The static asset resolver. It maps a request path to a file under the
//! configured root, or decides that none is served, one step at a time: the
//! caller performs each requested filesystem probe or read and reports back.

use vstd::prelude::*;
use vstd::string::*;
use crate::config::{index_names_contained, SecurityConfig, StaticConfig};
use crate::outside::{content_hash, guessed_mime, hash_bytes, mime_for_path};
use crate::text::{decimal, quote, quoted, radix_digits};
use crate::paths::{
    escapes_root, is_contained, is_spa_route, join, join_path, spa_route, trim_leading_slashes,
    trim_slashes,
};

verus! {

/// Where a resolution stands.
#[derive(Debug, Clone, Copy, PartialEq, Eq, Structural)]
pub enum Phase {
    /// Reading the file that the request names.
    Direct,
    /// Checking whether the index file at this position exists.
    Probe { pos: usize },
    /// Reading an index file that was found.
    IndexRead,
    /// Nothing more to do.
    Done,
}

/// What the caller must do next.
#[derive(Debug, Clone)]
pub enum Step {
    /// Report whether this path exists.
    Probe(String),
    /// Read this file: on success serve it, on failure report back.
    Read(String),
    /// Answer 404.
    NotFound,
    /// Answer 403; nothing has been read.
    Forbidden,
}

pub enum StepView {
    Probe(Seq<char>),
    Read(Seq<char>),
    NotFound,
    Forbidden,
}

impl View for Step {
    type V = StepView;

    open spec fn view(&self) -> StepView {
        match self {
            Step::Probe(p) => StepView::Probe(p@),
            Step::Read(p) => StepView::Read(p@),
            Step::NotFound => StepView::NotFound,
            Step::Forbidden => StepView::Forbidden,
        }
    }
}

/// How a request ends.
pub enum Outcome {
    Serve(Seq<char>),
    NotFound,
    Forbidden,
}

/// The index file candidates under the root, in configured order.
pub open spec fn index_paths(cfg: StaticConfig) -> Seq<Seq<char>> {
    cfg.index_files@.map_values(|f: String| join_path(cfg.root@, f@))
}

pub open spec fn spec_probe_from(cfg: StaticConfig, pos: int) -> (Phase, StepView) {
    if 0 <= pos < cfg.index_files@.len() {
        (Phase::Probe { pos: pos as usize }, StepView::Probe(index_paths(cfg)[pos]))
    } else {
        (Phase::Done, StepView::NotFound)
    }
}

pub open spec fn spec_begin(cfg: StaticConfig, uri: Seq<char>) -> (Phase, StepView) {
    let rel = trim_slashes(uri);
    if !cfg.enabled {
        (Phase::Done, StepView::NotFound)
    } else if rel.len() == 0 {
        spec_probe_from(cfg, 0)
    } else if escapes_root(rel) {
        (Phase::Done, StepView::Forbidden)
    } else {
        (Phase::Direct, StepView::Read(join_path(cfg.root@, rel)))
    }
}

pub open spec fn spec_after_probe(cfg: StaticConfig, phase: Phase, found: bool) -> (
    Phase,
    StepView,
) {
    match phase {
        Phase::Probe { pos } => if found && pos < cfg.index_files@.len() {
            (Phase::IndexRead, StepView::Read(index_paths(cfg)[pos as int]))
        } else {
            spec_probe_from(cfg, pos + 1)
        },
        _ => (Phase::Done, StepView::NotFound),
    }
}

pub open spec fn spec_after_read_failure(cfg: StaticConfig, uri: Seq<char>, phase: Phase) -> (
    Phase,
    StepView,
) {
    match phase {
        Phase::Direct => if spa_route(trim_slashes(uri)) {
            spec_probe_from(cfg, 0)
        } else {
            (Phase::Done, StepView::NotFound)
        },
        _ => (Phase::Done, StepView::NotFound),
    }
}

fn probe_from(cfg: &StaticConfig, pos: usize) -> (r: (Phase, Step))
    ensures
        (r.0, r.1@) == spec_probe_from(*cfg, pos as int),
{
    if pos < cfg.index_files.len() {
        let p = join(cfg.root.as_str(), cfg.index_files[pos].as_str());
        (Phase::Probe { pos }, Step::Probe(p))
    } else {
        (Phase::Done, Step::NotFound)
    }
}

/// Starts resolving `uri_path`: a disabled server finds nothing, an empty
/// path searches the index files, a path that escapes the root is refused
/// before anything is read, and any other path is read under the root.
pub fn begin(cfg: &StaticConfig, uri_path: &str) -> (r: (Phase, Step))
    ensures
        (r.0, r.1@) == spec_begin(*cfg, uri_path@),
{
    if !cfg.enabled {
        return (Phase::Done, Step::NotFound);
    }
    let rel = trim_leading_slashes(uri_path);
    if rel.unicode_len() == 0 {
        probe_from(cfg, 0)
    } else if !is_contained(rel.as_str()) {
        (Phase::Done, Step::Forbidden)
    } else {
        (Phase::Direct, Step::Read(join(cfg.root.as_str(), rel.as_str())))
    }
}

/// Takes the answer to a `Probe` step: the first index file that exists is
/// read, otherwise the next one is probed, and after the last one nothing is
/// found.
pub fn on_probe(cfg: &StaticConfig, phase: Phase, found: bool) -> (r: (Phase, Step))
    ensures
        (r.0, r.1@) == spec_after_probe(*cfg, phase, found),
{
    match phase {
        Phase::Probe { pos } => {
            if found && pos < cfg.index_files.len() {
                let p = join(cfg.root.as_str(), cfg.index_files[pos].as_str());
                (Phase::IndexRead, Step::Read(p))
            } else if pos < cfg.index_files.len() {
                probe_from(cfg, pos + 1)
            } else {
                (Phase::Done, Step::NotFound)
            }
        },
        _ => (Phase::Done, Step::NotFound),
    }
}

/// Takes the failure of a `Read` step. A directly requested path that looks
/// like an application route falls back to the index search once; every
/// other failure is final.
pub fn on_read_failed(cfg: &StaticConfig, uri_path: &str, phase: Phase) -> (r: (Phase, Step))
    ensures
        (r.0, r.1@) == spec_after_read_failure(*cfg, uri_path@, phase),
{
    match phase {
        Phase::Direct => {
            let rel = trim_leading_slashes(uri_path);
            if is_spa_route(rel.as_str()) {
                probe_from(cfg, 0)
            } else {
                (Phase::Done, Step::NotFound)
            }
        },
        _ => (Phase::Done, Step::NotFound),
    }
}

/// The first of `paths` from position `pos` on that exists.
pub open spec fn first_existing(
    paths: Seq<Seq<char>>,
    present: spec_fn(Seq<char>) -> bool,
    pos: int,
) -> Option<Seq<char>>
    decreases paths.len() - pos,
{
    if pos < 0 || pos >= paths.len() {
        None
    } else if present(paths[pos]) {
        Some(paths[pos])
    } else {
        first_existing(paths, present, pos + 1)
    }
}

/// The outcome of the index search from position `pos`.
pub open spec fn index_outcome(
    cfg: StaticConfig,
    present: spec_fn(Seq<char>) -> bool,
    readable: spec_fn(Seq<char>) -> bool,
    pos: int,
) -> Outcome {
    match first_existing(index_paths(cfg), present, pos) {
        Some(p) => if readable(p) {
            Outcome::Serve(p)
        } else {
            Outcome::NotFound
        },
        None => Outcome::NotFound,
    }
}

/// How a request for `uri` ends on a filesystem where `present` and
/// `readable` tell which paths exist and which can be read.
pub open spec fn resolve(
    cfg: StaticConfig,
    uri: Seq<char>,
    present: spec_fn(Seq<char>) -> bool,
    readable: spec_fn(Seq<char>) -> bool,
) -> Outcome {
    let rel = trim_slashes(uri);
    if !cfg.enabled {
        Outcome::NotFound
    } else if rel.len() == 0 {
        index_outcome(cfg, present, readable, 0)
    } else if escapes_root(rel) {
        Outcome::Forbidden
    } else if readable(join_path(cfg.root@, rel)) {
        Outcome::Serve(join_path(cfg.root@, rel))
    } else if spa_route(rel) {
        index_outcome(cfg, present, readable, 0)
    } else {
        Outcome::NotFound
    }
}

/// Runs the steps from `(phase, step)` on a filesystem where `present` and
/// `readable` tell which paths exist and which can be read, taking at most
/// `fuel` probes and failed reads.
pub open spec fn drive(
    cfg: StaticConfig,
    uri: Seq<char>,
    phase: Phase,
    step: StepView,
    present: spec_fn(Seq<char>) -> bool,
    readable: spec_fn(Seq<char>) -> bool,
    fuel: nat,
) -> Outcome
    decreases fuel,
{
    match step {
        StepView::NotFound => Outcome::NotFound,
        StepView::Forbidden => Outcome::Forbidden,
        StepView::Probe(p) => if fuel == 0 {
            Outcome::NotFound
        } else {
            let next = spec_after_probe(cfg, phase, present(p));
            drive(cfg, uri, next.0, next.1, present, readable, (fuel - 1) as nat)
        },
        StepView::Read(p) => if readable(p) {
            Outcome::Serve(p)
        } else if fuel == 0 {
            Outcome::NotFound
        } else {
            let next = spec_after_read_failure(cfg, uri, phase);
            drive(cfg, uri, next.0, next.1, present, readable, (fuel - 1) as nat)
        },
    }
}

proof fn lemma_drive_index_search(
    cfg: StaticConfig,
    uri: Seq<char>,
    present: spec_fn(Seq<char>) -> bool,
    readable: spec_fn(Seq<char>) -> bool,
    pos: int,
    fuel: nat,
)
    requires
        0 <= pos,
        fuel >= cfg.index_files@.len() - pos + 1,
        cfg.index_files@.len() <= usize::MAX,
    ensures
        drive(cfg, uri, spec_probe_from(cfg, pos).0, spec_probe_from(cfg, pos).1, present, readable, fuel)
            == index_outcome(cfg, present, readable, pos),
    decreases cfg.index_files@.len() - pos,
{
    reveal_with_fuel(drive, 3);
    let paths = index_paths(cfg);
    if pos < cfg.index_files@.len() {
        let p = paths[pos];
        if present(p) {
            let next = spec_after_probe(cfg, Phase::Probe { pos: pos as usize }, true);
            assert(next.1 == StepView::Read(p));
            if !readable(p) {
                assert(spec_after_read_failure(cfg, uri, Phase::IndexRead).1 == StepView::NotFound);
            }
        } else {
            lemma_drive_index_search(cfg, uri, present, readable, pos + 1, (fuel - 1) as nat);
        }
    }
}

/// Driving the resolver's steps with truthful answers ends in `resolve`'s
/// outcome after at most one probe per index file and two reads: the index
/// search runs at most once, and a failed read of an index file is final.
pub proof fn lemma_steps_reach_outcome(
    cfg: StaticConfig,
    uri: Seq<char>,
    present: spec_fn(Seq<char>) -> bool,
    readable: spec_fn(Seq<char>) -> bool,
    fuel: nat,
)
    requires
        fuel >= cfg.index_files@.len() + 2,
        cfg.index_files@.len() <= usize::MAX,
    ensures
        drive(cfg, uri, spec_begin(cfg, uri).0, spec_begin(cfg, uri).1, present, readable, fuel)
            == resolve(cfg, uri, present, readable),
{
    reveal_with_fuel(drive, 2);
    let rel = trim_slashes(uri);
    if cfg.enabled {
        if rel.len() == 0 {
            lemma_drive_index_search(cfg, uri, present, readable, 0, fuel);
        } else if !escapes_root(rel) && !readable(join_path(cfg.root@, rel)) && spa_route(rel) {
            lemma_drive_index_search(cfg, uri, present, readable, 0, (fuel - 1) as nat);
        }
    }
}

/// A path that escapes the root is refused before any file is read.
pub proof fn lemma_escaping_path_forbidden(
    cfg: StaticConfig,
    uri: Seq<char>,
    present: spec_fn(Seq<char>) -> bool,
    readable: spec_fn(Seq<char>) -> bool,
)
    requires
        cfg.enabled,
        escapes_root(trim_slashes(uri)),
    ensures
        spec_begin(cfg, uri).1 == StepView::Forbidden,
        resolve(cfg, uri, present, readable) == Outcome::Forbidden,
{
}

proof fn lemma_first_existing(paths: Seq<Seq<char>>, present: spec_fn(Seq<char>) -> bool, pos: int)
    requires
        0 <= pos,
    ensures
        first_existing(paths, present, pos) is None ==> forall|k: int|
            pos <= k < paths.len() ==> !present(#[trigger] paths[k]),
        first_existing(paths, present, pos) is Some ==> exists|k: int|
            pos <= k < paths.len() && first_existing(paths, present, pos) == Some(paths[k])
                && present(paths[k]) && forall|j: int| pos <= j < k ==> !present(#[trigger] paths[j]),
    decreases paths.len() - pos,
{
    if pos < paths.len() && !present(paths[pos]) {
        lemma_first_existing(paths, present, pos + 1);
        if first_existing(paths, present, pos + 1) is Some {
            let k = choose|k: int|
                pos + 1 <= k < paths.len() && first_existing(paths, present, pos + 1) == Some(
                    paths[k],
                ) && present(paths[k]) && forall|j: int|
                    pos + 1 <= j < k ==> !present(#[trigger] paths[j]);
            assert(forall|j: int| pos <= j < k ==> !present(#[trigger] paths[j]));
        }
    }
}

/// A request for the empty path serves the first index file, in configured
/// order, that exists (when it can be read), and nothing when none exists.
pub proof fn lemma_empty_path_first_index(
    cfg: StaticConfig,
    uri: Seq<char>,
    present: spec_fn(Seq<char>) -> bool,
    readable: spec_fn(Seq<char>) -> bool,
)
    requires
        cfg.enabled,
        trim_slashes(uri).len() == 0,
    ensures
        (forall|k: int| 0 <= k < cfg.index_files@.len() ==> !present(#[trigger] index_paths(cfg)[k]))
            ==> resolve(cfg, uri, present, readable) == Outcome::NotFound,
        resolve(cfg, uri, present, readable) is Serve ==> exists|k: int|
            0 <= k < cfg.index_files@.len() && resolve(cfg, uri, present, readable) == Outcome::Serve(
                index_paths(cfg)[k],
            ) && present(index_paths(cfg)[k]) && forall|j: int|
                0 <= j < k ==> !present(#[trigger] index_paths(cfg)[j]),
{
    lemma_first_existing(index_paths(cfg), present, 0);
    if first_existing(index_paths(cfg), present, 0) is None {
        assert forall|k: int| 0 <= k < cfg.index_files@.len() implies !present(
            #[trigger] index_paths(cfg)[k],
        ) by {
        }
    }
}

/// A path that names no readable file falls back to the index search when
/// its last segment has no `.`, and is not found otherwise; a failed read
/// of the index file that the fallback found is final.
pub proof fn lemma_route_fallback(
    cfg: StaticConfig,
    uri: Seq<char>,
    present: spec_fn(Seq<char>) -> bool,
    readable: spec_fn(Seq<char>) -> bool,
)
    requires
        cfg.enabled,
        trim_slashes(uri).len() > 0,
        !escapes_root(trim_slashes(uri)),
        !readable(join_path(cfg.root@, trim_slashes(uri))),
    ensures
        spa_route(trim_slashes(uri)) ==> resolve(cfg, uri, present, readable) == index_outcome(
            cfg,
            present,
            readable,
            0,
        ),
        spa_route(trim_slashes(uri)) ==> spec_after_read_failure(cfg, uri, Phase::Direct)
            == spec_probe_from(cfg, 0),
        !spa_route(trim_slashes(uri)) ==> resolve(cfg, uri, present, readable) == Outcome::NotFound,
        spec_after_read_failure(cfg, uri, Phase::IndexRead) == (Phase::Done, StepView::NotFound),
{
}

/// The only files a resolution ever probes or reads: the requested path
/// joined onto the root, when it does not escape the root, and the
/// configured index files joined onto the root.
pub open spec fn allowed_target(cfg: StaticConfig, uri: Seq<char>, p: Seq<char>) -> bool {
    (p == join_path(cfg.root@, trim_slashes(uri)) && !escapes_root(trim_slashes(uri)))
        || exists|k: int| 0 <= k < cfg.index_files@.len() && p == #[trigger] index_paths(cfg)[k]
}

/// `p` is the root joined with a relative path that neither is absolute nor
/// climbs with `..`.
pub open spec fn under_root(root: Seq<char>, p: Seq<char>) -> bool {
    exists|x: Seq<char>| !escapes_root(x) && p == #[trigger] join_path(root, x)
}

pub open spec fn step_allowed(cfg: StaticConfig, uri: Seq<char>, step: StepView) -> bool {
    match step {
        StepView::Probe(p) => allowed_target(cfg, uri, p) && under_root(cfg.root@, p),
        StepView::Read(p) => allowed_target(cfg, uri, p) && under_root(cfg.root@, p),
        _ => true,
    }
}

proof fn lemma_index_under_root(cfg: StaticConfig, k: int)
    requires
        index_names_contained(cfg),
        0 <= k < cfg.index_files@.len(),
    ensures
        under_root(cfg.root@, index_paths(cfg)[k]),
{
    let x = cfg.index_files@[k]@;
    assert(!escapes_root(x));
    assert(index_paths(cfg)[k] == join_path(cfg.root@, x));
}

/// With index file names that pass configuration validation, every step
/// of a resolution touches only the requested file or a configured index
/// file, and each of them lies under the static root.
pub proof fn lemma_steps_stay_under_root(
    cfg: StaticConfig,
    uri: Seq<char>,
    phase: Phase,
    found: bool,
)
    requires
        index_names_contained(cfg),
    ensures
        step_allowed(cfg, uri, spec_begin(cfg, uri).1),
        step_allowed(cfg, uri, spec_after_probe(cfg, phase, found).1),
        step_allowed(cfg, uri, spec_after_read_failure(cfg, uri, phase).1),
{
    let rel = trim_slashes(uri);
    if !escapes_root(rel) {
        assert(under_root(cfg.root@, join_path(cfg.root@, rel)));
    }
    let first = spec_probe_from(cfg, 0);
    if 0 < cfg.index_files@.len() {
        lemma_index_under_root(cfg, 0);
        assert(first.1 == StepView::Probe(index_paths(cfg)[0]));
    }
    if let Phase::Probe { pos } = phase {
        if found && pos < cfg.index_files@.len() {
            lemma_index_under_root(cfg, pos as int);
            assert(step_allowed(cfg, uri, StepView::Read(index_paths(cfg)[pos as int])));
        } else if pos + 1 < cfg.index_files@.len() {
            lemma_index_under_root(cfg, pos + 1);
            assert(step_allowed(cfg, uri, StepView::Probe(index_paths(cfg)[pos + 1])));
        }
    }
}

/// One response header.
#[derive(Debug, Clone)]
pub struct Header {
    pub name: String,
    pub value: String,
}

/// The names and values of `hs`, in order.
pub open spec fn headers_view(hs: Seq<Header>) -> Seq<(Seq<char>, Seq<char>)> {
    hs.map_values(|h: Header| (h.name@, h.value@))
}

fn header(name: &str, value: &str) -> (r: Header)
    ensures
        r.name@ == name@,
        r.value@ == value@,
{
    Header { name: String::from_str(name), value: String::from_str(value) }
}

/// The headers of a served static file with type `mime` and entity tag
/// `etag`: its content type, its entity tag when tags are enabled, the
/// configured cache policy, and the security headers when they are enabled.
pub open spec fn spec_file_headers(
    st: StaticConfig,
    sec: SecurityConfig,
    mime: Seq<char>,
    etag: Seq<char>,
) -> Seq<(Seq<char>, Seq<char>)> {
    seq![("content-type"@, mime)] + (if st.etag {
        seq![("etag"@, etag)]
    } else {
        Seq::empty()
    }) + seq![("cache-control"@, st.cache_control@)] + (if sec.security_headers {
        seq![("x-content-type-options"@, "nosniff"@), ("x-frame-options"@, sec.frame_options@)]
            + (if sec.xss_protection {
            seq![("x-xss-protection"@, "1; mode=block"@)]
        } else {
            Seq::empty()
        })
    } else {
        Seq::empty()
    })
}

/// The headers of a served static file, given its MIME type and entity tag.
pub fn file_headers(st: &StaticConfig, sec: &SecurityConfig, mime: &str, etag: &str) -> (r: Vec<
    Header,
>)
    ensures
        headers_view(r@) == spec_file_headers(*st, *sec, mime@, etag@),
{
    let mut hs: Vec<Header> = Vec::new();
    hs.push(header("content-type", mime));
    if st.etag {
        hs.push(header("etag", etag));
    }
    hs.push(header("cache-control", st.cache_control.as_str()));
    if sec.security_headers {
        hs.push(header("x-content-type-options", "nosniff"));
        hs.push(header("x-frame-options", sec.frame_options.as_str()));
        if sec.xss_protection {
            hs.push(header("x-xss-protection", "1; mode=block"));
        }
    }
    assert(headers_view(hs@) =~= spec_file_headers(*st, *sec, mime@, etag@));
    hs
}

/// The entity tag of a static file: the decimal digest of its whole
/// content, in double quotes.
pub open spec fn content_etag(contents: Seq<u8>) -> Seq<char> {
    quoted(radix_digits(content_hash(contents) as nat, 10))
}

pub fn generate_etag(contents: &[u8]) -> (r: String)
    ensures
        r@ == content_etag(contents@),
{
    let h = hash_bytes(contents);
    let digits = decimal(h);
    quote(digits.as_str())
}

/// The headers for serving the file at `path` with content `contents`; the
/// entity tag is computed only when tags are enabled.
pub fn serve_file_headers(
    st: &StaticConfig,
    sec: &SecurityConfig,
    path: &str,
    contents: &[u8],
) -> (r: Vec<Header>)
    ensures
        headers_view(r@) == spec_file_headers(
            *st,
            *sec,
            guessed_mime(path@),
            if st.etag {
                content_etag(contents@)
            } else {
                Seq::empty()
            },
        ),
{
    let mime = mime_for_path(path);
    let etag = if st.etag {
        generate_etag(contents)
    } else {
        String::new()
    };
    file_headers(st, sec, mime.as_str(), etag.as_str())
}

/// A small HTML page sent with an error status.
#[derive(Debug, Clone)]
pub struct StatusPage {
    pub status: u16,
    pub content_type: String,
    pub body: String,
}

pub fn not_found_response() -> (r: StatusPage)
    ensures
        r.status == 404,
        r.content_type@ == "text/html"@,
        r.body@ == "<h1>404 Not Found</h1><p>The requested resource was not found.</p>"@,
{
    StatusPage {
        status: 404,
        content_type: String::from_str("text/html"),
        body: String::from_str("<h1>404 Not Found</h1><p>The requested resource was not found.</p>"),
    }
}

pub fn forbidden_response() -> (r: StatusPage)
    ensures
        r.status == 403,
        r.content_type@ == "text/html"@,
        r.body@ == "<h1>403 Forbidden</h1><p>Access denied.</p>"@,
{
    StatusPage {
        status: 403,
        content_type: String::from_str("text/html"),
        body: String::from_str("<h1>403 Forbidden</h1><p>Access denied.</p>"),
    }
}

} // verus!
