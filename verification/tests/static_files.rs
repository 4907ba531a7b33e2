use std::io::Read;

use staticfiles::cors::CorsPolicy;
use staticfiles::listing::DirEntry;
use staticfiles::pipeline::{respond, target_path, FsView, NodeKind, Pipeline, PipelineRequest, PipelineResponse};
use staticfiles::{DirProbe, StartupError, StaticFiles, StaticFilesOptions};

fn b(s: &str) -> Vec<u8> {
    s.as_bytes().to_vec()
}

fn opts(cors: &str, listing: bool) -> StaticFilesOptions {
    StaticFilesOptions {
        root_dir: b("/srv/root"),
        assets_dir: b("/srv/root/assets"),
        page_50x_path: b("/srv/pages/50x.html"),
        page_404_path: b("/srv/pages/404.html"),
        cors_allow_origins: b(cors),
        directory_listing: listing,
    }
}

fn make_pipeline(cors: &str, listing: bool) -> Pipeline {
    let sf = StaticFiles::new(opts(cors, listing));
    let root = Some(DirProbe { canonical: b("/srv/root"), is_dir: true });
    let assets = Some(DirProbe { canonical: b("/srv/root/assets"), is_dir: true });
    sf.handle(&root, &assets).ok().unwrap()
}

fn req(path: &str, origin: Option<&str>) -> PipelineRequest {
    PipelineRequest { method: b("GET"), path: b(path), origin: origin.map(b) }
}

fn fsv(node: NodeKind, index_node: NodeKind, content: Option<Vec<u8>>) -> FsView {
    FsView { node, index_node, content, entries: Vec::new(), page_404: None, page_50x: None }
}

fn header<'a>(resp: &'a PipelineResponse, name: &str) -> Option<&'a [u8]> {
    for h in &resp.headers {
        if h.name == name.as_bytes() {
            return Some(&h.value);
        }
    }
    None
}

fn gunzip(data: &[u8]) -> Vec<u8> {
    let mut out = Vec::new();
    flate2::read::GzDecoder::new(data).read_to_end(&mut out).unwrap();
    out
}

#[test]
fn startup_succeeds_on_valid_directories() {
    let p = make_pipeline("", false);
    assert_eq!(p.roots.canonical_root, b("/srv/root"));
    assert_eq!(p.roots.canonical_assets, b("/srv/root/assets"));
    assert_eq!(p.roots.assets_basename, b("assets"));
    assert_eq!(p.cache_default.max_age_secs, 86400);
    assert_eq!(p.cache_assets.max_age_secs, 31536000);
    assert_eq!(p.default_type, b("text/html"));
    assert!(matches!(p.cors, CorsPolicy::Disabled));
}

#[test]
fn startup_aborts_on_invalid_directories() {
    let sf = StaticFiles::new(opts("", false));
    let good = Some(DirProbe { canonical: b("/srv/root"), is_dir: true });
    let not_dir = Some(DirProbe { canonical: b("/srv/root"), is_dir: false });
    assert!(matches!(sf.handle(&None, &good), Err(StartupError::InvalidRootDir)));
    assert!(matches!(sf.handle(&not_dir, &good), Err(StartupError::InvalidRootDir)));
    assert!(matches!(sf.handle(&good, &None), Err(StartupError::InvalidAssetsDir)));
    assert!(matches!(sf.handle(&good, &not_dir), Err(StartupError::InvalidAssetsDir)));
    let slash = Some(DirProbe { canonical: b("/"), is_dir: true });
    assert!(matches!(sf.handle(&good, &slash), Err(StartupError::InvalidAssetsName)));
}

#[test]
fn startup_strips_verbatim_prefix() {
    let sf = StaticFiles::new(opts("", false));
    let root = Some(DirProbe { canonical: b("\\\\?\\/srv/root"), is_dir: true });
    let assets = Some(DirProbe { canonical: b("/srv/root/assets"), is_dir: true });
    let p = sf.handle(&root, &assets).ok().unwrap();
    assert_eq!(p.roots.canonical_root, b("/srv/root"));
}

#[test]
fn target_path_resolves_under_root() {
    let p = make_pipeline("", false);
    let t = target_path(&p, &req("/a/./b/../c.txt", None));
    assert_eq!(t, Some(b("/srv/root/a/c.txt")));
    let esc = target_path(&p, &req("/../etc/passwd", None));
    assert_eq!(esc, None);
}

#[test]
fn escaping_path_gets_404_not_500() {
    let p = make_pipeline("", false);
    let fs = fsv(NodeKind::FileNode, NodeKind::MissingNode, Some(b("secret")));
    let r = respond(&p, &req("/../../etc/passwd", None), &fs);
    assert_eq!(r.status, 404);
    assert_eq!(r.body, b("Not Found"));
    assert_eq!(header(&r, "Content-Type"), Some(b("text/html").as_slice()));
    assert_eq!(header(&r, "Content-Length"), Some(b("9").as_slice()));
    assert_eq!(header(&r, "Cache-Control"), None);
}

#[test]
fn dotdot_inside_root_is_served() {
    let p = make_pipeline("", false);
    let fs = fsv(NodeKind::FileNode, NodeKind::MissingNode, Some(b("{\"k\":1}")));
    let r = respond(&p, &req("/a/../data.json", None), &fs);
    assert_eq!(r.status, 200);
    assert_eq!(r.body, b("{\"k\":1}"));
    assert_eq!(header(&r, "Content-Type"), Some(b("application/json").as_slice()));
}

#[test]
fn assets_prefix_gets_one_year_cache() {
    let p = make_pipeline("", false);
    let fs = fsv(NodeKind::FileNode, NodeKind::MissingNode, Some(b("body{}")));
    let r = respond(&p, &req("/assets/app.css", None), &fs);
    assert_eq!(r.status, 200);
    assert_eq!(header(&r, "Cache-Control"), Some(b("max-age=31536000").as_slice()));
}

#[test]
fn other_success_gets_one_day_cache() {
    let p = make_pipeline("", false);
    let fs = fsv(NodeKind::FileNode, NodeKind::MissingNode, Some(b("<p>hi</p>")));
    let r = respond(&p, &req("/index.html", None), &fs);
    assert_eq!(r.status, 200);
    assert_eq!(header(&r, "Cache-Control"), Some(b("max-age=86400").as_slice()));
}

#[test]
fn resolvable_extension_gets_table_type() {
    let p = make_pipeline("", false);
    let fs = fsv(NodeKind::FileNode, NodeKind::MissingNode, Some(b("body{}")));
    let r = respond(&p, &req("/style.css", None), &fs);
    assert_eq!(header(&r, "Content-Type"), Some(b("text/css").as_slice()));
}

#[test]
fn unresolvable_extension_gets_default_type() {
    let p = make_pipeline("", false);
    let fs = fsv(NodeKind::FileNode, NodeKind::MissingNode, Some(b("x")));
    let r = respond(&p, &req("/file.zyxw", None), &fs);
    assert_eq!(header(&r, "Content-Type"), Some(b("text/html").as_slice()));
}

#[test]
fn compressible_body_is_gzip_encoded() {
    let p = make_pipeline("", false);
    let fs = fsv(NodeKind::FileNode, NodeKind::MissingNode, Some(b("body { color: red; }")));
    let r = respond(&p, &req("/style.css", None), &fs);
    assert_eq!(r.status, 200);
    assert_eq!(header(&r, "Content-Encoding"), Some(b("gzip").as_slice()));
    assert_ne!(r.body, b("body { color: red; }"));
    assert_eq!(gunzip(&r.body), b("body { color: red; }"));
    let n: usize = String::from_utf8(header(&r, "Content-Length").unwrap().to_vec())
        .unwrap()
        .parse()
        .unwrap();
    assert_eq!(n, r.body.len());
}

#[test]
fn non_compressible_body_stays_plain() {
    let p = make_pipeline("", false);
    let fs = fsv(NodeKind::FileNode, NodeKind::MissingNode, Some(b("{\"a\":true}")));
    let r = respond(&p, &req("/data.json", None), &fs);
    assert_eq!(r.status, 200);
    assert_eq!(header(&r, "Content-Encoding"), None);
    assert_eq!(r.body, b("{\"a\":true}"));
}

#[test]
fn allow_any_sets_star_on_every_response() {
    let p = make_pipeline("*", false);
    let ok = respond(&p, &req("/index.html", None), &fsv(NodeKind::FileNode, NodeKind::MissingNode, Some(b("x"))));
    assert_eq!(header(&ok, "Access-Control-Allow-Origin"), Some(b("*").as_slice()));
    let miss = respond(&p, &req("/gone", None), &fsv(NodeKind::MissingNode, NodeKind::MissingNode, None));
    assert_eq!(header(&miss, "Access-Control-Allow-Origin"), Some(b("*").as_slice()));
}

#[test]
fn whitelist_echoes_member_origin() {
    let p = make_pipeline("a.com, b.com", false);
    let fs = fsv(NodeKind::FileNode, NodeKind::MissingNode, Some(b("x")));
    let r = respond(&p, &req("/index.html", Some("a.com")), &fs);
    assert_eq!(header(&r, "Access-Control-Allow-Origin"), Some(b("a.com").as_slice()));
}

#[test]
fn whitelist_omits_unknown_origin() {
    let p = make_pipeline("a.com, b.com", false);
    let fs = fsv(NodeKind::FileNode, NodeKind::MissingNode, Some(b("x")));
    let r = respond(&p, &req("/index.html", Some("c.com")), &fs);
    assert_eq!(header(&r, "Access-Control-Allow-Origin"), None);
    let no_origin = respond(&p, &req("/index.html", None), &fs);
    assert_eq!(header(&no_origin, "Access-Control-Allow-Origin"), None);
}

#[test]
fn whitelist_is_trimmed_and_deduplicated() {
    let p = make_pipeline("a.com, a.com ,b.com", false);
    match &p.cors {
        CorsPolicy::Whitelist(w) => {
            assert_eq!(w.len(), 2);
            assert_eq!(w[0], b("a.com"));
            assert_eq!(w[1], b("b.com"));
        }
        _ => panic!("expected a whitelist"),
    }
}

#[test]
fn missing_file_serves_configured_404_page() {
    let p = make_pipeline("", false);
    let mut fs = fsv(NodeKind::MissingNode, NodeKind::MissingNode, None);
    fs.page_404 = Some(b("NOT FOUND"));
    let r = respond(&p, &req("/no-such-file", None), &fs);
    assert_eq!(r.status, 404);
    assert_eq!(r.body, b("NOT FOUND"));
    assert_eq!(header(&r, "Content-Length"), Some(b("9").as_slice()));
}

#[test]
fn read_error_serves_configured_50x_page() {
    let p = make_pipeline("", false);
    let mut fs = fsv(NodeKind::FileNode, NodeKind::MissingNode, None);
    fs.page_50x = Some(b("oops"));
    let r = respond(&p, &req("/locked.txt", None), &fs);
    assert_eq!(r.status, 500);
    assert_eq!(r.body, b("oops"));
}

#[test]
fn error_node_gives_500_fallback_body() {
    let p = make_pipeline("", false);
    let fs = fsv(NodeKind::ErrorNode, NodeKind::MissingNode, None);
    let r = respond(&p, &req("/denied", None), &fs);
    assert_eq!(r.status, 500);
    assert_eq!(r.body, b("Server Error"));
}

#[test]
fn error_page_keeps_cors_header() {
    let p = make_pipeline("*", false);
    let mut fs = fsv(NodeKind::MissingNode, NodeKind::MissingNode, None);
    fs.page_404 = Some(b("NOT FOUND"));
    let r = respond(&p, &req("/gone", None), &fs);
    assert_eq!(r.status, 404);
    assert_eq!(header(&r, "Access-Control-Allow-Origin"), Some(b("*").as_slice()));
    assert_eq!(r.body, b("NOT FOUND"));
}

#[test]
fn directory_with_index_serves_index() {
    let p = make_pipeline("", false);
    let fs = fsv(NodeKind::DirNode, NodeKind::FileNode, Some(b("<h1>welcome</h1>")));
    let r = respond(&p, &req("/docs", None), &fs);
    assert_eq!(r.status, 200);
    assert_eq!(header(&r, "Content-Type"), Some(b("text/html").as_slice()));
    assert_eq!(gunzip(&r.body), b("<h1>welcome</h1>"));
}

#[test]
fn bare_directory_without_listing_is_404() {
    let p = make_pipeline("", false);
    let fs = fsv(NodeKind::DirNode, NodeKind::MissingNode, None);
    let r = respond(&p, &req("/docs", None), &fs);
    assert_eq!(r.status, 404);
}

#[test]
fn bare_directory_with_listing_renders_entries() {
    let p = make_pipeline("", true);
    let mut fs = fsv(NodeKind::DirNode, NodeKind::MissingNode, None);
    fs.entries.push(DirEntry { name: b("a.txt"), is_dir: false });
    fs.entries.push(DirEntry { name: b("sub"), is_dir: true });
    let r = respond(&p, &req("/docs", None), &fs);
    assert_eq!(r.status, 200);
    let expected = "<html><body><ul><li><a href=\"a.txt\">a.txt</a></li><li><a href=\"sub/\">sub/</a></li></ul></body></html>";
    assert_eq!(gunzip(&r.body), b(expected));
    assert_eq!(header(&r, "Content-Type"), Some(b("text/html").as_slice()));
}

#[test]
fn empty_directory_listing_is_empty_list() {
    let p = make_pipeline("", true);
    let fs = fsv(NodeKind::DirNode, NodeKind::MissingNode, None);
    let r = respond(&p, &req("/docs", None), &fs);
    assert_eq!(r.status, 200);
    assert_eq!(gunzip(&r.body), b("<html><body><ul></ul></body></html>"));
}

#[test]
fn identical_requests_get_identical_responses() {
    let p = make_pipeline("a.com,b.com", true);
    let make_fs = || fsv(NodeKind::FileNode, NodeKind::MissingNode, Some(b("body { margin: 0; }")));
    let r1 = respond(&p, &req("/assets/site.css", Some("b.com")), &make_fs());
    let r2 = respond(&p, &req("/assets/site.css", Some("b.com")), &make_fs());
    assert_eq!(r1.status, r2.status);
    assert_eq!(r1.body, r2.body);
    assert_eq!(r1.headers.len(), r2.headers.len());
    for (h1, h2) in r1.headers.iter().zip(r2.headers.iter()) {
        assert_eq!(h1.name, h2.name);
        assert_eq!(h1.value, h2.value);
    }
}

#[test]
fn empty_path_is_the_root_itself() {
    let p = make_pipeline("", false);
    assert_eq!(target_path(&p, &req("", None)), Some(b("/srv/root")));
}

#[test]
fn repeated_slashes_and_dots_collapse() {
    let p = make_pipeline("", false);
    assert_eq!(target_path(&p, &req("//a///./b.txt", None)), Some(b("/srv/root/a/b.txt")));
}

#[test]
fn root_request_with_index_file() {
    let p = make_pipeline("", false);
    let fs = fsv(NodeKind::DirNode, NodeKind::FileNode, Some(b("home")));
    let r = respond(&p, &req("/", None), &fs);
    assert_eq!(r.status, 200);
    assert_eq!(header(&r, "Cache-Control"), Some(b("max-age=86400").as_slice()));
    assert_eq!(gunzip(&r.body), b("home"));
}
