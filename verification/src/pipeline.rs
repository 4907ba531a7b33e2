use vstd::prelude::*;

use crate::ascii::{
    fallback_not_found, fallback_server_error, hdr_allow_origin, hdr_cache_control,
    hdr_content_encoding, hdr_content_length, hdr_content_type, index_html, spec_fallback_not_found,
    spec_fallback_server_error, spec_hdr_allow_origin, spec_hdr_cache_control,
    spec_hdr_content_encoding, spec_hdr_content_length, spec_hdr_content_type, spec_index_html,
    spec_val_gzip, spec_val_max_age_prefix, val_gzip, val_max_age_prefix,
};
use crate::content_type::{content_type_for, is_compressible, spec_compressible, spec_content_type};
use crate::cors::{cors_header_for, opt_view, spec_cors_header, CorsPolicy};
use crate::gzip::{gzip_bytes, gzip_of};
use crate::listing::{entries_view, render_listing, spec_listing, DirEntry};
use crate::paths::{
    extension_of, join_under_root, normalize_segments, spec_ext, spec_normalize,
    spec_resolve, spec_slash, spec_split, split_segments, views_of,
};
use crate::util::{bytes_eq, push_dec, spec_dec};

verus! {

/// The kind of file-system node a path points at, as the surrounding server
/// observed it: a regular file, a directory, nothing, or a node whose
/// inspection failed with an error other than not-found.
#[derive(Clone, Copy, PartialEq, Eq, Structural)]
pub enum NodeKind {
    FileNode,
    DirNode,
    MissingNode,
    ErrorNode,
}

/// What the surrounding server observed of the file system for one request:
/// the node at the resolved target, the node at the target's index file, the
/// bytes of whichever file is being served (`None` when reading failed), the
/// target's children for a listing, and the configured error pages (`None`
/// when missing or unreadable).
pub struct FsView {
    pub node: NodeKind,
    pub index_node: NodeKind,
    pub content: Option<Vec<u8>>,
    pub entries: Vec<DirEntry>,
    pub page_404: Option<Vec<u8>>,
    pub page_50x: Option<Vec<u8>>,
}

/// A cache policy: the lifetime a response may be cached for.
pub struct CacheDirective {
    pub max_age_secs: u64,
}

/// The canonical directories everything is anchored to, and the token used
/// for cache-policy matching.
pub struct ResolvedRoots {
    pub canonical_root: Vec<u8>,
    pub canonical_assets: Vec<u8>,
    pub assets_basename: Vec<u8>,
}

/// The immutable request pipeline, composed once at startup.
pub struct Pipeline {
    pub roots: ResolvedRoots,
    pub cors: CorsPolicy,
    pub cache_default: CacheDirective,
    pub cache_assets: CacheDirective,
    pub default_type: Vec<u8>,
    pub page_404_path: Vec<u8>,
    pub page_50x_path: Vec<u8>,
    pub directory_listing: bool,
}

/// One inbound request: method, path and the origin header when present.
pub struct PipelineRequest {
    pub method: Vec<u8>,
    pub path: Vec<u8>,
    pub origin: Option<Vec<u8>>,
}

/// One response header.
pub struct Header {
    pub name: Vec<u8>,
    pub value: Vec<u8>,
}

/// One outbound response.
pub struct PipelineResponse {
    pub status: u16,
    pub headers: Vec<Header>,
    pub body: Vec<u8>,
}

/// The mathematical shape of a response: its status, its headers as pairs
/// of byte sequences in order, and its body bytes.
#[verifier::ext_equal]
pub ghost struct RespV {
    pub status: u16,
    pub headers: Seq<(Seq<u8>, Seq<u8>)>,
    pub body: Seq<u8>,
}

impl View for PipelineResponse {
    type V = RespV;

    open spec fn view(&self) -> RespV {
        RespV {
            status: self.status,
            headers: self.headers@.map_values(|h: Header| (h.name@, h.value@)),
            body: self.body@,
        }
    }
}

/// Whether a status is a success.
pub open spec fn spec_is_2xx(status: u16) -> bool {
    200 <= status < 300
}

/// A `Cache-Control` value for a lifetime of `n` seconds.
pub open spec fn spec_cache_value(n: nat) -> Seq<u8> {
    spec_val_max_age_prefix() + spec_dec(n)
}

/// The value of the first header named `name`, when there is one.
pub open spec fn spec_find_header(headers: Seq<(Seq<u8>, Seq<u8>)>, name: Seq<u8>) -> Option<
    Seq<u8>,
>
    decreases headers.len(),
{
    if headers.len() == 0 {
        None
    } else if headers[0].0 == name {
        Some(headers[0].1)
    } else {
        spec_find_header(headers.drop_first(), name)
    }
}

/// The cache stage: a success is annotated with the assets lifetime when the
/// request's first segment names the assets directory, and with the default
/// lifetime otherwise; everything else passes unannotated.
pub open spec fn spec_cache_stage(
    r: RespV,
    assets_match: bool,
    default_secs: u64,
    assets_secs: u64,
) -> RespV {
    if spec_is_2xx(r.status) {
        (RespV {
            headers: r.headers.push(
                (
                    spec_hdr_cache_control(),
                    spec_cache_value(
                        if assets_match {
                            assets_secs as nat
                        } else {
                            default_secs as nat
                        },
                    ),
                ),
            ),
            ..r
        })
    } else {
        r
    }
}

/// The content-type stage: every response gets exactly one `Content-Type`.
pub open spec fn spec_ct_stage(r: RespV, ct: Seq<u8>) -> RespV {
    (RespV { headers: r.headers.push((spec_hdr_content_type(), ct)), ..r })
}

/// The compression stage: a success with a non-empty body of a compressible
/// type is gzip-encoded and marked so; everything else passes unchanged.
pub open spec fn spec_compress_stage(r: RespV) -> RespV {
    let ct = spec_find_header(r.headers, spec_hdr_content_type());
    if spec_is_2xx(r.status) && r.body.len() > 0 && (ct matches Some(c) && spec_compressible(c)) {
        (RespV {
            headers: r.headers.push((spec_hdr_content_encoding(), spec_val_gzip())),
            body: gzip_of(r.body),
            ..r
        })
    } else {
        r
    }
}

/// The cross-origin stage: the policy decides whether an
/// `Access-Control-Allow-Origin` value is owed, and which.
pub open spec fn spec_cors_stage(r: RespV, p: CorsPolicy, origin: Option<Seq<u8>>) -> RespV {
    match spec_cors_header(p, origin) {
        Some(v) => (RespV { headers: r.headers.push((spec_hdr_allow_origin(), v)), ..r }),
        None => r,
    }
}

/// The error-page stage: a 404 body is replaced by the configured not-found
/// page and a 500-class body by the configured server-error page, keeping
/// the status and every header; a missing page falls back to a built-in
/// message.
pub open spec fn spec_error_stage(
    r: RespV,
    page_404: Option<Seq<u8>>,
    page_50x: Option<Seq<u8>>,
) -> RespV {
    if r.status == 404 {
        (RespV {
            body: match page_404 {
                Some(b) => b,
                None => spec_fallback_not_found(),
            },
            ..r
        })
    } else if 500 <= r.status <= 599 {
        (RespV {
            body: match page_50x {
                Some(b) => b,
                None => spec_fallback_server_error(),
            },
            ..r
        })
    } else {
        r
    }
}

/// The final stage: the length of the body that is actually sent.
pub open spec fn spec_length_stage(r: RespV) -> RespV {
    (RespV { headers: r.headers.push((spec_hdr_content_length(), spec_dec(r.body.len()))), ..r })
}

/// Appends one header.
fn push_header(resp: &mut PipelineResponse, name: Vec<u8>, value: Vec<u8>)
    ensures
        final(resp)@ == (RespV { headers: old(resp)@.headers.push((name@, value@)), ..old(resp)@ }),
{
    let ghost n = name@;
    let ghost v = value@;
    resp.headers.push(Header { name, value });
    proof {
        assert(resp@.headers =~= old(resp)@.headers.push((n, v)));
        assert(resp@ =~= (RespV { headers: old(resp)@.headers.push((n, v)), ..old(resp)@ }));
    }
}

/// Attaches the cache policy owed to a success.
pub fn annotate_cache(
    resp: &mut PipelineResponse,
    assets_match: bool,
    default_secs: u64,
    assets_secs: u64,
)
    ensures
        final(resp)@ == spec_cache_stage(old(resp)@, assets_match, default_secs, assets_secs),
{
    if 200 <= resp.status && resp.status < 300 {
        let name = hdr_cache_control();
        let mut value = val_max_age_prefix();
        let secs: u64 = if assets_match {
            assets_secs
        } else {
            default_secs
        };
        push_dec(secs, &mut value);
        push_header(resp, name, value);
    }
}

/// Attaches the one `Content-Type` of the response.
pub fn set_content_type(resp: &mut PipelineResponse, ct: Vec<u8>)
    ensures
        final(resp)@ == spec_ct_stage(old(resp)@, ct@),
{
    let name = hdr_content_type();
    push_header(resp, name, ct);
}

/// Finds the value of the first header named `name`.
fn find_header(resp: &PipelineResponse, name: &Vec<u8>) -> (r: Option<Vec<u8>>)
    ensures
        opt_view(r) == spec_find_header(resp@.headers, name@),
{
    let mut i: usize = 0;
    proof {
        assert(resp@.headers.skip(0) =~= resp@.headers);
    }
    while i < resp.headers.len()
        invariant
            i <= resp.headers.len(),
            spec_find_header(resp@.headers, name@) == spec_find_header(
                resp@.headers.skip(i as int),
                name@,
            ),
        decreases resp.headers.len() - i,
    {
        proof {
            assert(resp@.headers.skip(i as int)[0] == resp@.headers[i as int]);
        }
        if bytes_eq(&resp.headers[i].name, name) {
            let v = crate::paths::clone_bytes(&resp.headers[i].value);
            return Some(v);
        }
        proof {
            assert(resp@.headers.skip(i as int).drop_first() =~= resp@.headers.skip(i + 1));
        }
        i += 1;
    }
    proof {
        assert(resp@.headers.skip(resp@.headers.len() as int).len() == 0);
    }
    None
}

/// Compresses an eligible success body, marking the encoding; anything else
/// passes unchanged.
pub fn compress_stage(resp: &mut PipelineResponse)
    ensures
        final(resp)@ == spec_compress_stage(old(resp)@),
{
    if !(200 <= resp.status && resp.status < 300) || resp.body.len() == 0 {
        return ;
    }
    let ct_name = hdr_content_type();
    let ct = find_header(resp, &ct_name);
    match ct {
        None => {},
        Some(c) => {
            if is_compressible(&c) {
                let compressed = gzip_bytes(&resp.body);
                resp.body = compressed;
                let name = hdr_content_encoding();
                let value = val_gzip();
                push_header(resp, name, value);
            }
        },
    }
}

/// Attaches the cross-origin header the policy owes the request.
pub fn cors_stage(resp: &mut PipelineResponse, policy: &CorsPolicy, origin: &Option<Vec<u8>>)
    ensures
        final(resp)@ == spec_cors_stage(old(resp)@, *policy, opt_view(*origin)),
{
    let h = cors_header_for(policy, origin);
    match h {
        Some(v) => {
            let name = hdr_allow_origin();
            push_header(resp, name, v);
        },
        None => {},
    }
}

/// Substitutes the configured error page for a failed response's body.
pub fn error_page_stage(
    resp: &mut PipelineResponse,
    page_404: &Option<Vec<u8>>,
    page_50x: &Option<Vec<u8>>,
)
    ensures
        final(resp)@ == spec_error_stage(old(resp)@, opt_view(*page_404), opt_view(*page_50x)),
{
    if resp.status == 404 {
        match page_404 {
            Some(b) => {
                resp.body = crate::paths::clone_bytes(b);
            },
            None => {
                resp.body = fallback_not_found();
            },
        }
    } else if 500 <= resp.status && resp.status <= 599 {
        match page_50x {
            Some(b) => {
                resp.body = crate::paths::clone_bytes(b);
            },
            None => {
                resp.body = fallback_server_error();
            },
        }
    }
}

/// Attaches the final `Content-Length`.
pub fn finalize_length(resp: &mut PipelineResponse)
    ensures
        final(resp)@ == spec_length_stage(old(resp)@),
{
    let name = hdr_content_length();
    let n: u64 = resp.body.len() as u64;
    let value = crate::util::dec_bytes(n);
    push_header(resp, name, value);
}

/// The path of a directory's index file.
pub open spec fn spec_index_path(t: Seq<u8>) -> Seq<u8> {
    t + seq![spec_slash()] + spec_index_html()
}

/// Builds the path of a directory's index file.
pub fn index_path(target: &Vec<u8>) -> (r: Vec<u8>)
    ensures
        r@ == spec_index_path(target@),
{
    let mut out = crate::paths::clone_bytes(target);
    out.push(47);
    let ih = index_html();
    crate::util::push_all(&ih, &mut out);
    proof {
        assert(out@ =~= spec_index_path(target@));
    }
    out
}

/// The regular file the lookup lands on, when it lands on one: the resolved
/// target itself, or the index file of a resolved directory that has one.
pub open spec fn spec_served_file(
    root: Seq<u8>,
    path: Seq<u8>,
    node: NodeKind,
    index_node: NodeKind,
) -> Option<Seq<u8>> {
    match spec_resolve(root, path) {
        None => None,
        Some(t) => match node {
            NodeKind::FileNode => Some(t),
            NodeKind::DirNode => if index_node is FileNode {
                Some(spec_index_path(t))
            } else {
                None
            },
            _ => None,
        },
    }
}

/// The bare response the lookup produces, before any stage runs: a request
/// that escapes the root or finds nothing is a 404; an inspection or read
/// failure is a 500; a file's bytes or a directory's index are served with
/// 200; a bare directory is listed when listing is enabled and is otherwise
/// a 404.
pub open spec fn spec_base(
    root: Seq<u8>,
    path: Seq<u8>,
    listing_on: bool,
    node: NodeKind,
    index_node: NodeKind,
    content: Option<Seq<u8>>,
    entries: Seq<(Seq<u8>, bool)>,
) -> RespV {
    match spec_resolve(root, path) {
        None => (RespV { status: 404, headers: seq![], body: seq![] }),
        Some(t) => match node {
            NodeKind::MissingNode => (RespV { status: 404, headers: seq![], body: seq![] }),
            NodeKind::ErrorNode => (RespV { status: 500, headers: seq![], body: seq![] }),
            NodeKind::FileNode => match content {
                Some(b) => (RespV { status: 200, headers: seq![], body: b }),
                None => (RespV { status: 500, headers: seq![], body: seq![] }),
            },
            NodeKind::DirNode => if index_node is FileNode {
                match content {
                    Some(b) => (RespV { status: 200, headers: seq![], body: b }),
                    None => (RespV { status: 500, headers: seq![], body: seq![] }),
                }
            } else if listing_on {
                (RespV { status: 200, headers: seq![], body: spec_listing(entries) })
            } else {
                (RespV { status: 404, headers: seq![], body: seq![] })
            },
        },
    }
}

/// Whether the request path's first resolved segment names the assets
/// directory.  The comparison is against the base name token alone.
pub open spec fn spec_assets_match(path: Seq<u8>, basename: Seq<u8>) -> bool {
    match spec_normalize(spec_split(path)) {
        Some(segs) => segs.len() > 0 && segs[0] == basename,
        None => false,
    }
}

/// The `Content-Type` the response is owed: the type table's answer for the
/// extension of a file served with 200, and the configured default for
/// everything else.
pub open spec fn spec_ct_of(
    root: Seq<u8>,
    path: Seq<u8>,
    listing_on: bool,
    node: NodeKind,
    index_node: NodeKind,
    content: Option<Seq<u8>>,
    entries: Seq<(Seq<u8>, bool)>,
    default: Seq<u8>,
) -> Seq<u8> {
    match spec_served_file(root, path, node, index_node) {
        Some(f) => if spec_base(root, path, listing_on, node, index_node, content, entries).status
            == 200 {
            spec_content_type(spec_ext(f), default)
        } else {
            default
        },
        None => default,
    }
}

/// The whole pipeline over plain values: the lookup's bare response, then
/// the cache, content-type, compression, cross-origin, error-page and
/// length stages, in that fixed order.
pub open spec fn spec_respond_parts(
    root: Seq<u8>,
    basename: Seq<u8>,
    cors: CorsPolicy,
    default_secs: u64,
    assets_secs: u64,
    default_type: Seq<u8>,
    listing_on: bool,
    path: Seq<u8>,
    origin: Option<Seq<u8>>,
    node: NodeKind,
    index_node: NodeKind,
    content: Option<Seq<u8>>,
    entries: Seq<(Seq<u8>, bool)>,
    page_404: Option<Seq<u8>>,
    page_50x: Option<Seq<u8>>,
) -> RespV {
    let base = spec_base(root, path, listing_on, node, index_node, content, entries);
    let r1 = spec_cache_stage(base, spec_assets_match(path, basename), default_secs, assets_secs);
    let r2 = spec_ct_stage(
        r1,
        spec_ct_of(root, path, listing_on, node, index_node, content, entries, default_type),
    );
    let r3 = spec_compress_stage(r2);
    let r4 = spec_cors_stage(r3, cors, origin);
    let r5 = spec_error_stage(r4, page_404, page_50x);
    spec_length_stage(r5)
}

/// The response the pipeline owes a request, given what the surrounding
/// server observed of the file system.
pub open spec fn spec_respond(p: &Pipeline, req: &PipelineRequest, fs: &FsView) -> RespV {
    spec_respond_parts(
        p.roots.canonical_root@,
        p.roots.assets_basename@,
        p.cors,
        p.cache_default.max_age_secs,
        p.cache_assets.max_age_secs,
        p.default_type@,
        p.directory_listing,
        req.path@,
        opt_view(req.origin),
        fs.node,
        fs.index_node,
        opt_view(fs.content),
        entries_view(fs.entries@),
        opt_view(fs.page_404),
        opt_view(fs.page_50x),
    )
}

/// The file-system path a request maps to, or nothing when the request
/// escapes the root.  The surrounding server inspects this path and reports
/// what it found through `FsView`.
pub fn target_path(p: &Pipeline, req: &PipelineRequest) -> (r: Option<Vec<u8>>)
    ensures
        match r {
            Some(t) => spec_resolve(p.roots.canonical_root@, req.path@) == Some(t@),
            None => spec_resolve(p.roots.canonical_root@, req.path@) is None,
        },
{
    crate::paths::resolve_under_root(&p.roots.canonical_root, &req.path)
}

/// Runs the whole pipeline for one request: every stage, in the fixed
/// order, every time.
pub fn respond(p: &Pipeline, req: &PipelineRequest, fs: &FsView) -> (r: PipelineResponse)
    ensures
        r@ == spec_respond(p, req, fs),
{
    let ghost root_v = p.roots.canonical_root@;
    let ghost path_v = req.path@;
    let segs = split_segments(&req.path);
    let norm_opt = normalize_segments(segs);
    let mut resp: PipelineResponse;
    let mut assets_match: bool = false;
    let mut served_ext: Option<Vec<u8>> = None;
    match norm_opt {
        None => {
            resp = PipelineResponse { status: 404, headers: Vec::new(), body: Vec::new() };
        },
        Some(norm) => {
            let target = join_under_root(&p.roots.canonical_root, &norm);
            proof {
                assert(spec_resolve(root_v, path_v) == Some(target@));
            }
            if norm.len() > 0 && bytes_eq(&norm[0], &p.roots.assets_basename) {
                assets_match = true;
            }
            proof {
                if norm.len() > 0 {
                    assert(views_of(norm@)[0] == norm@[0]@);
                }
                assert(assets_match == spec_assets_match(path_v, p.roots.assets_basename@));
            }
            match fs.node {
                NodeKind::MissingNode => {
                    resp = PipelineResponse { status: 404, headers: Vec::new(), body: Vec::new() };
                },
                NodeKind::ErrorNode => {
                    resp = PipelineResponse { status: 500, headers: Vec::new(), body: Vec::new() };
                },
                NodeKind::FileNode => {
                    match &fs.content {
                        Some(b) => {
                            let body = crate::paths::clone_bytes(b);
                            resp = PipelineResponse { status: 200, headers: Vec::new(), body };
                            served_ext = Some(extension_of(&target));
                        },
                        None => {
                            resp = PipelineResponse {
                                status: 500,
                                headers: Vec::new(),
                                body: Vec::new(),
                            };
                        },
                    }
                },
                NodeKind::DirNode => {
                    let has_index = match fs.index_node {
                        NodeKind::FileNode => true,
                        _ => false,
                    };
                    if has_index {
                        match &fs.content {
                            Some(b) => {
                                let body = crate::paths::clone_bytes(b);
                                let ip = index_path(&target);
                                resp = PipelineResponse { status: 200, headers: Vec::new(), body };
                                served_ext = Some(extension_of(&ip));
                            },
                            None => {
                                resp = PipelineResponse {
                                    status: 500,
                                    headers: Vec::new(),
                                    body: Vec::new(),
                                };
                            },
                        }
                    } else if p.directory_listing {
                        let body = render_listing(&fs.entries);
                        resp = PipelineResponse { status: 200, headers: Vec::new(), body };
                    } else {
                        resp = PipelineResponse {
                            status: 404,
                            headers: Vec::new(),
                            body: Vec::new(),
                        };
                    }
                },
            }
        },
    }
    let ghost base_v = spec_base(
        root_v,
        path_v,
        p.directory_listing,
        fs.node,
        fs.index_node,
        opt_view(fs.content),
        entries_view(fs.entries@),
    );
    proof {
        assert(resp@.headers =~= Seq::<(Seq<u8>, Seq<u8>)>::empty());
        assert(resp@ =~= base_v);
    }
    let ct: Vec<u8> = match &served_ext {
        Some(e) => {
            if resp.status == 200 {
                content_type_for(e, &p.default_type)
            } else {
                crate::paths::clone_bytes(&p.default_type)
            }
        },
        None => crate::paths::clone_bytes(&p.default_type),
    };
    proof {
        assert(ct@ == spec_ct_of(
            root_v,
            path_v,
            p.directory_listing,
            fs.node,
            fs.index_node,
            opt_view(fs.content),
            entries_view(fs.entries@),
            p.default_type@,
        ));
    }
    annotate_cache(&mut resp, assets_match, p.cache_default.max_age_secs, p.cache_assets.max_age_secs);
    set_content_type(&mut resp, ct);
    compress_stage(&mut resp);
    cors_stage(&mut resp, &p.cors, &req.origin);
    error_page_stage(&mut resp, &fs.page_404, &fs.page_50x);
    finalize_length(&mut resp);
    resp
}

} // verus!
