use vstd::prelude::*;

use crate::ascii::{spec_hdr_allow_origin, spec_hdr_cache_control, spec_hdr_content_type};
use crate::cors::{opt_view, spec_star, CorsPolicy};
use crate::listing::entries_view;
use crate::paths::{spec_normalize, spec_split, views_of};
use crate::pipeline::{
    spec_assets_match, spec_cache_value, spec_ct_of, spec_is_2xx, spec_respond, FsView, Pipeline,
    PipelineRequest,
};

verus! {

/// A request whose path escapes the canonical root is answered 404:
/// never 200, and never a 500 that could leak a path.
pub proof fn lemma_escape_is_not_found(p: &Pipeline, req: &PipelineRequest, fs: &FsView)
    requires
        spec_normalize(spec_split(req.path@)) is None,
    ensures
        spec_respond(p, req, fs).status == 404,
{
}

/// Every success carries the cache policy owed to its path, first among its
/// headers: the assets lifetime when the first resolved segment names the
/// assets directory, and the default lifetime otherwise.
pub proof fn lemma_cache_policy(p: &Pipeline, req: &PipelineRequest, fs: &FsView)
    requires
        spec_is_2xx(spec_respond(p, req, fs).status),
    ensures
        spec_respond(p, req, fs).headers[0] == (
            spec_hdr_cache_control(),
            spec_cache_value(
                if spec_assets_match(req.path@, p.roots.assets_basename@) {
                    p.cache_assets.max_age_secs as nat
                } else {
                    p.cache_default.max_age_secs as nat
                },
            ),
        ),
        spec_respond(p, req, fs).headers.contains(
            (
                spec_hdr_cache_control(),
                spec_cache_value(
                    if spec_assets_match(req.path@, p.roots.assets_basename@) {
                        p.cache_assets.max_age_secs as nat
                    } else {
                        p.cache_default.max_age_secs as nat
                    },
                ),
            ),
        ),
{
    let r = spec_respond(p, req, fs);
    assert(r.headers.contains(r.headers[0])) by {
        assert(r.headers.len() > 0);
    }
}

/// Every response carries the `Content-Type` it is owed: the type table's
/// entry for the extension of a file served with 200 when the table has
/// one, and the configured default otherwise.
pub proof fn lemma_content_type(p: &Pipeline, req: &PipelineRequest, fs: &FsView)
    ensures
        spec_respond(p, req, fs).headers.contains(
            (
                spec_hdr_content_type(),
                spec_ct_of(
                    p.roots.canonical_root@,
                    req.path@,
                    p.directory_listing,
                    fs.node,
                    fs.index_node,
                    opt_view(fs.content),
                    entries_view(fs.entries@),
                    p.default_type@,
                ),
            ),
        ),
{
    let r = spec_respond(p, req, fs);
    let ct = spec_ct_of(
        p.roots.canonical_root@,
        req.path@,
        p.directory_listing,
        fs.node,
        fs.index_node,
        opt_view(fs.content),
        entries_view(fs.entries@),
        p.default_type@,
    );
    if spec_is_2xx(r.status) {
        assert(r.headers[1] == (spec_hdr_content_type(), ct));
        assert(r.headers.contains(r.headers[1]));
    } else {
        assert(r.headers[0] == (spec_hdr_content_type(), ct));
        assert(r.headers.contains(r.headers[0]));
    }
}

/// A response that is not a success is not cache-annotated: no header of it
/// is named `Cache-Control`.
pub proof fn lemma_no_cache_on_failure(p: &Pipeline, req: &PipelineRequest, fs: &FsView)
    requires
        !spec_is_2xx(spec_respond(p, req, fs).status),
    ensures
        forall|i: int|
            0 <= i < spec_respond(p, req, fs).headers.len() ==> #[trigger] spec_respond(
                p,
                req,
                fs,
            ).headers[i].0 != spec_hdr_cache_control(),
{
    assert(spec_hdr_cache_control().len() == 13);
    assert(spec_hdr_content_type().len() == 12);
    assert(crate::ascii::spec_hdr_content_encoding().len() == 16);
    assert(crate::ascii::spec_hdr_content_length().len() == 14);
    assert(spec_hdr_allow_origin().len() == 27);
}

/// Every response carries exactly one `Content-Type` header.
pub proof fn lemma_content_type_unique(p: &Pipeline, req: &PipelineRequest, fs: &FsView)
    ensures
        exists|k: int|
            0 <= k < spec_respond(p, req, fs).headers.len() && #[trigger] spec_respond(
                p,
                req,
                fs,
            ).headers[k].0 == spec_hdr_content_type() && (forall|i: int|
                0 <= i < spec_respond(p, req, fs).headers.len() && i != k ==> #[trigger] spec_respond(
                    p,
                    req,
                    fs,
                ).headers[i].0 != spec_hdr_content_type()),
{
    let r = spec_respond(p, req, fs);
    assert(spec_hdr_cache_control().len() == 13);
    assert(spec_hdr_content_type().len() == 12);
    assert(crate::ascii::spec_hdr_content_encoding().len() == 16);
    assert(crate::ascii::spec_hdr_content_length().len() == 14);
    assert(spec_hdr_allow_origin().len() == 27);
    if spec_is_2xx(r.status) {
        assert(r.headers[1].0 == spec_hdr_content_type());
    } else {
        assert(r.headers[0].0 == spec_hdr_content_type());
    }
}

/// Under the allow-any policy, every response carries
/// `Access-Control-Allow-Origin` with an asterisk.
pub proof fn lemma_cors_allow_any(p: &Pipeline, req: &PipelineRequest, fs: &FsView)
    requires
        p.cors is AllowAny,
    ensures
        spec_respond(p, req, fs).headers.contains((spec_hdr_allow_origin(), spec_star())),
{
    let r = spec_respond(p, req, fs);
    let n = r.headers.len();
    if spec_is_2xx(r.status) {
        if r.body.len() > 0 {
            assert(r.headers.contains(r.headers[n - 2]));
        } else {
            assert(r.headers.contains(r.headers[n - 2]));
        }
    } else {
        assert(r.headers.contains(r.headers[n - 2]));
    }
}

/// Under a whitelist, a request whose origin is a member gets that origin
/// echoed back.
pub proof fn lemma_cors_whitelist_member(
    p: &Pipeline,
    req: &PipelineRequest,
    fs: &FsView,
    o: Seq<u8>,
)
    requires
        p.cors matches CorsPolicy::Whitelist(w) && views_of(w@).contains(o),
        opt_view(req.origin) == Some(o),
    ensures
        spec_respond(p, req, fs).headers.contains((spec_hdr_allow_origin(), o)),
{
    let r = spec_respond(p, req, fs);
    let n = r.headers.len();
    assert(r.headers.contains(r.headers[n - 2]));
}

/// When the policy is disabled, or a whitelist does not hold the request's
/// origin, no cross-origin header is attached at all.
pub proof fn lemma_cors_absent(p: &Pipeline, req: &PipelineRequest, fs: &FsView)
    requires
        match p.cors {
            CorsPolicy::Disabled => true,
            CorsPolicy::AllowAny => false,
            CorsPolicy::Whitelist(w) => match opt_view(req.origin) {
                Some(o) => !views_of(w@).contains(o),
                None => true,
            },
        },
    ensures
        forall|i: int|
            0 <= i < spec_respond(p, req, fs).headers.len() ==> #[trigger] spec_respond(
                p,
                req,
                fs,
            ).headers[i].0 != spec_hdr_allow_origin(),
{
    let r = spec_respond(p, req, fs);
    assert(spec_hdr_cache_control().len() == 13);
    assert(spec_hdr_content_type().len() == 12);
    assert(crate::ascii::spec_hdr_content_encoding().len() == 16);
    assert(crate::ascii::spec_hdr_content_length().len() == 14);
    assert(spec_hdr_allow_origin().len() == 27);
}

/// The error-page stage runs on every path through the pipeline: whatever
/// earlier stages did, a 404 is sent with the configured not-found page and
/// a 500-class failure with the configured server-error page, the built-in
/// fallback standing in for a missing page; the status itself is kept.
pub proof fn lemma_error_page_substitution(p: &Pipeline, req: &PipelineRequest, fs: &FsView)
    ensures
        spec_respond(p, req, fs).status == 404 ==> spec_respond(p, req, fs).body == (match opt_view(
            fs.page_404,
        ) {
            Some(b) => b,
            None => crate::ascii::spec_fallback_not_found(),
        }),
        500 <= spec_respond(p, req, fs).status <= 599 ==> spec_respond(p, req, fs).body == (
        match opt_view(fs.page_50x) {
            Some(b) => b,
            None => crate::ascii::spec_fallback_server_error(),
        }),
{
}

/// The pipeline produces no status but 200, 404 and 500.
pub proof fn lemma_status_range(p: &Pipeline, req: &PipelineRequest, fs: &FsView)
    ensures
        spec_respond(p, req, fs).status == 200 || spec_respond(p, req, fs).status == 404
            || spec_respond(p, req, fs).status == 500,
{
}

/// Repeating an identical request against an unchanged file system yields a
/// byte-identical response: the same status, the same headers in the same
/// order, and the same body.
pub proof fn lemma_idempotent(
    p: &Pipeline,
    req1: &PipelineRequest,
    fs1: &FsView,
    req2: &PipelineRequest,
    fs2: &FsView,
)
    requires
        req1.path@ == req2.path@,
        opt_view(req1.origin) == opt_view(req2.origin),
        fs1.node == fs2.node,
        fs1.index_node == fs2.index_node,
        opt_view(fs1.content) == opt_view(fs2.content),
        entries_view(fs1.entries@) == entries_view(fs2.entries@),
        opt_view(fs1.page_404) == opt_view(fs2.page_404),
        opt_view(fs1.page_50x) == opt_view(fs2.page_50x),
    ensures
        spec_respond(p, req1, fs1) == spec_respond(p, req2, fs2),
{
}

} // verus!
