use vstd::prelude::*;

pub mod ascii;
pub mod content_type;
pub mod cors;
pub mod gzip;
pub mod laws;
pub mod listing;
pub mod paths;
pub mod pipeline;
pub mod util;

use crate::ascii::{spec_text_html, text_html};
use crate::cors::{cors_policy_from, spec_policy_matches};
use crate::paths::{basename, clone_bytes, spec_adjusted, spec_basename};
use crate::pipeline::{CacheDirective, Pipeline, ResolvedRoots};

verus! {

/// Seconds a response under the default cache policy may be cached for: one
/// day.
pub const ONE_DAY_SECS: u64 = 60 * 60 * 24;

/// Seconds a response under the assets cache policy may be cached for: one
/// year.
pub const ONE_YEAR_SECS: u64 = 60 * 60 * 24 * 365;

/// The options a static-files pipeline is built from.  Paths and the origin
/// list are byte strings; all are taken as given and validated at startup.
pub struct StaticFilesOptions {
    pub root_dir: Vec<u8>,
    pub assets_dir: Vec<u8>,
    pub page_50x_path: Vec<u8>,
    pub page_404_path: Vec<u8>,
    pub cors_allow_origins: Vec<u8>,
    pub directory_listing: bool,
}

/// The static files service: holds its options until startup assembles the
/// pipeline.
pub struct StaticFiles {
    pub opts: StaticFilesOptions,
}

/// What the surrounding server observed when it canonicalized a configured
/// directory: the canonical path and whether it is a directory.
pub struct DirProbe {
    pub canonical: Vec<u8>,
    pub is_dir: bool,
}

/// Why startup was refused.  The service must not begin serving after any
/// of these.
pub enum StartupError {
    InvalidRootDir,
    InvalidAssetsDir,
    InvalidAssetsName,
}

/// Whether a probe found a usable directory.
pub open spec fn spec_probe_ok(p: Option<DirProbe>) -> bool {
    match p {
        Some(d) => d.is_dir,
        None => false,
    }
}

impl StaticFiles {
    /// Create a new instance of `StaticFiles` with given options.
    pub fn new(opts: StaticFilesOptions) -> (r: StaticFiles)
        ensures
            r.opts == opts,
    {
        StaticFiles { opts }
    }

    /// Assembles the request pipeline from the options and the observed
    /// canonical directories.  Startup succeeds exactly when both probes
    /// found a directory and the assets directory has a base name; on
    /// success every piece of the pipeline is pinned to the options.
    pub fn handle(&self, root_probe: &Option<DirProbe>, assets_probe: &Option<DirProbe>) -> (r:
        Result<Pipeline, StartupError>)
        ensures
            !spec_probe_ok(*root_probe) ==> r == Result::<Pipeline, StartupError>::Err(
                StartupError::InvalidRootDir,
            ),
            spec_probe_ok(*root_probe) && !spec_probe_ok(*assets_probe) ==> r
                == Result::<Pipeline, StartupError>::Err(StartupError::InvalidAssetsDir),
            spec_probe_ok(*root_probe) && spec_probe_ok(*assets_probe) && spec_basename(
                spec_adjusted(assets_probe->Some_0.canonical@),
            ) is None ==> r == Result::<Pipeline, StartupError>::Err(
                StartupError::InvalidAssetsName,
            ),
            spec_probe_ok(*root_probe) && spec_probe_ok(*assets_probe) && spec_basename(
                spec_adjusted(assets_probe->Some_0.canonical@),
            ) is Some ==> r is Ok && (r->Ok_0.roots.canonical_root@ == spec_adjusted(
                root_probe->Some_0.canonical@,
            ) && r->Ok_0.roots.canonical_assets@ == spec_adjusted(
                assets_probe->Some_0.canonical@,
            ) && Some(r->Ok_0.roots.assets_basename@) == spec_basename(
                spec_adjusted(assets_probe->Some_0.canonical@),
            ) && spec_policy_matches(self.opts.cors_allow_origins@, r->Ok_0.cors)
                && r->Ok_0.cache_default.max_age_secs == ONE_DAY_SECS
                && r->Ok_0.cache_assets.max_age_secs == ONE_YEAR_SECS
                && r->Ok_0.default_type@ == spec_text_html() && r->Ok_0.page_404_path@
                == self.opts.page_404_path@ && r->Ok_0.page_50x_path@ == self.opts.page_50x_path@
                && r->Ok_0.directory_listing == self.opts.directory_listing),
    {
        let root_canonical: Vec<u8> = match root_probe {
            Some(d) => {
                if !d.is_dir {
                    return Err(StartupError::InvalidRootDir);
                }
                clone_bytes(&d.canonical)
            },
            None => {
                return Err(StartupError::InvalidRootDir);
            },
        };
        let assets_canonical: Vec<u8> = match assets_probe {
            Some(d) => {
                if !d.is_dir {
                    return Err(StartupError::InvalidAssetsDir);
                }
                clone_bytes(&d.canonical)
            },
            None => {
                return Err(StartupError::InvalidAssetsDir);
            },
        };
        let canonical_root = crate::paths::adjust_canonicalization(root_canonical);
        let canonical_assets = crate::paths::adjust_canonicalization(assets_canonical);
        let assets_basename = match basename(&canonical_assets) {
            Some(b) => b,
            None => {
                return Err(StartupError::InvalidAssetsName);
            },
        };
        let cors = cors_policy_from(&self.opts.cors_allow_origins);
        Ok(
            Pipeline {
                roots: ResolvedRoots { canonical_root, canonical_assets, assets_basename },
                cors,
                cache_default: CacheDirective { max_age_secs: ONE_DAY_SECS },
                cache_assets: CacheDirective { max_age_secs: ONE_YEAR_SECS },
                default_type: text_html(),
                page_404_path: clone_bytes(&self.opts.page_404_path),
                page_50x_path: clone_bytes(&self.opts.page_50x_path),
                directory_listing: self.opts.directory_listing,
            },
        )
    }
}

} // verus!
