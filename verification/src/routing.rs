//! Routing at the request boundary. Only one decision concerns the
//! core: a `POST` to the API endpoint starts a transactional request
//! scope; every other path serves assets or page shells outside it, and
//! methods other than `GET` and `HEAD` are refused there.

use vstd::prelude::*;
use vstd::utf8::encode_utf8;
use crate::bytesutil::{bytes_eq, subrange_vec};

verus! {

/// The HTTP methods the router distinguishes.
#[derive(Clone, Copy, Debug, PartialEq, Eq, Structural)]
pub enum HttpMethod {
    Get,
    Head,
    Post,
    OtherMethod,
}

/// Where a request goes.
#[derive(Clone, Copy, Debug, PartialEq, Eq, Structural)]
pub enum Route {
    /// `POST` to the API endpoint: a transactional request scope runs.
    Api,
    /// A method that nothing here serves.
    MethodNotAllowed,
    /// `GET` or `HEAD` anywhere else: assets and page shells, outside
    /// the core.
    PageOrAsset,
}

/// The request path with trailing slashes dropped.
pub open spec fn canonical_path(p: Seq<u8>) -> Seq<u8>
    decreases p.len(),
{
    if p.len() > 0 && p.last() == 0x2f {
        canonical_path(p.drop_last())
    } else {
        p
    }
}

pub open spec fn api_path() -> Seq<u8> {
    encode_utf8("/graphql"@)
}

/// Which route a request takes: the API endpoint accepts `POST` alone,
/// and every other path accepts only `GET` and `HEAD`.
pub open spec fn route_spec(m: HttpMethod, p: Seq<u8>) -> Route {
    if canonical_path(p) == api_path() && m is Post {
        Route::Api
    } else if !(m is Get || m is Head) {
        Route::MethodNotAllowed
    } else {
        Route::PageOrAsset
    }
}

proof fn lemma_canonical_take(p: Seq<u8>, j: int)
    requires
        0 <= j <= p.len(),
        forall|k: int| j <= k < p.len() ==> p[k] == 0x2f,
        j == 0 || p[j - 1] != 0x2f,
    ensures
        canonical_path(p) =~= p.take(j),
    decreases p.len() - j,
{
    if j == p.len() {
        assert(p.take(j) =~= p);
    } else {
        assert(p.last() == 0x2f);
        assert(forall|k: int| j <= k < p.drop_last().len() ==> p.drop_last()[k] == 0x2f);
        lemma_canonical_take(p.drop_last(), j);
        assert(p.drop_last().take(j) =~= p.take(j));
    }
}

/// Routes one request by method and raw path bytes.
pub fn route_request(method: HttpMethod, path: &[u8]) -> (r: Route)
    ensures
        r == route_spec(method, path@),
{
    let mut j: usize = path.len();
    while j > 0 && path[j - 1] == 0x2f
        invariant
            j <= path@.len(),
            forall|k: int| j <= k < path@.len() ==> path@[k] == 0x2f,
        decreases j,
    {
        j -= 1;
    }
    proof {
        lemma_canonical_take(path@, j as int);
    }
    let canon = subrange_vec(path, 0, j);
    proof {
        assert(canon@ =~= canonical_path(path@));
    }
    let api = String::from_str("/graphql");
    let target = api.as_bytes_vec();
    let is_api = bytes_eq(canon.as_slice(), target.as_slice());
    match method {
        HttpMethod::Post => if is_api {
            Route::Api
        } else {
            Route::MethodNotAllowed
        },
        HttpMethod::Get => Route::PageOrAsset,
        HttpMethod::Head => Route::PageOrAsset,
        HttpMethod::OtherMethod => Route::MethodNotAllowed,
    }
}

} // verus!
