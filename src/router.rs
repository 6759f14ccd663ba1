//! Dispatch of a request to an API handler or to the static resolver.

use vstd::prelude::*;
use vstd::string::*;
use crate::text::{has_prefix, same, strip_prefix};

verus! {

/// The request methods that the routes distinguish.
#[derive(Debug, Clone, Copy, PartialEq, Eq, Structural)]
pub enum Method {
    Get,
    Post,
    Other,
}

/// Where a request goes.
#[derive(Debug, Clone)]
pub enum Route {
    Health,
    SystemInfo,
    Upload,
    /// Download of the file at this path under the static root.
    Download(String),
    /// Metadata of the file at this path under the static root.
    FileInfo(String),
    /// The static resolver.
    Static,
    /// An API route with a method it does not serve: 404.
    NoRoute,
}

pub enum RouteView {
    Health,
    SystemInfo,
    Upload,
    Download(Seq<char>),
    FileInfo(Seq<char>),
    Static,
    NoRoute,
}

impl View for Route {
    type V = RouteView;

    open spec fn view(&self) -> RouteView {
        match self {
            Route::Health => RouteView::Health,
            Route::SystemInfo => RouteView::SystemInfo,
            Route::Upload => RouteView::Upload,
            Route::Download(p) => RouteView::Download(p@),
            Route::FileInfo(p) => RouteView::FileInfo(p@),
            Route::Static => RouteView::Static,
            Route::NoRoute => RouteView::NoRoute,
        }
    }
}

/// The route of a request below `/api`, given the rest of its path: each
/// API path serves one method, and any other path falls through to the
/// static resolver.
pub open spec fn api_route(method: Method, sub: Seq<char>) -> RouteView {
    let download = "/files/download/"@;
    let info = "/files/info/"@;
    if sub == "/health"@ {
        if method == Method::Get {
            RouteView::Health
        } else {
            RouteView::NoRoute
        }
    } else if sub == "/system/info"@ {
        if method == Method::Get {
            RouteView::SystemInfo
        } else {
            RouteView::NoRoute
        }
    } else if sub == "/files/upload"@ {
        if method == Method::Post {
            RouteView::Upload
        } else {
            RouteView::NoRoute
        }
    } else if has_prefix(sub, download) && sub.len() > download.len() {
        if method == Method::Get {
            RouteView::Download(sub.subrange(download.len() as int, sub.len() as int))
        } else {
            RouteView::NoRoute
        }
    } else if has_prefix(sub, info) && sub.len() > info.len() {
        if method == Method::Get {
            RouteView::FileInfo(sub.subrange(info.len() as int, sub.len() as int))
        } else {
            RouteView::NoRoute
        }
    } else {
        RouteView::Static
    }
}

/// The route of a request for `path`.
pub open spec fn route_of(method: Method, path: Seq<char>) -> RouteView {
    if has_prefix(path, "/api"@) {
        api_route(method, path.subrange(4, path.len() as int))
    } else {
        RouteView::Static
    }
}

fn method_route(method: Method, wanted: Method, r: Route) -> (out: Route)
    ensures
        out@ == (if method == wanted {
            r@
        } else {
            RouteView::NoRoute
        }),
{
    if method == wanted {
        r
    } else {
        Route::NoRoute
    }
}

/// Chooses the handler of a request.
pub fn route(method: Method, path: &str) -> (r: Route)
    ensures
        r@ == route_of(method, path@),
{
    proof {
        reveal_strlit("/api");
    }
    let sub = match strip_prefix(path, "/api") {
        Some(s) => s,
        None => {
            return Route::Static;
        },
    };
    let sub = sub.as_str();
    if same(sub, "/health") {
        return method_route(method, Method::Get, Route::Health);
    }
    if same(sub, "/system/info") {
        return method_route(method, Method::Get, Route::SystemInfo);
    }
    if same(sub, "/files/upload") {
        return method_route(method, Method::Post, Route::Upload);
    }
    if let Some(rest) = strip_prefix(sub, "/files/download/") {
        if rest.unicode_len() > 0 {
            return method_route(method, Method::Get, Route::Download(rest));
        }
    }
    if let Some(rest) = strip_prefix(sub, "/files/info/") {
        if rest.unicode_len() > 0 {
            return method_route(method, Method::Get, Route::FileInfo(rest));
        }
    }
    Route::Static
}

} // verus!
