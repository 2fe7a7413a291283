//! The explicit route table: a list of method-and-path entries built at
//! startup, replacing any hidden registration machinery.

use vstd::prelude::*;

verus! {

/// The http method of a route.
#[derive(Debug, Clone, Copy, PartialEq, Eq, Structural)]
pub enum HttpMethod {
    Get,
    Post,
    Put,
    Delete,
}

/// Meta information about a route's handler: its method and path.
pub struct HandlerMeta {
    /// The http method the handler answers to.
    pub method: HttpMethod,
    /// The path the handler is mounted at.
    pub path: String,
}

/// A route associates a url and method with a handler.
pub struct GalvynRoute {
    /// Meta information about the route's handler.
    pub handler: HandlerMeta,
    /// The route's path, i.e. url without the host information.
    pub path: String,
}

impl GalvynRoute {
    /// Constructs a new `GalvynRoute` from its handler's meta information.
    pub fn new(original: HandlerMeta) -> (route: GalvynRoute)
        ensures
            route.handler == original,
            route.path@ == original.path@,
    {
        let path = original.path.clone();
        GalvynRoute { handler: original, path: path }
    }
}

/// A router combines several routes under a common path.
pub struct GalvynRouter {
    /// The contained routes, in registration order.
    pub routes: Vec<GalvynRoute>,
}

impl GalvynRouter {
    /// Creates a new, empty router.
    pub fn new() -> (router: GalvynRouter)
        ensures
            router.routes@.len() == 0,
    {
        GalvynRouter { routes: Vec::new() }
    }

    /// Adds a handler to the router.
    pub fn handler(self, meta: HandlerMeta) -> (router: GalvynRouter)
        ensures
            router.routes@.len() == self.routes@.len() + 1,
            router.routes@.subrange(0, self.routes@.len() as int) == self.routes@,
            router.routes@.last().handler == meta,
            router.routes@.last().path@ == meta.path@,
    {
        let ghost before = self.routes@;
        let mut routes = self.routes;
        routes.push(GalvynRoute::new(meta));
        proof {
            assert(routes@.subrange(0, before.len() as int) =~= before);
        }
        GalvynRouter { routes }
    }

    /// Takes over every route of another router, after this router's own.
    pub fn merge(self, other: GalvynRouter) -> (router: GalvynRouter)
        ensures
            router.routes@ == self.routes@ + other.routes@,
    {
        let mut routes = self.routes;
        let mut more = other.routes;
        routes.append(&mut more);
        GalvynRouter { routes }
    }

    /// Takes over every route of another router, each under this path
    /// prefix. Nesting at the root is not supported: use `merge` instead.
    pub fn nest(self, path: &String, other: GalvynRouter) -> (router: GalvynRouter)
        requires
            path@.len() > 0,
            path@ != "/"@,
            path@[0] == '/',
        ensures
            router.routes@.len() == self.routes@.len() + other.routes@.len(),
            router.routes@.subrange(0, self.routes@.len() as int) == self.routes@,
            forall|i: int|
                0 <= i < other.routes@.len() ==> {
                    let nested = #[trigger] router.routes@[self.routes@.len() + i];
                    &&& nested.path@ == nested_path(path@, other.routes@[i].path@)
                    &&& nested.handler.method == other.routes@[i].handler.method
                    &&& nested.handler.path@ == other.routes@[i].handler.path@
                },
    {
        let ghost before = self.routes@;
        let mut routes = self.routes;
        let n = other.routes.len();
        let mut i: usize = 0;
        while i < n
            invariant
                path@.len() > 0,
                n == other.routes@.len(),
                0 <= i <= n,
                routes@.len() == before.len() + i,
                routes@.subrange(0, before.len() as int) == before,
                forall|j: int|
                    0 <= j < i ==> {
                        let nested = #[trigger] routes@[before.len() + j];
                        &&& nested.path@ == nested_path(path@, other.routes@[j].path@)
                        &&& nested.handler.method == other.routes@[j].handler.method
                        &&& nested.handler.path@ == other.routes@[j].handler.path@
                    },
            decreases n - i,
        {
            let route = &other.routes[i];
            let nested = nest_one_path(path, &route.path);
            let handler = HandlerMeta { method: route.handler.method, path: route.handler.path.clone() };
            let ghost routes0 = routes@;
            routes.push(GalvynRoute { handler: handler, path: nested });
            proof {
                assert(routes@.subrange(0, before.len() as int) =~= routes0.subrange(
                    0,
                    before.len() as int,
                ));
            }
            i = i + 1;
        }
        GalvynRouter { routes }
    }
}

/// A path with its leading slashes removed.
pub open spec fn trim_leading_slashes(path: Seq<char>) -> Seq<char>
    decreases path.len(),
{
    if path.len() > 0 && path[0] == '/' {
        trim_leading_slashes(path.skip(1))
    } else {
        path
    }
}

/// The path a route gets when nested under a prefix: a prefix ending in a
/// slash swallows the route's leading slashes; the bare root route takes
/// the prefix itself; anything else is plain concatenation.
pub open spec fn nested_path(prefix: Seq<char>, path: Seq<char>) -> Seq<char> {
    if prefix.last() == '/' {
        prefix + trim_leading_slashes(path)
    } else if path == "/"@ {
        prefix
    } else {
        prefix + path
    }
}

/// Removes the leading slashes of a path.
fn trim_slashes_exec(path: &String) -> (r: String)
    ensures
        r@ == trim_leading_slashes(path@),
{
    let n = path.as_str().unicode_len();
    proof {
        assert(path@.skip(0) =~= path@);
    }
    let mut i: usize = 0;
    while i < n
        invariant
            n == path@.len(),
            0 <= i <= n,
            trim_leading_slashes(path@.skip(i as int)) == trim_leading_slashes(path@),
        ensures
            0 <= i <= n,
            trim_leading_slashes(path@.skip(i as int)) == trim_leading_slashes(path@),
            i == n || path@[i as int] != '/',
        decreases n - i,
    {
        if path.as_str().get_char(i) != '/' {
            break ;
        }
        proof {
            assert(path@.skip(i as int)[0] == path@[i as int]);
            assert(path@.skip(i as int).skip(1) =~= path@.skip(i + 1 as int));
        }
        i = i + 1;
    }
    proof {
        if i < n {
            assert(path@.skip(i as int)[0] == path@[i as int]);
            assert(trim_leading_slashes(path@.skip(i as int)) == path@.skip(i as int));
        } else {
            assert(path@.skip(i as int) =~= Seq::<char>::empty());
        }
    }
    let r = path.as_str().substring_char(i, n).to_owned();
    proof {
        assert(path@.subrange(i as int, n as int) =~= path@.skip(i as int));
    }
    r
}

/// Builds the nested path of one route.
fn nest_one_path(prefix: &String, path: &String) -> (r: String)
    requires
        prefix@.len() > 0,
    ensures
        r@ == nested_path(prefix@, path@),
{
    let plen = prefix.as_str().unicode_len();
    if prefix.as_str().get_char(plen - 1) == '/' {
        let trimmed = trim_slashes_exec(path);
        let r = prefix.clone().concat(trimmed.as_str());
        return r;
    }
    let root = "/".to_owned();
    if *path == root {
        return prefix.clone();
    }
    prefix.clone().concat(path.as_str())
}

} // verus!
