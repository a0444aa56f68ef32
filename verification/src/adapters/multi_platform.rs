//! Routing of requests to platform-specific adapters: the adapter registered
//! for the requested platform, else the default platform's adapter.

use vstd::prelude::*;
use crate::domain::entities::SearchOptions;
use crate::domain::errors::GatewayError;
use crate::domain::errors::join2;
use crate::text::{str_eq, to_owned_string};

verus! {

/// The adapter bound to `key` by the last binding that names it.
pub open spec fn bound<A>(bindings: Seq<(Seq<char>, A)>, key: Seq<char>) -> Option<A>
    decreases bindings.len(),
{
    if bindings.len() == 0 {
        None
    } else if bindings.last().0 == key {
        Some(bindings.last().1)
    } else {
        bound(bindings.drop_last(), key)
    }
}

/// The adapter serving `platform`: its own, else the default platform's.
pub open spec fn route<A>(bindings: Seq<(Seq<char>, A)>, default: Seq<char>, platform: Seq<char>) -> Option<A> {
    match bound(bindings, platform) {
        Some(a) => Some(a),
        None => bound(bindings, default),
    }
}

/// The platform a search is for: the options' platform, else the default.
pub open spec fn search_platform(options: SearchOptions, default: Seq<char>) -> Seq<char> {
    match options.platform {
        Some(p) => p@,
        None => default,
    }
}

/// The routing table shared by the content and the comment gateway.
struct Routes<A> {
    adapters: Vec<(String, A)>,
}

impl<A> Routes<A> {
    spec fn bindings(&self) -> Seq<(Seq<char>, A)> {
        self.adapters@.map_values(|p: (String, A)| (p.0@, p.1))
    }

    fn new() -> (r: Routes<A>)
        ensures
            r.bindings().len() == 0,
    {
        let r = Routes { adapters: Vec::new() };
        proof {
            assert(r.bindings() =~= Seq::<(Seq<char>, A)>::empty());
        }
        r
    }

    fn add(&mut self, platform: &str, adapter: A)
        ensures
            final(self).bindings() == old(self).bindings().push((platform@, adapter)),
    {
        self.adapters.push((to_owned_string(platform), adapter));
        proof {
            assert(self.bindings() =~= old(self).bindings().push((platform@, adapter)));
        }
    }

    fn get(&self, key: &str) -> (r: Option<&A>)
        ensures
            match bound(self.bindings(), key@) {
                Some(a) => r matches Some(x) && *x == a,
                None => r is None,
            },
    {
        let mut i = self.adapters.len();
        proof {
            assert(self.bindings().take(i as int) =~= self.bindings());
        }
        while i > 0
            invariant
                i <= self.adapters.len(),
                bound(self.bindings(), key@) == bound(self.bindings().take(i as int), key@),
            decreases i,
        {
            proof {
                let t = self.bindings().take(i as int);
                assert(t.last() == (self.adapters@[i - 1].0@, self.adapters@[i - 1].1));
                assert(t.drop_last() =~= self.bindings().take(i - 1));
            }
            if str_eq(self.adapters[i - 1].0.as_str(), key) {
                return Some(&self.adapters[i - 1].1);
            }
            i = i - 1;
        }
        None
    }

    /// The adapter for `platform`, else the default's, else the error made
    /// from `missing` and the platform.
    fn route(&self, platform: &str, default: &str, missing: &str) -> (r: Result<&A, GatewayError>)
        ensures
            match route(self.bindings(), default@, platform@) {
                Some(a) => r matches Ok(x) && *x == a,
                None => r matches Err(GatewayError::InvalidParams(m)) && m@ == missing@
                    + platform@,
            },
    {
        match self.get(platform) {
            Some(a) => Ok(a),
            None => match self.get(default) {
                Some(a) => Ok(a),
                None => Err(GatewayError::InvalidParams(join2(missing, platform))),
            },
        }
    }
}

/// Routes content requests to platform adapters: searches by the options'
/// platform, user and id lookups by the current platform.
pub struct MultiPlatformContentGateway<A> {
    routes: Routes<A>,
    default_platform: String,
    current_platform: String,
}

impl<A> MultiPlatformContentGateway<A> {
    /// The registered adapters, later registrations last.
    pub closed spec fn bindings(&self) -> Seq<(Seq<char>, A)> {
        self.routes.bindings()
    }

    /// The default platform.
    pub closed spec fn default_platform_view(&self) -> Seq<char> {
        self.default_platform@
    }

    /// The platform of user and id lookups.
    pub closed spec fn current_platform_view(&self) -> Seq<char> {
        self.current_platform@
    }

    /// A gateway with no adapter, defaulting to `default_platform`.
    pub fn new(default_platform: &str) -> (r: MultiPlatformContentGateway<A>)
        ensures
            r.bindings().len() == 0,
            r.default_platform_view() == default_platform@,
            r.current_platform_view() == default_platform@,
    {
        MultiPlatformContentGateway {
            routes: Routes::new(),
            default_platform: to_owned_string(default_platform),
            current_platform: to_owned_string(default_platform),
        }
    }

    /// Registers `adapter` for `platform`, replacing an earlier one.
    pub fn add_adapter(self, platform: &str, adapter: A) -> (r: MultiPlatformContentGateway<A>)
        ensures
            r.bindings() == self.bindings().push((platform@, adapter)),
            r.default_platform_view() == self.default_platform_view(),
            r.current_platform_view() == self.current_platform_view(),
    {
        let mut s = self;
        s.routes.add(platform, adapter);
        s
    }

    /// The current platform.
    pub fn current(&self) -> (r: String)
        ensures
            r@ == self.current_platform_view(),
    {
        self.current_platform.clone()
    }

    /// The adapter for `platform`, else the default platform's adapter.
    pub fn get_adapter(&self, platform: &str) -> (r: Result<&A, GatewayError>)
        ensures
            match route(self.bindings(), self.default_platform_view(), platform@) {
                Some(a) => r matches Ok(x) && *x == a,
                None => r matches Err(GatewayError::InvalidParams(m)) && m@
                    == "No adapter for platform: "@ + platform@,
            },
    {
        self.routes.route(platform, self.default_platform.as_str(), "No adapter for platform: ")
    }

    /// The adapter that serves a search (and a keyword fetch) with `options`.
    pub fn adapter_for_search(&self, options: &SearchOptions) -> (r: Result<&A, GatewayError>)
        ensures
            ({
                let p = search_platform(*options, self.default_platform_view());
                match route(self.bindings(), self.default_platform_view(), p) {
                    Some(a) => r matches Ok(x) && *x == a,
                    None => r matches Err(GatewayError::InvalidParams(m)) && m@
                        == "No adapter for platform: "@ + p,
                }
            }),
    {
        let platform: &str = match &options.platform {
            Some(p) => p.as_str(),
            None => self.default_platform.as_str(),
        };
        self.get_adapter(platform)
    }

    /// The adapter that serves user and id lookups.
    pub fn adapter_for_current(&self) -> (r: Result<&A, GatewayError>)
        ensures
            match route(self.bindings(), self.default_platform_view(), self.current_platform_view()) {
                Some(a) => r matches Ok(x) && *x == a,
                None => r matches Err(GatewayError::InvalidParams(m)) && m@
                    == "No adapter for platform: "@ + self.current_platform_view(),
            },
    {
        self.get_adapter(self.current_platform.as_str())
    }

    /// The gateway's own platform name.
    pub fn platform(&self) -> (r: &'static str)
        ensures
            r@ == "multi"@,
    {
        "multi"
    }
}

/// Routes comment requests to platform adapters by the current platform.
pub struct MultiPlatformCommentGateway<A> {
    routes: Routes<A>,
    default_platform: String,
    current_platform: String,
}

impl<A> MultiPlatformCommentGateway<A> {
    /// The registered adapters, later registrations last.
    pub closed spec fn bindings(&self) -> Seq<(Seq<char>, A)> {
        self.routes.bindings()
    }

    /// The default platform.
    pub closed spec fn default_platform_view(&self) -> Seq<char> {
        self.default_platform@
    }

    /// The platform requests are routed to.
    pub closed spec fn current_platform_view(&self) -> Seq<char> {
        self.current_platform@
    }

    /// A gateway with no adapter, defaulting to `default_platform`.
    pub fn new(default_platform: &str) -> (r: MultiPlatformCommentGateway<A>)
        ensures
            r.bindings().len() == 0,
            r.default_platform_view() == default_platform@,
            r.current_platform_view() == default_platform@,
    {
        MultiPlatformCommentGateway {
            routes: Routes::new(),
            default_platform: to_owned_string(default_platform),
            current_platform: to_owned_string(default_platform),
        }
    }

    /// Registers `adapter` for `platform`, replacing an earlier one.
    pub fn add_adapter(self, platform: &str, adapter: A) -> (r: MultiPlatformCommentGateway<A>)
        ensures
            r.bindings() == self.bindings().push((platform@, adapter)),
            r.default_platform_view() == self.default_platform_view(),
            r.current_platform_view() == self.current_platform_view(),
    {
        let mut s = self;
        s.routes.add(platform, adapter);
        s
    }

    /// Sets the platform that later requests are routed to.
    pub fn set_platform(&mut self, platform: &str)
        ensures
            final(self).current_platform_view() == platform@,
            final(self).bindings() == old(self).bindings(),
            final(self).default_platform_view() == old(self).default_platform_view(),
    {
        self.current_platform = to_owned_string(platform);
    }

    /// The current platform.
    pub fn current(&self) -> (r: String)
        ensures
            r@ == self.current_platform_view(),
    {
        self.current_platform.clone()
    }

    /// The adapter for `platform`, else the default platform's adapter.
    pub fn get_adapter(&self, platform: &str) -> (r: Result<&A, GatewayError>)
        ensures
            match route(self.bindings(), self.default_platform_view(), platform@) {
                Some(a) => r matches Ok(x) && *x == a,
                None => r matches Err(GatewayError::InvalidParams(m)) && m@
                    == "No comment adapter for platform: "@ + platform@,
            },
    {
        self.routes.route(
            platform,
            self.default_platform.as_str(),
            "No comment adapter for platform: ",
        )
    }

    /// The adapter that serves requests now.
    pub fn adapter_for_current(&self) -> (r: Result<&A, GatewayError>)
        ensures
            match route(self.bindings(), self.default_platform_view(), self.current_platform_view()) {
                Some(a) => r matches Ok(x) && *x == a,
                None => r matches Err(GatewayError::InvalidParams(m)) && m@
                    == "No comment adapter for platform: "@ + self.current_platform_view(),
            },
    {
        self.get_adapter(self.current_platform.as_str())
    }

    /// The gateway's own platform name.
    pub fn platform(&self) -> (r: &'static str)
        ensures
            r@ == "multi"@,
    {
        "multi"
    }
}

/// A later registration for a platform replaces the earlier one, and other
/// platforms keep their adapters.
pub proof fn lemma_add_adapter_routes<A>(bindings: Seq<(Seq<char>, A)>, platform: Seq<char>, adapter: A, other: Seq<char>)
    ensures
        bound(bindings.push((platform, adapter)), platform) == Some(adapter),
        other != platform ==> bound(bindings.push((platform, adapter)), other) == bound(
            bindings,
            other,
        ),
{
    assert(bindings.push((platform, adapter)).drop_last() == bindings);
}

} // verus!
