//! The navigator core: the stored base location and the two options that
//! shape every resolution and navigation decision.
//!
//! The core owns no platform handles.  It resolves URLs, applies the
//! HTTP-to-HTTPS upgrade, decides which fetch branch a request takes, and
//! turns an embedded navigation request into a plan — open, ask first, or
//! reject — that the embedding carries out with its own dialog and
//! launcher capabilities.

use vstd::prelude::*;
use crate::urls::{
    join_of, join_err_of, dir_base_of, with_pair_of, upgrade_spec, spec_starts_with, join_url,
    normalize_base_url, append_query_pair, str_starts_with, upgrade_insecure,
};
use crate::fetch::{NavigationMethod, Request, FetchPlan, FetchErrorKind, ErrorResponse};

verus! {

/// The open-navigation policy: what happens when embedded content asks to
/// open a website.
#[derive(Clone, Copy, PartialEq, Eq, Structural, Debug)]
pub enum OpenUrlMode {
    /// Always proceed.
    Allow,
    /// Ask the user through the confirmation dialog first.
    Confirm,
    /// Never proceed.
    Deny,
}

/// Why a navigation request was rejected.
#[derive(Clone, Copy, PartialEq, Eq, Structural, Debug)]
pub enum NavigationReject {
    /// The request URL could not be resolved.
    InvalidUrl,
    /// The resolved URL runs script; scripts are not allowed here.
    JavascriptScheme,
    /// The open-navigation policy denies every navigation.
    PolicyDenied,
}

/// What the embedding should do with a navigation request.
pub enum NavigationPlan {
    /// Do nothing.
    Reject(NavigationReject),
    /// Ask the user for approval, then open the URL on a yes.
    ConfirmThenOpen(String),
    /// Open the URL.
    Open(String),
}

/// The navigator core: base location and options, all plain values.
pub struct NavigatorCore {
    /// The base for relative fetches; its last path segment is already
    /// replaced by an empty one, so references resolve as against a
    /// directory.
    pub base_url: String,
    /// Whether resolved `http` URLs are upgraded to `https`.
    pub upgrade_to_https: bool,
    /// The open-navigation policy.
    pub open_url_mode: OpenUrlMode,
}

/// The query pairs of a navigation request, as sequences of characters.
pub open spec fn pairs_views(pairs: Seq<(String, String)>) -> Seq<(Seq<char>, Seq<char>)> {
    pairs.map_values(|p: (String, String)| (p.0@, p.1@))
}

/// The serialization obtained by appending each pair of `pairs`, in order,
/// to the query of `u`; `None` as soon as one append fails.
pub open spec fn with_pairs_spec(u: Option<Seq<char>>, pairs: Seq<(Seq<char>, Seq<char>)>) -> Option<
    Seq<char>,
>
    decreases pairs.len(),
{
    if pairs.len() == 0 {
        u
    } else {
        match u {
            None => None,
            Some(s) => with_pairs_spec(with_pair_of(s, pairs[0].0, pairs[0].1), pairs.skip(1)),
        }
    }
}

/// Appends each name/value pair to the query of `u`, in order.
pub fn append_query_pairs(u: &String, pairs: &Vec<(String, String)>) -> (r: Option<String>)
    ensures
        r matches Some(w) ==> Some(w@) == with_pairs_spec(Some(u@), pairs_views(pairs@)),
        r is None <==> with_pairs_spec(Some(u@), pairs_views(pairs@)) is None,
{
    let ghost all = pairs_views(pairs@);
    let mut cur = u.clone();
    let mut i: usize = 0;
    proof {
        assert(all.skip(0) =~= all);
    }
    while i < pairs.len()
        invariant
            i <= pairs@.len(),
            all == pairs_views(pairs@),
            with_pairs_spec(Some(cur@), all.skip(i as int)) == with_pairs_spec(Some(u@), all),
        decreases pairs@.len() - i,
    {
        proof {
            assert(all[i as int] == (pairs@[i as int].0@, pairs@[i as int].1@));
            assert(all.skip(i as int)[0] == all[i as int]);
            assert(all.skip(i as int).skip(1) =~= all.skip(i as int + 1));
        }
        match append_query_pair(cur.as_str(), pairs[i].0.as_str(), pairs[i].1.as_str()) {
            Some(next) => {
                cur = next;
            },
            None => {
                proof {
                    assert(with_pairs_spec(Some(cur@), all.skip(i as int)) == with_pairs_spec(
                        with_pair_of(cur@, all[i as int].0, all[i as int].1),
                        all.skip(i as int).skip(1),
                    ));
                    assert(with_pairs_spec(
                        None::<Seq<char>>,
                        all.skip(i as int).skip(1),
                    ) is None);
                }
                return None;
            },
        }
        i = i + 1;
    }
    proof {
        assert(all.skip(i as int) =~= Seq::<(Seq<char>, Seq<char>)>::empty());
    }
    Some(cur)
}

impl NavigatorCore {
    /// Builds a navigator core: the base location's last path segment is
    /// replaced with an empty one before storage, so that relative
    /// references resolve as against a directory, not a file.  `None` when
    /// `base_url` does not parse as an absolute URL.
    pub fn new(base_url: &str, upgrade_to_https: bool, open_url_mode: OpenUrlMode) -> (r: Option<
        NavigatorCore,
    >)
        ensures
            r is Some <==> dir_base_of(base_url@) is Some,
            r matches Some(c) ==> Some(c.base_url@) == dir_base_of(base_url@)
                && c.upgrade_to_https == upgrade_to_https && c.open_url_mode == open_url_mode,
    {
        match normalize_base_url(base_url) {
            Some(base) => Some(
                NavigatorCore { base_url: base, upgrade_to_https, open_url_mode },
            ),
            None => None,
        }
    }

    /// What `reference` resolves to under this core: the join against the
    /// stored base, then the upgrade when the option is on.
    pub open spec fn resolved_spec(&self, reference: Seq<char>) -> Option<Seq<char>> {
        match join_of(self.base_url@, reference) {
            Some(u) => Some(
                if self.upgrade_to_https {
                    upgrade_spec(u)
                } else {
                    u
                },
            ),
            None => None,
        }
    }

    /// Resolves `reference` against the stored base location and applies
    /// the security normalization; the text of that parse failure otherwise.
    pub fn resolve_url(&self, reference: &str) -> (r: Result<String, String>)
        ensures
            r is Ok <==> self.resolved_spec(reference@) is Some,
            r matches Ok(u) ==> Some(u@) == self.resolved_spec(reference@),
            r matches Err(t) ==> t@ == join_err_of(self.base_url@, reference@),
    {
        match join_url(self.base_url.as_str(), reference) {
            Ok(u) => Ok(self.pre_process_url(u)),
            Err(e) => Err(e),
        }
    }

    /// Applies the security normalization: when the "upgrade insecure
    /// requests" option is on, a URL of scheme exactly `http` is rewritten
    /// to `https` in place; everything else passes through untouched.
    pub fn pre_process_url(&self, url: String) -> (r: String)
        ensures
            r@ == if self.upgrade_to_https {
                upgrade_spec(url@)
            } else {
                url@
            },
    {
        if self.upgrade_to_https {
            upgrade_insecure(url)
        } else {
            url
        }
    }

    /// Resolves the request URL and decides which branch the fetch takes.
    ///
    /// Resolution failure yields the invalid-URL error immediately — under
    /// the unresolved request URL, carrying that parse failure's text — and
    /// no branch; a resolved `file:` URL takes the filesystem branch; every
    /// other scheme takes the HTTP branch.
    pub fn plan_fetch(&self, request: &Request) -> (r: Result<FetchPlan, ErrorResponse>)
        ensures
            self.resolved_spec(request.url@) is None ==> (r matches Err(e) && e.url@
                == request.url@ && (e.error matches FetchErrorKind::InvalidUrl(t) && t@
                == join_err_of(self.base_url@, request.url@))),
            self.resolved_spec(request.url@) matches Some(u) ==> if spec_starts_with(
                u,
                "file:"@,
            ) {
                r matches Ok(p) && p matches FetchPlan::File { url } && url@ == u
            } else {
                r matches Ok(p) && p matches FetchPlan::Http { url } && url@ == u
            },
    {
        let resolved = match self.resolve_url(request.url.as_str()) {
            Ok(u) => u,
            Err(e) => {
                return Err(
                    ErrorResponse { url: request.url.clone(), error: FetchErrorKind::InvalidUrl(e) },
                );
            },
        };
        if str_starts_with(resolved.as_str(), "file:") {
            Ok(FetchPlan::File { url: resolved })
        } else {
            Ok(FetchPlan::Http { url: resolved })
        }
    }

    /// The URL a navigation request ends up at: the resolved request URL
    /// with the request's query pairs, if any, appended.
    pub open spec fn navigation_target_spec(
        &self,
        reference: Seq<char>,
        vars_method: Option<(NavigationMethod, Vec<(String, String)>)>,
    ) -> Option<Seq<char>> {
        match self.resolved_spec(reference) {
            None => None,
            Some(u) => match vars_method {
                None => Some(u),
                Some(v) => with_pairs_spec(Some(u), pairs_views(v.1@)),
            },
        }
    }

    /// Decides what to do with a navigation request.
    ///
    /// The request URL is resolved and the query pairs, if any, appended;
    /// failure of either yields the invalid-URL rejection.  A target that
    /// would run script is rejected.  Otherwise the open-navigation policy
    /// decides: deny rejects, confirm asks the user first, allow opens.
    pub fn plan_navigation(
        &self,
        url: &str,
        vars_method: Option<(NavigationMethod, Vec<(String, String)>)>,
    ) -> (r: NavigationPlan)
        ensures
            ({
                let target = self.navigation_target_spec(url@, vars_method);
                match target {
                    None => r matches NavigationPlan::Reject(NavigationReject::InvalidUrl),
                    Some(t) => if spec_starts_with(t, "javascript:"@) {
                        r matches NavigationPlan::Reject(NavigationReject::JavascriptScheme)
                    } else {
                        match self.open_url_mode {
                            OpenUrlMode::Deny => r matches NavigationPlan::Reject(
                                NavigationReject::PolicyDenied,
                            ),
                            OpenUrlMode::Confirm => r matches NavigationPlan::ConfirmThenOpen(u)
                                && u@ == t,
                            OpenUrlMode::Allow => r matches NavigationPlan::Open(u) && u@ == t,
                        }
                    },
                }
            }),
    {
        let resolved = match self.resolve_url(url) {
            Ok(u) => u,
            Err(_) => {
                return NavigationPlan::Reject(NavigationReject::InvalidUrl);
            },
        };
        let modified = match vars_method {
            Some((_, pairs)) => match append_query_pairs(&resolved, &pairs) {
                Some(u) => u,
                None => {
                    return NavigationPlan::Reject(NavigationReject::InvalidUrl);
                },
            },
            None => resolved,
        };
        if str_starts_with(modified.as_str(), "javascript:") {
            return NavigationPlan::Reject(NavigationReject::JavascriptScheme);
        }
        if self.open_url_mode == OpenUrlMode::Deny {
            NavigationPlan::Reject(NavigationReject::PolicyDenied)
        } else if self.open_url_mode == OpenUrlMode::Confirm {
            NavigationPlan::ConfirmThenOpen(modified)
        } else {
            NavigationPlan::Open(modified)
        }
    }
}

} // verus!
