//! Best-effort selector resolution, as data.
//!
//! The name-resolution service is an external collaborator: it may suspend,
//! fail, or not know a selector. The renderers therefore never call it.
//! They first report which selectors they would resolve (see the
//! `collect_*_requests` functions of the renderers); the caller queries the
//! service as it pleases and hands the successful answers back in a
//! `ResolutionMap`. A selector absent from the map renders as raw hex.

use vstd::prelude::*;

use crate::bytes::bytes_eq;

verus! {

/// One successful resolution: a selector's bytes and its resolved name.
#[derive(Clone, Debug)]
pub struct ResolvedName {
    pub selector: Vec<u8>,
    pub name: String,
}

/// The mathematical value of a `ResolvedName`.
pub ghost struct ResolvedNameModel {
    pub selector: Seq<u8>,
    pub name: Seq<char>,
}

impl View for ResolvedName {
    type V = ResolvedNameModel;

    open spec fn view(&self) -> ResolvedNameModel {
        ResolvedNameModel { selector: self.selector@, name: self.name@ }
    }
}

impl DeepView for ResolvedName {
    type V = ResolvedNameModel;

    open spec fn deep_view(&self) -> ResolvedNameModel {
        self@
    }
}

/// The answers gathered from the resolution service.
pub struct ResolutionMap {
    pub entries: Vec<ResolvedName>,
}

/// The name of the first entry for `selector`, if any.
pub open spec fn lookup_spec(entries: Seq<ResolvedNameModel>, selector: Seq<u8>) -> Option<
    Seq<char>,
>
    decreases entries.len(),
{
    if entries.len() == 0 {
        None
    } else if entries[0].selector == selector {
        Some(entries[0].name)
    } else {
        lookup_spec(entries.drop_first(), selector)
    }
}

/// No selector resolves in an empty map; this is the map a resolver that
/// always fails leaves behind.
pub proof fn lemma_empty_map_resolves_nothing(entries: Seq<ResolvedNameModel>, selector: Seq<u8>)
    requires
        entries.len() == 0,
    ensures
        lookup_spec(entries, selector) is None,
{
}

/// Skipping a prefix free of matches does not change the name found.
proof fn lemma_lookup_skip(entries: Seq<ResolvedNameModel>, selector: Seq<u8>, i: int)
    requires
        0 <= i <= entries.len(),
        forall|j: int| 0 <= j < i ==> entries[j].selector != selector,
    ensures
        lookup_spec(entries, selector) == lookup_spec(entries.skip(i), selector),
    decreases i,
{
    if i == 0 {
        assert(entries.skip(0) =~= entries);
    } else {
        lemma_lookup_skip(entries, selector, i - 1);
        assert(entries.skip(i - 1).drop_first() =~= entries.skip(i));
        if entries.skip(i - 1).len() > 0 {
            assert(entries.skip(i - 1)[0] == entries[i - 1]);
        }
    }
}

impl ResolutionMap {
    /// A map with no answers.
    pub fn new() -> (r: ResolutionMap)
        ensures
            r.entries@.len() == 0,
    {
        ResolutionMap { entries: Vec::new() }
    }

    /// Records one successful resolution.
    pub fn insert(&mut self, selector: Vec<u8>, name: String)
        ensures
            final(self).entries@ == old(self).entries@.push(
                ResolvedName { selector, name },
            ),
    {
        self.entries.push(ResolvedName { selector, name });
    }

    /// The resolved name of `selector`, if the service answered for it.
    pub fn lookup(&self, selector: &[u8]) -> (r: Option<String>)
        ensures
            match r {
                Some(name) => lookup_spec(self.entries.deep_view(), selector@) == Some(name@),
                None => lookup_spec(self.entries.deep_view(), selector@) is None,
            },
    {
        let n = self.entries.len();
        let mut i: usize = 0;
        while i < n
            invariant
                n == self.entries@.len(),
                i <= n,
                forall|j: int| 0 <= j < i ==> self.entries.deep_view()[j].selector != selector@,
            decreases n - i,
        {
            if bytes_eq(self.entries[i].selector.as_slice(), selector) {
                proof {
                    lemma_lookup_skip(self.entries.deep_view(), selector@, i as int);
                    assert(self.entries.deep_view().skip(i as int)[0] == self.entries.deep_view()[
                        i as int
                    ]);
                }
                return Some(self.entries[i].name.clone());
            }
            i = i + 1;
        }
        proof {
            lemma_lookup_skip(self.entries.deep_view(), selector@, n as int);
            assert(self.entries.deep_view().skip(n as int).len() == 0);
        }
        None
    }
}

} // verus!
