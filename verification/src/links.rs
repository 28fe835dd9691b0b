//! Resolves an environment-variable key fragment back to the package that
//! published the matching native-link key. Link keys may themselves contain
//! separator characters and be prefixes of one another, so every split
//! position of the fragment is tried; more than one may match.

use vstd::prelude::*;
use vstd::string::*;
use crate::model::{Error, PackageId};
use crate::text::{envify, envify_seq, str_eq};

verus! {

/// One published link key and the package that published it.
#[derive(Clone, Debug, PartialEq, Eq)]
pub struct LinkEntry {
    pub key: String,
    pub package: PackageId,
}

/// Mathematical contents of a `LinkEntry`.
#[verifier::ext_equal]
pub ghost struct LinkEntryView {
    pub key: Seq<char>,
    pub package: Seq<char>,
}

impl View for LinkEntry {
    type V = LinkEntryView;

    open spec fn view(&self) -> LinkEntryView {
        LinkEntryView { key: self.key@, package: self.package@ }
    }
}

impl DeepView for LinkEntry {
    type V = LinkEntryView;

    open spec fn deep_view(&self) -> LinkEntryView {
        self.view()
    }
}

/// A well-formed link table: every key already carries the
/// environment-variable normalization, and no key appears twice.
pub open spec fn link_table_well_formed(links: Seq<LinkEntryView>) -> bool {
    &&& forall|i: int| 0 <= i < links.len() ==> #[trigger] links[i].key == envify_seq(links[i].key)
    &&& forall|i: int, j: int|
        0 <= i < j < links.len() ==> #[trigger] links[i].key != #[trigger] links[j].key
}

/// Whether the table holds an entry for `key`.
pub open spec fn key_in_table(links: Seq<LinkEntryView>, key: Seq<char>) -> bool {
    exists|j: int| 0 <= j < links.len() && links[j].key == key
}

/// The package that published `key`, if the table holds it: the first entry
/// with that key.
pub open spec fn link_lookup(links: Seq<LinkEntryView>, key: Seq<char>) -> Option<Seq<char>>
    decreases links.len(),
{
    if links.len() == 0 {
        None
    } else if links[0].key == key {
        Some(links[0].package)
    } else {
        link_lookup(links.drop_first(), key)
    }
}

/// Looks a key up in the link table.
pub fn link_lookup_exec<'a>(links: &'a Vec<LinkEntry>, key: &str) -> (r: Option<&'a PackageId>)
    ensures
        match r {
            Some(p) => link_lookup(links.deep_view(), key@) == Some(p@),
            None => link_lookup(links.deep_view(), key@) is None,
        },
{
    proof {
        assert(links.deep_view().skip(0) =~= links.deep_view());
    }
    let n = links.len();
    let mut i: usize = 0;
    while i < n
        invariant
            n == links.len(),
            i <= n,
            link_lookup(links.deep_view(), key@) == link_lookup(
                links.deep_view().skip(i as int),
                key@,
            ),
        decreases n - i,
    {
        proof {
            assert(links.deep_view().skip(i as int).drop_first() =~= links.deep_view().skip(
                i + 1,
            ));
            assert(links.deep_view().skip(i as int)[0] == links.deep_view()[i as int]);
        }
        if str_eq(links[i].key.as_str(), key) {
            return Some(&links[i].package);
        }
        i = i + 1;
    }
    proof {
        assert(links.deep_view().skip(n as int) =~= Seq::<LinkEntryView>::empty());
    }
    None
}

/// Every package matched while scanning `variable` from position `start`: at
/// each separator, the candidate prefix before it is case-normalized and
/// looked up, and matches are kept in scan order.
pub open spec fn matched_links(
    variable: Seq<char>,
    links: Seq<LinkEntryView>,
    start: int,
) -> Seq<Seq<char>>
    decreases variable.len() - start,
{
    if start < 0 || start >= variable.len() {
        Seq::empty()
    } else if variable[start] == '_' {
        match link_lookup(links, envify_seq(variable.take(start))) {
            Some(pkg) => seq![pkg] + matched_links(variable, links, start + 1),
            None => matched_links(variable, links, start + 1),
        }
    } else {
        matched_links(variable, links, start + 1)
    }
}

/// Collects every package whose link key matches a prefix of `variable` that
/// ends right before a separator, in scan order.
pub fn find_crates(variable: &str, crate_links: &Vec<LinkEntry>) -> (r: Vec<PackageId>)
    ensures
        r.deep_view() == matched_links(variable@, crate_links.deep_view(), 0),
{
    let len = variable.unicode_len();
    let mut crates: Vec<PackageId> = Vec::new();
    let mut i: usize = 0;
    while i < len
        invariant
            len == variable@.len(),
            i <= len,
            crates.deep_view() + matched_links(variable@, crate_links.deep_view(), i as int)
                =~= matched_links(variable@, crate_links.deep_view(), 0),
        decreases len - i,
    {
        if variable.get_char(i) == '_' {
            let raw_prefix = variable.substring_char(0, i);
            proof {
                assert(raw_prefix@ =~= variable@.take(i as int));
            }
            let prefix = envify(raw_prefix);
            match link_lookup_exec(crate_links, prefix.as_str()) {
                Some(pkg) => {
                    let ghost before = crates.deep_view();
                    crates.push(pkg.dup());
                    proof {
                        assert(crates.deep_view() =~= before + seq![pkg@]);
                    }
                },
                None => {},
            }
        }
        i = i + 1;
    }
    proof {
        assert(crates.deep_view() + matched_links(variable@, crate_links.deep_view(), len as int)
            =~= crates.deep_view());
    }
    crates
}

/// The three-way outcome of resolving a key fragment: exactly one publisher,
/// none, or several. Both failure modes are routine and recoverable at the
/// call site.
#[derive(Clone, Debug, PartialEq, Eq)]
pub enum LinkResolution {
    Found(PackageId),
    NotFound,
    Ambiguous,
}

/// Mathematical contents of a `LinkResolution`.
#[verifier::ext_equal]
pub ghost enum LinkResolutionView {
    Found(Seq<char>),
    NotFound,
    Ambiguous,
}

impl View for LinkResolution {
    type V = LinkResolutionView;

    open spec fn view(&self) -> LinkResolutionView {
        match self {
            LinkResolution::Found(p) => LinkResolutionView::Found(p@),
            LinkResolution::NotFound => LinkResolutionView::NotFound,
            LinkResolution::Ambiguous => LinkResolutionView::Ambiguous,
        }
    }
}

/// The outcome of resolving `variable` against a link table, as a function of
/// the fragment and the table alone.
pub open spec fn resolve_link_spec(
    variable: Seq<char>,
    links: Seq<LinkEntryView>,
) -> LinkResolutionView {
    let m = matched_links(variable, links, 0);
    if m.len() == 0 {
        LinkResolutionView::NotFound
    } else if m.len() == 1 {
        LinkResolutionView::Found(m[0])
    } else {
        LinkResolutionView::Ambiguous
    }
}

/// Finds the package whose published link key matches `variable`, an
/// environment variable with its reserved prefix already removed. Exactly one
/// match is required; none or several are reported as such.
pub fn find_crate(variable: &str, crate_links: &Vec<LinkEntry>) -> (r: LinkResolution)
    ensures
        r@ == resolve_link_spec(variable@, crate_links.deep_view()),
{
    let mut crates = find_crates(variable, crate_links);
    if crates.len() == 0 {
        LinkResolution::NotFound
    } else if crates.len() == 1 {
        let p = crates.remove(0);
        proof {
            assert(p@ == matched_links(variable@, crate_links.deep_view(), 0)[0]);
        }
        LinkResolution::Found(p)
    } else {
        LinkResolution::Ambiguous
    }
}

/// Resolution of a key fragment is deterministic: one fragment and one key
/// table admit exactly one outcome, so repeated calls agree.
pub proof fn lemma_link_resolution_deterministic(
    variable: Seq<char>,
    links: Seq<LinkEntryView>,
    r1: LinkResolutionView,
    r2: LinkResolutionView,
)
    requires
        r1 == resolve_link_spec(variable, links),
        r2 == resolve_link_spec(variable, links),
    ensures
        r1 == r2,
{
}

} // verus!
