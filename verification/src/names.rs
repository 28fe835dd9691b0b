//! The two identifier domains of dependency names — post-rename import names
//! and declared manifest names — and the parser for the fixed-format
//! unused-dependency diagnostic, which reports the post-rename name.

use vstd::prelude::*;
use vstd::string::*;
use crate::model::Error;
use crate::text::{find_char_from, is_prefix_of, lemma_find_char_from, str_find_char_from,
    str_starts_with};

verus! {

/// A dependency name in import-rename space: what source code calls the
/// crate.
#[derive(Clone, Debug, PartialEq, Eq, Hash)]
pub struct RenamedCrate {
    pub name: String,
}

impl View for RenamedCrate {
    type V = Seq<char>;

    open spec fn view(&self) -> Seq<char> {
        self.name@
    }
}

impl RenamedCrate {
    /// A copy that borrowing callers can hand on.
    pub fn as_unowned(&self) -> (r: RenamedCrate)
        ensures
            r@ == self@,
    {
        RenamedCrate { name: self.name.clone() }
    }
}

/// A dependency name in declared-name space: what the manifest calls the
/// dependency.
#[derive(Clone, Debug, PartialEq, Eq, Hash)]
pub struct UnrenamedCrate {
    pub name: String,
}

impl View for UnrenamedCrate {
    type V = Seq<char>;

    open spec fn view(&self) -> Seq<char> {
        self.name@
    }
}

impl UnrenamedCrate {
    /// A copy that borrowing callers can hand on.
    pub fn _as_unowned(&self) -> (r: UnrenamedCrate)
        ensures
            r@ == self@,
    {
        UnrenamedCrate { name: self.name.clone() }
    }
}

/// The fixed opening of the unused-dependency diagnostic.
pub open spec fn diag_prefix() -> Seq<char> {
    "external crate `"@
}

/// The fixed middle of the unused-dependency diagnostic, between the crate
/// name and the target name.
pub open spec fn diag_mid() -> Seq<char> {
    "` unused in `"@
}

/// The post-rename crate name the diagnostic reports, when the message
/// follows the fixed format: the opening text, the name up to the first
/// closing quote, the middle text, and a quoted target name.
pub open spec fn spec_parse_unused_crate_diagnostic(m: Seq<char>) -> Option<Seq<char>> {
    if !is_prefix_of(diag_prefix(), m) {
        None
    } else {
        let plen = diag_prefix().len() as int;
        match find_char_from(m, plen, '`') {
            None => None,
            Some(i) => {
                let rest = m.skip(i);
                if !is_prefix_of(diag_mid(), rest) {
                    None
                } else {
                    match find_char_from(m, i + diag_mid().len(), '`') {
                        None => None,
                        Some(_) => Some(m.subrange(plen, i)),
                    }
                }
            },
        }
    }
}

/// Extracts the post-rename crate name out of an unused-dependency
/// diagnostic message.
pub fn parse_unused_crate_diagnostic(message: &str) -> (r: Result<RenamedCrate, Error>)
    ensures
        match r {
            Ok(rc) => spec_parse_unused_crate_diagnostic(message@) == Some(rc@),
            Err(e) => spec_parse_unused_crate_diagnostic(message@) is None && e
                == Error::UnparseableDiagnostic,
        },
{
    let len = message.unicode_len();
    if !str_starts_with(message, "external crate `") {
        return Err(Error::UnparseableDiagnostic);
    }
    let plen = "external crate `".unicode_len();
    let i = match str_find_char_from(message, plen, '`') {
        Some(i) => i,
        None => {
            return Err(Error::UnparseableDiagnostic);
        },
    };
    proof {
        lemma_find_char_from(message@, plen as int, '`');
    }
    let rest = message.substring_char(i, len);
    proof {
        assert(rest@ =~= message@.skip(i as int));
    }
    if !str_starts_with(rest, "` unused in `") {
        return Err(Error::UnparseableDiagnostic);
    }
    let mlen = "` unused in `".unicode_len();
    assert(i + mlen <= len) by {
        assert(rest@.len() >= diag_mid().len());
    }
    match str_find_char_from(message, i + mlen, '`') {
        Some(_) => {
            let name = message.substring_char(plen, i);
            proof {
                assert(name@ =~= message@.subrange(diag_prefix().len() as int, i as int));
            }
            Ok(RenamedCrate { name: name.to_owned() })
        },
        None => Err(Error::UnparseableDiagnostic),
    }
}

} // verus!
