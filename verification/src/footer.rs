//! Composition of the annotation footer.
//!
//! The footer concatenates the available-and-enabled facts in a fixed
//! order — name, then revision, then version — with a single space before
//! every fragment but the first, and wraps the result in marker tags.
//! When nothing is available the composer signals that annotation is to be
//! skipped rather than emitting an empty footer.

use vstd::prelude::*;
use vstd::string::StringExecFns;

verus! {

/// Appends one fragment to the composed body: a space separates it from a
/// non-empty body; an empty body takes the fragment as it stands.
pub open spec fn add_fragment(acc: Seq<char>, frag: Seq<char>) -> Seq<char> {
    if acc.len() == 0 {
        acc + frag
    } else {
        acc + seq![' '] + frag
    }
}

/// The footer body: the enabled-and-available facts in the fixed order
/// name, revision (`@` prefixed), version (`v` prefixed).
pub open spec fn footer_body(
    name: Option<Seq<char>>,
    rev: Option<Seq<char>>,
    version: Option<Seq<char>>,
    with_name: bool,
    with_rev: bool,
    with_version: bool,
) -> Seq<char> {
    let s1 = if with_name && name is Some {
        add_fragment(Seq::empty(), name->0)
    } else {
        Seq::empty()
    };
    let s2 = if with_rev && rev is Some {
        add_fragment(s1, seq!['@'] + rev->0)
    } else {
        s1
    };
    if with_version && version is Some {
        add_fragment(s2, seq!['v'] + version->0)
    } else {
        s2
    }
}

/// The composed footer: the body wrapped in the marker tags, or `None`
/// where the body is empty and annotation is to be skipped.
pub open spec fn spec_footer(
    name: Option<Seq<char>>,
    rev: Option<Seq<char>>,
    version: Option<Seq<char>>,
    with_name: bool,
    with_rev: bool,
    with_version: bool,
) -> Option<Seq<char>> {
    let body = footer_body(name, rev, version, with_name, with_rev, with_version);
    if body.len() == 0 {
        None
    } else {
        Some("<footer>"@ + body + "</footer>"@)
    }
}

/// The view of an optional borrowed string.
pub open spec fn opt_str_view(o: Option<&str>) -> Option<Seq<char>> {
    match o {
        Some(s) => Some(s@),
        None => None,
    }
}

/// Appends one fragment to the body under composition.
fn push_fragment(body: &mut String, frag: &str)
    ensures
        final(body)@ == add_fragment(old(body)@, frag@),
{
    proof {
        reveal_strlit(" ");
    }
    if !body.as_str().is_empty() {
        body.append(" ");
    }
    body.append(frag);
    assert(body@ =~= add_fragment(old(body)@, frag@));
}

/// Composes the footer from the available facts and the enabled flags.
/// Returns `None` exactly when every fragment is disabled, unavailable or
/// empty, in which case annotation is skipped.
pub fn compose_footer(
    name: Option<&str>,
    rev: Option<&str>,
    version: Option<&str>,
    with_name: bool,
    with_rev: bool,
    with_version: bool,
) -> (r: Option<String>)
    ensures
        match r {
            Some(f) => spec_footer(
                opt_str_view(name),
                opt_str_view(rev),
                opt_str_view(version),
                with_name,
                with_rev,
                with_version,
            ) == Some(f@),
            None => spec_footer(
                opt_str_view(name),
                opt_str_view(rev),
                opt_str_view(version),
                with_name,
                with_rev,
                with_version,
            ) is None,
        },
{
    let mut body = String::new();
    if with_name {
        if let Some(n) = name {
            push_fragment(&mut body, n);
        }
    }
    if with_rev {
        if let Some(r) = rev {
            proof {
                reveal_strlit("@");
            }
            let mut frag = String::from_str("@");
            frag.append(r);
            assert(frag@ =~= seq!['@'] + r@);
            push_fragment(&mut body, frag.as_str());
        }
    }
    if with_version {
        if let Some(v) = version {
            proof {
                reveal_strlit("v");
            }
            let mut frag = String::from_str("v");
            frag.append(v);
            assert(frag@ =~= seq!['v'] + v@);
            push_fragment(&mut body, frag.as_str());
        }
    }
    if body.as_str().is_empty() {
        None
    } else {
        let mut out = String::from_str("<footer>");
        out.append(body.as_str());
        out.append("</footer>");
        Some(out)
    }
}

/// The three flags act only as masks on the facts: disabling a flag
/// composes the same footer as lacking the fact, so the fragment order —
/// name, then revision, then version — never depends on which subset of
/// flags is enabled.
pub proof fn lemma_flags_mask_facts(
    name: Option<Seq<char>>,
    rev: Option<Seq<char>>,
    version: Option<Seq<char>>,
    with_name: bool,
    with_rev: bool,
    with_version: bool,
)
    ensures
        spec_footer(name, rev, version, with_name, with_rev, with_version) == spec_footer(
            if with_name { name } else { None },
            if with_rev { rev } else { None },
            if with_version { version } else { None },
            true,
            true,
            true,
        ),
{
}

/// With every fact available and enabled and a non-empty name, the body
/// is exactly the name, the `@`-prefixed revision and the `v`-prefixed
/// version, in that order, separated by single spaces.
pub proof fn lemma_full_footer_shape(name: Seq<char>, rev: Seq<char>, version: Seq<char>)
    requires
        name.len() > 0,
    ensures
        footer_body(Some(name), Some(rev), Some(version), true, true, true) == name + seq![
            ' ',
            '@',
        ] + rev + seq![' ', 'v'] + version,
{
    assert(footer_body(Some(name), Some(rev), Some(version), true, true, true) =~= name + seq![
        ' ',
        '@',
    ] + rev + seq![' ', 'v'] + version);
}

/// With no facts available the composer skips annotation, whatever the
/// flags say.
pub proof fn lemma_no_facts_skips(with_name: bool, with_rev: bool, with_version: bool)
    ensures
        spec_footer(None, None, None, with_name, with_rev, with_version) is None,
{
}

} // verus!
