use vstd::prelude::*;
use vstd::utf8::is_ascii_chars;
use crate::format::{
    TextureFormat,
    canonical_key,
    format_of_key,
    lemma_key_initial,
    lemma_resolves_exactly,
    texture_from_lowercase,
};
use crate::text::{ascii_lower, lower_of, lowercase};

verus! {

/// Resolves a format name written in any letter case: the name is lowercased
/// and then looked up exactly as it stands, without trimming or partial matching.
pub fn texture_from_str(s: &str) -> (r: Option<TextureFormat>)
    ensures
        r == format_of_key(lower_of(s@)),
        is_ascii_chars(s@) ==> r == format_of_key(ascii_lower(s@)),
        is_ascii_chars(s@) ==> forall|f: TextureFormat|
            #![trigger canonical_key(f)]
            (r == Some(f)) == (ascii_lower(s@) == canonical_key(f)),
{
    let lowered = lowercase(s);
    let r = texture_from_lowercase(lowered.as_str());
    proof {
        assert forall|f: TextureFormat| #![trigger canonical_key(f)]
            is_ascii_chars(s@) implies (r == Some(f)) == (ascii_lower(s@) == canonical_key(f)) by {
            lemma_resolves_exactly(ascii_lower(s@), f);
        }
    }
    r
}

/// Letter case does not matter: a spelling of a format's key with any mix of
/// capital and small letters resolves, once lowercased, to that format.
pub proof fn lemma_case_insensitive(t: Seq<char>, f: TextureFormat)
    requires
        ascii_lower(t) == canonical_key(f),
    ensures
        format_of_key(ascii_lower(t)) == Some(f),
{
    lemma_resolves_exactly(ascii_lower(t), f);
}

/// A name that is no format's key resolves to nothing: there is no partial match.
pub proof fn lemma_unknown_name_unresolved(k: Seq<char>)
    requires
        forall|f: TextureFormat| canonical_key(f) != k,
    ensures
        format_of_key(k) is None,
{
    if format_of_key(k) is Some {
        lemma_resolves_exactly(k, format_of_key(k)->0);
    }
}

/// Two different names never resolve to the same format.
pub proof fn lemma_resolution_injective(k1: Seq<char>, k2: Seq<char>)
    requires
        format_of_key(k1) is Some,
        k1 != k2,
    ensures
        format_of_key(k1) != format_of_key(k2),
{
    lemma_resolves_exactly(k1, format_of_key(k1)->0);
    lemma_resolves_exactly(k2, format_of_key(k1)->0);
}

/// The empty name resolves to nothing.
pub proof fn lemma_empty_unresolved()
    ensures
        format_of_key(Seq::<char>::empty()) is None,
        format_of_key(ascii_lower(Seq::<char>::empty())) is None,
{
    assert forall|f: TextureFormat| canonical_key(f) != Seq::<char>::empty() by {
        lemma_key_initial(f);
    }
    lemma_unknown_name_unresolved(Seq::<char>::empty());
    assert(ascii_lower(Seq::<char>::empty()) =~= Seq::<char>::empty());
}

/// Names of the parametrized block-compressed family, which begin with `astc-`
/// in any letter case, are not resolved: that family has no entries.
pub proof fn lemma_astc_family_unresolved(t: Seq<char>)
    requires
        t.len() >= 5,
        ascii_lower(t).subrange(0, 5) == "astc-"@,
    ensures
        format_of_key(ascii_lower(t)) is None,
{
    reveal_strlit("astc-");
    let k = ascii_lower(t);
    assert(k[0] == k.subrange(0, 5)[0]);
    assert forall|f: TextureFormat| canonical_key(f) != k by {
        lemma_key_initial(f);
    }
    lemma_unknown_name_unresolved(k);
}

} // verus!
