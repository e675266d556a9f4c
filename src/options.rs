use vstd::prelude::*;
use crate::format::{TextureFormat, format_of_key};
use crate::resolve::texture_from_str;
use crate::text::{lower_of, same_text};

verus! {

/// What one command-line option asks to be shown for each adapter.
#[derive(Clone, Copy, Debug, PartialEq, Eq, Structural, Hash)]
pub enum Query {
    Features,
    Limits,
    Downlevel,
    Texture(TextureFormat),
    /// The option is neither a keyword nor a format name.
    Unrecognized,
}

/// The query that option `s` stands for: the keywords are matched exactly,
/// anything else is tried as a format name in any letter case.
pub open spec fn query_of(s: Seq<char>) -> Query {
    if s == "features"@ {
        Query::Features
    } else if s == "limits"@ {
        Query::Limits
    } else if s == "downlevel"@ {
        Query::Downlevel
    } else {
        match format_of_key(lower_of(s)) {
            Some(f) => Query::Texture(f),
            None => Query::Unrecognized,
        }
    }
}

/// The texture format that stands for all of them when every query is asked for.
pub open spec fn sample_format() -> TextureFormat {
    TextureFormat::Rgba8Unorm
}

/// Every capability, and one texture format.
pub open spec fn all_queries() -> Seq<Query> {
    seq![Query::Features, Query::Limits, Query::Downlevel, Query::Texture(sample_format())]
}

/// The characters of each argument.
pub open spec fn arg_texts(args: Seq<String>) -> Seq<Seq<char>> {
    args.map_values(|a: String| a@)
}

/// Whether the first option after the program name is `help`.
pub open spec fn help_requested(args: Seq<Seq<char>>) -> bool {
    args.len() > 1 && args[1] == "help"@
}

/// The queries that the arguments ask for, in order: every query where the
/// first option is `all`, else one per option after the program name.
pub open spec fn queries_for(args: Seq<Seq<char>>) -> Seq<Query> {
    if args.len() > 1 && args[1] == "all"@ {
        all_queries()
    } else if args.len() == 0 {
        Seq::empty()
    } else {
        args.subrange(1, args.len() as int).map_values(|a: Seq<char>| query_of(a))
    }
}

/// Decides what option `s` asks for.
pub fn classify_option(s: &str) -> (r: Query)
    ensures
        r == query_of(s@),
{
    if same_text(s, "features") {
        Query::Features
    } else if same_text(s, "limits") {
        Query::Limits
    } else if same_text(s, "downlevel") {
        Query::Downlevel
    } else {
        match texture_from_str(s) {
            Some(f) => Query::Texture(f),
            None => Query::Unrecognized,
        }
    }
}

/// Whether the arguments (program name first) ask for the usage text.
pub fn is_help_request(args: &Vec<String>) -> (r: bool)
    ensures
        r == help_requested(arg_texts(args@)),
{
    args.len() > 1 && same_text(args[1].as_str(), "help")
}

/// The queries that the arguments (program name first) ask for, in order.
pub fn requested_queries(args: &Vec<String>) -> (r: Vec<Query>)
    ensures
        r@ == queries_for(arg_texts(args@)),
{
    let ghost texts = arg_texts(args@);
    if args.len() > 1 && same_text(args[1].as_str(), "all") {
        let r = vec![
            Query::Features,
            Query::Limits,
            Query::Downlevel,
            Query::Texture(TextureFormat::Rgba8Unorm),
        ];
        assert(r@ =~= all_queries());
        return r;
    }
    let mut r: Vec<Query> = Vec::new();
    if args.len() == 0 {
        return r;
    }
    let mut i: usize = 1;
    while i < args.len()
        invariant
            1 <= i <= args.len(),
            texts == arg_texts(args@),
            r@.len() == i - 1,
            forall|j: int| 0 <= j < r@.len() ==> r@[j] == query_of(texts[j + 1]),
        decreases args.len() - i,
    {
        let q = classify_option(args[i].as_str());
        r.push(q);
        i = i + 1;
    }
    assert(r@ =~= texts.subrange(1, texts.len() as int).map_values(|a: Seq<char>| query_of(a)));
    r
}

} // verus!
