//! Wildcard profile patterns: a pattern is literal text in which `*` matches
//! any stretch of characters, held against the whole invoked command. The
//! pattern is translated into an anchored regular expression — each literal
//! chunk escaped, `*` turned into `.*` — and matched by the regex engine.

use vstd::prelude::*;
use vstd::string::StringExecFns;

use crate::regexes::escape_seq;
use crate::regexes::regex_accepts;
use crate::regexes::regex_compiles;
use crate::regexes::regex_escape;
use crate::regexes::regex_is_match;
use crate::text::chars_of;
use crate::text::join_with;
use crate::text::lemma_join_with_push;
use crate::text::split_char;
use crate::text::split_on;
use crate::text::string_from_chars;

verus! {

/// Each chunk with its regex meta characters escaped.
pub open spec fn escape_all(chunks: Seq<Seq<char>>) -> Seq<Seq<char>> {
    Seq::new(chunks.len(), |i: int| escape_seq(chunks[i]))
}

/// The anchored regex source a wildcard pattern translates to: literal
/// chunks escaped, `*` turned into match-anything, the whole fenced by
/// `^` and `$`.
pub open spec fn wildcard_regex(pattern: Seq<char>) -> Seq<char> {
    seq!['^'] + join_with(escape_all(split_on(pattern, '*')), seq!['.', '*']) + seq!['$']
}

/// Does the command fall under the wildcard pattern: the translated regex
/// compiles and accepts the whole command.
pub open spec fn pattern_matches(pattern: Seq<char>, command: Seq<char>) -> bool {
    regex_compiles(wildcard_regex(pattern)) && regex_accepts(wildcard_regex(pattern), command)
}

/// Does the entered command match the given wildcard pattern of a profile?
pub fn command_matches(command: &str, pattern: &str) -> (r: bool)
    ensures
        r == pattern_matches(pattern@, command@),
{
    let pch = chars_of(pattern);
    let chunks = split_char(&pch, '*');
    let ghost cviews = split_on(pattern@, '*');

    let mut escaped: Vec<String> = Vec::new();
    let mut i: usize = 0;
    while i < chunks.len()
        invariant
            i <= chunks@.len(),
            chunks@.len() == cviews.len(),
            forall|t: int| 0 <= t < chunks@.len() ==> #[trigger] chunks@[t]@ == cviews[t],
            escaped@.len() == i,
            forall|t: int| 0 <= t < i ==> #[trigger] escaped@[t]@ == escape_all(cviews)[t],
        decreases chunks@.len() - i,
    {
        let chunk = string_from_chars(&chunks[i]);
        escaped.push(regex_escape(chunk.as_str()));
        i += 1;
    }

    let mut re_str = String::from_str("^");
    proof {
        reveal_strlit("^");
        assert(re_str@ =~= seq!['^']);
        assert(escape_all(cviews).take(0) =~= Seq::<Seq<char>>::empty());
        assert(re_str@ =~= seq!['^'] + join_with(escape_all(cviews).take(0), seq!['.', '*']));
    }
    let mut i: usize = 0;
    while i < escaped.len()
        invariant
            i <= escaped@.len(),
            escaped@.len() == cviews.len(),
            forall|t: int| 0 <= t < escaped@.len() ==> #[trigger] escaped@[t]@ == escape_all(
                cviews,
            )[t],
            re_str@ == seq!['^'] + join_with(escape_all(cviews).take(i as int), seq!['.', '*']),
        decreases escaped@.len() - i,
    {
        if i > 0 {
            re_str.append(".*");
            proof {
                reveal_strlit(".*");
                assert(".*"@ =~= seq!['.', '*']);
            }
        }
        re_str.append(escaped[i].as_str());
        proof {
            lemma_join_with_push(
                escape_all(cviews).take(i as int),
                seq!['.', '*'],
                escape_all(cviews)[i as int],
            );
            assert(escape_all(cviews).take(i as int).push(escape_all(cviews)[i as int])
                =~= escape_all(cviews).take(i + 1 as int));
        }
        i += 1;
    }
    re_str.append("$");
    proof {
        reveal_strlit("$");
        assert("$"@ =~= seq!['$']);
        assert(escape_all(cviews).take(cviews.len() as int) =~= escape_all(cviews));
        assert(re_str@ =~= wildcard_regex(pattern@));
    }
    match regex_is_match(re_str.as_str(), command) {
        Some(b) => b,
        None => false,
    }
}

} // verus!
