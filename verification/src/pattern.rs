use vstd::prelude::*;

verus! {

/// Whether `regex::Regex::new` accepts a pattern; compilation succeeds or
/// fails as a function of the pattern's characters alone.
pub uninterp spec fn regex_valid(pattern: Seq<char>) -> bool;

/// Whether a pattern matches anywhere in a text, as
/// `regex::Regex::is_match` decides it; the answer is a function of the
/// pattern's and the text's characters alone.
pub uninterp spec fn regex_match(pattern: Seq<char>, text: Seq<char>) -> bool;

/// Relies on `regex::Regex::new`, which compiles a pattern exactly when the
/// crate accepts it, and on `regex::Regex::is_match`, which reports whether
/// the compiled pattern matches anywhere in the text. Both results depend
/// only on the characters handed in.
#[verifier::external_body]
fn regex_is_match(pattern: &str, text: &str) -> (r: Option<bool>)
    ensures
        r is Some <==> regex_valid(pattern@),
        r matches Some(b) ==> b == regex_match(pattern@, text@),
{
    match regex::Regex::new(pattern) {
        Ok(re) => Some(re.is_match(text)),
        Err(_) => None,
    }
}

/// The subsequence of `files` that the pattern matches, in their order.
pub open spec fn matching(pattern: Seq<char>, files: Seq<Seq<char>>) -> Seq<Seq<char>>
    decreases files.len(),
{
    if files.len() == 0 {
        Seq::<Seq<char>>::empty()
    } else if regex_match(pattern, files.last()) {
        matching(pattern, files.drop_last()).push(files.last())
    } else {
        matching(pattern, files.drop_last())
    }
}

/// Keeps the files that the pattern matches; `None` exactly when the
/// pattern does not compile.
pub fn filter_matching(files: &Vec<String>, pattern: &str) -> (r: Option<Vec<String>>)
    ensures
        r is Some <==> regex_valid(pattern@),
        r matches Some(v) ==> v.deep_view() == matching(pattern@, files.deep_view()),
{
    let mut out: Vec<String> = Vec::new();
    let mut i: usize = 0;
    if regex_is_match(pattern, "").is_none() {
        return None;
    }
    while i < files.len()
        invariant
            regex_valid(pattern@),
            i <= files.len(),
            out.deep_view() == matching(pattern@, files.deep_view().subrange(0, i as int)),
        decreases files.len() - i,
    {
        let ghost prefix = files.deep_view().subrange(0, i as int);
        let matched = match regex_is_match(pattern, files[i].as_str()) {
            Some(b) => b,
            // The pattern compiled once above, so it compiles here too.
            None => vstd::pervasive::unreached(),
        };
        if matched {
            out.push(files[i].clone());
        }
        proof {
            let longer = files.deep_view().subrange(0, i + 1);
            assert(longer.drop_last() =~= prefix);
            assert(longer.last() == files.deep_view()[i as int]);
            if matched {
                assert(out.deep_view() =~= matching(pattern@, prefix).push(files@[i as int]@));
            }
        }
        i = i + 1;
    }
    proof {
        assert(files.deep_view().subrange(0, files.len() as int) =~= files.deep_view());
    }
    Some(out)
}

} // verus!
