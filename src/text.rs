use vstd::prelude::*;

verus! {

/// Concatenation of texts may be regrouped freely.
pub broadcast proof fn lemma_text_assoc(a: Seq<char>, b: Seq<char>, c: Seq<char>)
    ensures
        #[trigger] (a + (b + c)) == (a + b) + c,
{
    assert(a + (b + c) =~= (a + b) + c);
}

/// Concatenation of sequences may be regrouped freely.
pub broadcast proof fn lemma_seq_assoc<A>(a: Seq<A>, b: Seq<A>, c: Seq<A>)
    ensures
        #[trigger] (a + (b + c)) == (a + b) + c,
{
    assert(a + (b + c) =~= (a + b) + c);
}

/// The text `a` followed by `b` followed by `c`.
pub fn cat3(a: &str, b: &str, c: &str) -> (r: String)
    ensures
        r@ == a@ + b@ + c@,
{
    let mut r = String::from_str(a);
    r.append(b);
    r.append(c);
    r
}

/// The text `a` followed by `b`.
pub fn cat2(a: &str, b: &str) -> (r: String)
    ensures
        r@ == a@ + b@,
{
    let mut r = String::from_str(a);
    r.append(b);
    r
}

/// Surrounds an optional text with a fixed prefix and suffix.
pub open spec fn wrap_spec(o: Option<Seq<char>>, pre: Seq<char>, post: Seq<char>) -> Option<Seq<char>> {
    match o {
        Some(t) => Some(pre + t + post),
        None => None,
    }
}

/// The view of an optional text.
pub open spec fn opt_view(o: Option<String>) -> Option<Seq<char>> {
    match o {
        Some(s) => Some(s@),
        None => None,
    }
}

pub fn wrap(o: Option<String>, pre: &str, post: &str) -> (r: Option<String>)
    ensures
        opt_view(r) == wrap_spec(opt_view(o), pre@, post@),
{
    match o {
        Some(t) => Some(cat3(pre, t.as_str(), post)),
        None => None,
    }
}

} // verus!
