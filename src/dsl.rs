use vstd::prelude::*;
use vstd::string::StringSliceAdditionalSpecFns;
use vstd::utf8::{encode_utf8, is_char_boundary};

verus! {

/// Whether the bytes at `i` spell `bind!`.
pub open spec fn bind_at(b: Seq<u8>, i: int) -> bool {
    0 <= i && i + 5 <= b.len() && b[i] == 98u8 && b[i + 1] == 105u8 && b[i + 2] == 110u8
        && b[i + 3] == 100u8 && b[i + 4] == 33u8
}

/// The first position at or after `from` where `bind!` starts, or -1.
pub open spec fn bind_from(b: Seq<u8>, from: int) -> int
    decreases b.len() - from,
{
    if from < 0 || from + 5 > b.len() {
        -1
    } else if bind_at(b, from) {
        from
    } else {
        bind_from(b, from + 1)
    }
}

/// The first position at or after `from` that holds `{`, or -1.
pub open spec fn brace_from(b: Seq<u8>, from: int) -> int
    decreases b.len() - from,
{
    if from < 0 || from >= b.len() {
        -1
    } else if b[from] == 123u8 {
        from
    } else {
        brace_from(b, from + 1)
    }
}

/// The position at or after `from` of the `}` that brings the nesting depth,
/// `d` before `from`, back to zero, or -1.
pub open spec fn close_from(b: Seq<u8>, from: int, d: int) -> int
    decreases b.len() - from,
{
    if from < 0 || from >= b.len() {
        -1
    } else if b[from] == 123u8 {
        close_from(b, from + 1, d + 1)
    } else if b[from] == 125u8 {
        if d - 1 == 0 { from } else { close_from(b, from + 1, d - 1) }
    } else {
        close_from(b, from + 1, d)
    }
}

/// The byte positions of the braces that delimit the first `bind!` block.
pub open spec fn dsl_span(b: Seq<u8>) -> Option<(int, int)> {
    let s = bind_from(b, 0);
    if s < 0 {
        None
    } else {
        let o = brace_from(b, s);
        if o < 0 {
            None
        } else {
            let c = close_from(b, o, 0);
            if c < 0 { None } else { Some((o, c)) }
        }
    }
}

fn find_bind(b: &[u8]) -> (r: Option<usize>)
    ensures
        match r {
            Some(i) => bind_from(b@, 0) == i as int,
            None => bind_from(b@, 0) < 0,
        },
{
    let mut i: usize = 0;
    while i < b.len() && b.len() - i >= 5
        invariant
            bind_from(b@, 0) == bind_from(b@, i as int),
        decreases b@.len() - i,
    {
        if b[i] == 98u8 && b[i + 1] == 105u8 && b[i + 2] == 110u8 && b[i + 3] == 100u8 && b[i + 4] == 33u8 {
            return Some(i);
        }
        i = i + 1;
    }
    None
}

proof fn lemma_brace_found(b: Seq<u8>, from: int)
    requires
        brace_from(b, from) >= 0,
    ensures
        from <= brace_from(b, from) < b.len(),
        b[brace_from(b, from)] == 123u8,
    decreases b.len() - from,
{
    if b[from] != 123u8 {
        lemma_brace_found(b, from + 1);
    }
}

fn find_brace(b: &[u8], from: usize) -> (r: Option<usize>)
    ensures
        match r {
            Some(i) => brace_from(b@, from as int) == i as int && i < b@.len() && b@[i as int] == 123u8,
            None => brace_from(b@, from as int) < 0,
        },
{
    let mut i: usize = from;
    while i < b.len()
        invariant
            from <= i,
            brace_from(b@, from as int) == brace_from(b@, i as int),
        decreases b@.len() - i,
    {
        if b[i] == 123u8 {
            return Some(i);
        }
        i = i + 1;
    }
    None
}

fn find_close(b: &[u8], open: usize) -> (r: Option<usize>)
    requires
        open < b@.len(),
        b@[open as int] == 123u8,
    ensures
        match r {
            Some(i) => close_from(b@, open as int, 0) == i as int && open < i < b@.len(),
            None => close_from(b@, open as int, 0) < 0,
        },
{
    let n = b.len();
    let mut i: usize = open + 1;
    let mut d: usize = 1;
    while i < b.len()
        invariant
            open < i <= b@.len(),
            1 <= d <= i - open,
            close_from(b@, open as int, 0) == close_from(b@, i as int, d as int),
        decreases b@.len() - i,
    {
        if b[i] == 123u8 {
            d = d + 1;
        } else if b[i] == 125u8 {
            if d == 1 {
                return Some(i);
            }
            d = d - 1;
        }
        i = i + 1;
    }
    None
}

/// The text between the braces of the first `bind!` block of `source`, or
/// none where there is no such block or its braces are not balanced.
pub fn extract_dsl(source: &str) -> (r: Option<String>)
    ensures
        match dsl_span(source.spec_bytes()) {
            Some((o, c)) => if is_char_boundary(source.spec_bytes(), c)
                && is_char_boundary(source.spec_bytes().subrange(0, c), o + 1) {
                match r {
                    Some(s) => encode_utf8(s@) == source.spec_bytes().subrange(o + 1, c),
                    None => false,
                }
            } else {
                r is None
            },
            None => r is None,
        },
{
    let b = source.as_bytes();
    let s = match find_bind(b) {
        Some(s) => s,
        None => {
            return None;
        },
    };
    let o = match find_brace(b, s) {
        Some(o) => o,
        None => {
            return None;
        },
    };
    let c = match find_close(b, o) {
        Some(c) => c,
        None => {
            return None;
        },
    };
    if !source.is_char_boundary(c) {
        return None;
    }
    let (left, _) = source.split_at(c);
    if !left.is_char_boundary(o + 1) {
        return None;
    }
    let (_, inner) = left.split_at(o + 1);
    proof {
        assert(source.spec_bytes().subrange(0, c as int).subrange(o + 1, c as int)
            =~= source.spec_bytes().subrange(o + 1, c as int));
    }
    Some(String::from_str(inner))
}

} // verus!
