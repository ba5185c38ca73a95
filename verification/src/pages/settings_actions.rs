//! Reading a sign-in cookie out of a `Cookie` header.

use vstd::prelude::*;

use crate::text::{find_first, first_index_of, split_text, split_where, trim, trimmed, Separator};

verus! {

/// The value a `name=value` cookie piece gives `name`: the piece trimmed and
/// split at its first `=`; nothing when it has no `=`, names another cookie,
/// or its value is empty.
pub open spec fn cookie_of(piece: Seq<char>, name: Seq<char>) -> Option<Seq<char>> {
    let t = trimmed(piece);
    if exists|i: int| first_index_of(t, '=', i) {
        let i = choose|i: int| first_index_of(t, '=', i);
        if t.take(i) == name && t.skip(i + 1).len() > 0 {
            Some(t.skip(i + 1))
        } else {
            None
        }
    } else {
        None
    }
}

/// Whether `k` is the first of a header's pieces that gives `name` a value.
pub open spec fn first_cookie(pieces: Seq<Seq<char>>, name: Seq<char>, k: int) -> bool {
    &&& 0 <= k < pieces.len()
    &&& cookie_of(pieces[k], name) is Some
    &&& forall|j: int| 0 <= j < k ==> cookie_of(#[trigger] pieces[j], name) is None
}

/// The value of cookie `name` in a `Cookie` header: the first of its
/// `;`-separated pieces that gives it a non-empty value.
pub open spec fn cookie_value_spec(header: Seq<char>, name: Seq<char>) -> Option<Seq<char>> {
    let pieces = split_where(header, Separator::Semicolon);
    if exists|k: int| first_cookie(pieces, name, k) {
        cookie_of(pieces[choose|k: int| first_cookie(pieces, name, k)], name)
    } else {
        None
    }
}

fn cookie_in(piece: &str, name: &str) -> (r: Option<String>)
    ensures
        r.deep_view() == cookie_of(piece@, name@),
{
    let t = trim(piece);
    let i = match find_first(t, '=') {
        Some(i) => i,
        None => return None,
    };
    proof {
        let k = choose|k: int| first_index_of(t@, '=', k);
        assert(k == i);
    }
    let n = t.unicode_len();
    let key = t.substring_char(0, i);
    let value = t.substring_char(i + 1, n);
    assert(key@ =~= t@.take(i as int));
    assert(value@ =~= t@.skip(i + 1));
    if crate::text::same_text(key, name) && value.unicode_len() > 0 {
        Some(String::from_str(value))
    } else {
        None
    }
}

/// The value of cookie `name` in a `Cookie` header, by [`cookie_value_spec`].
pub fn cookie_value(header: &str, name: &str) -> (r: Option<String>)
    ensures
        r.deep_view() == cookie_value_spec(header@, name@),
{
    let pieces = split_text(header, Separator::Semicolon);
    let mut k: usize = 0;
    while k < pieces.len()
        invariant
            pieces.deep_view() == split_where(header@, Separator::Semicolon),
            k <= pieces@.len(),
            forall|j: int| 0 <= j < k ==> cookie_of(#[trigger] pieces.deep_view()[j], name@) is None,
        decreases pieces@.len() - k,
    {
        assert(pieces.deep_view()[k as int] == pieces@[k as int]@);
        let found = cookie_in(pieces[k].as_str(), name);
        if found.is_some() {
            proof {
                assert(first_cookie(pieces.deep_view(), name@, k as int));
                let c = choose|c: int| first_cookie(pieces.deep_view(), name@, c);
                assert(c == k);
            }
            return found;
        }
        k += 1;
    }
    None
}

} // verus!
