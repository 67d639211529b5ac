use vstd::prelude::*;

verus! {

/// The token of an `Authorization` header value of the form `Bearer <token>`,
/// where the token is not empty.
pub open spec fn bearer_of(header: Seq<char>) -> Option<Seq<char>> {
    if header.len() > 7 && header.take(7) == "Bearer "@ {
        Some(header.skip(7))
    } else {
        None
    }
}

/// Takes the token out of an `Authorization` header value.
pub fn extract_bearer_token(header: &str) -> (r: Option<String>)
    ensures
        match bearer_of(header@) {
            Some(t) => r matches Some(s) && s@ == t,
            None => r is None,
        },
{
    let prefix = "Bearer ";
    proof {
        reveal_strlit("Bearer ");
    }
    let n = header.unicode_len();
    if n <= 7 {
        return None;
    }
    let mut k: usize = 0;
    while k < 7
        invariant
            k <= 7,
            n == header@.len(),
            n > 7,
            prefix@ == "Bearer "@,
            prefix@.len() == 7,
            forall|j: int| 0 <= j < k ==> header@[j] == prefix@[j],
        decreases 7 - k,
    {
        if header.get_char(k) != prefix.get_char(k) {
            assert(header@.take(7)[k as int] != "Bearer "@[k as int]);
            return None;
        }
        k = k + 1;
    }
    assert(header@.take(7) =~= "Bearer "@);
    let token = header.substring_char(7, n);
    Some(token.to_owned())
}

} // verus!
