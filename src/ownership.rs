//! The naming convention that binds instances to users: an instance belongs
//! to the user whose name is the first `-`-delimited token of its name.
use vstd::prelude::*;

verus! {

/// Whether `s` holds a `-`.
pub open spec fn has_dash(s: Seq<char>) -> bool {
    exists|i: int| 0 <= i < s.len() && s[i] == '-'
}

/// The first `-`-delimited token of `name` is exactly `user`: `user` holds no
/// `-`, and `name` is `user` itself or starts with `user` followed by `-`.
pub open spec fn owned_by(name: Seq<char>, user: Seq<char>) -> bool {
    &&& !has_dash(user)
    &&& user.len() <= name.len()
    &&& name.subrange(0, user.len() as int) == user
    &&& (name.len() == user.len() || name[user.len() as int] == '-')
}

/// Whether instance `name` belongs to `user` by the naming convention.
pub fn is_owned_by(name: &str, user: &str) -> (r: bool)
    ensures
        r == owned_by(name@, user@),
{
    let n = name.unicode_len();
    let mut i: usize = 0;
    while i < n && name.get_char(i) != '-'
        invariant
            i <= n,
            n == name@.len(),
            forall|j: int| 0 <= j < i ==> name@[j] != '-',
        decreases n - i,
    {
        i = i + 1;
    }
    let token = name.substring_char(0, i).to_owned();
    let owner = user.to_owned();
    let r = token == owner;
    proof {
        let t = name@.subrange(0, i as int);
        if r {
            assert(t == user@);
            assert forall|j: int| 0 <= j < user@.len() implies user@[j] != '-' by {
                assert(user@[j] == t[j]);
            }
        }
        if owned_by(name@, user@) {
            let u = user@.len() as int;
            if i < u {
                assert(name@[i as int] == user@[i as int]);
                assert(user@[i as int] == '-');
            } else if i > u {
                assert(name@[u] == '-');
            }
            assert(t =~= user@);
        }
    }
    r
}

} // verus!
