use vstd::prelude::*;

use crate::domain::user::User;

verus! {

/// How a user is addressed: `@` and the username, else the first name.
pub open spec fn username_of(from: User) -> Seq<char> {
    match from.username {
        Some(u) => seq!['@'] + u@,
        None => from.first_name@,
    }
}

/// How a user is addressed.
pub fn get_username(from: &User) -> (s: String)
    ensures
        s@ == username_of(*from),
{
    match &from.username {
        Some(u) => {
            let mut s = String::from_str("@");
            proof {
                reveal_strlit("@");
            }
            s.append(u.as_str());
            s
        },
        None => from.first_name.clone(),
    }
}

} // verus!
