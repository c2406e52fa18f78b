//! Names of the records that the backend keeps in its key-value store.
use vstd::prelude::*;

verus! {

/// The prefix under which cached user profiles are stored.
pub open spec fn profile_prefix() -> Seq<char> {
    seq!['p', 'r', 'o', 'f', 'i', 'l', 'e', ':']
}

/// The prefix under which the permanent per-user records are stored.
pub open spec fn user_prefix() -> Seq<char> {
    seq!['u', 's', 'e', 'r', ':']
}

/// The key of the sorted set that ranks all players.
pub open spec fn leaderboard_key_spec() -> Seq<char> {
    seq!['l', 'e', 'a', 'd', 'e', 'r', 'b', 'o', 'a', 'r', 'd']
}

/// Key of the cached profile of the user `id`: `profile:<id>`.
pub fn profile_key(id: &str) -> (key: String)
    ensures
        key@ == profile_prefix() + id@,
{
    let mut key = String::from_str("profile:");
    proof {
        reveal_strlit("profile:");
    }
    key.append(id);
    key
}

/// Key of the permanent record of the user `id` (refresh token and game
/// statistics): `user:<id>`.
pub fn user_key(id: &str) -> (key: String)
    ensures
        key@ == user_prefix() + id@,
{
    let mut key = String::from_str("user:");
    proof {
        reveal_strlit("user:");
    }
    key.append(id);
    key
}

/// The key of the leaderboard: `leaderboard`.
pub fn leaderboard_key() -> (key: String)
    ensures
        key@ == leaderboard_key_spec(),
{
    proof {
        reveal_strlit("leaderboard");
    }
    String::from_str("leaderboard")
}

/// Different users never share a record, and a cached profile never shares its
/// key with a permanent record.
pub proof fn lemma_keys_distinct(a: Seq<char>, b: Seq<char>)
    ensures
        profile_prefix() + a == profile_prefix() + b ==> a == b,
        user_prefix() + a == user_prefix() + b ==> a == b,
        profile_prefix() + a != user_prefix() + b,
{
    if profile_prefix() + a == profile_prefix() + b {
        assert(a =~= (profile_prefix() + a).skip(8));
        assert(b =~= (profile_prefix() + b).skip(8));
    }
    if user_prefix() + a == user_prefix() + b {
        assert(a =~= (user_prefix() + a).skip(5));
        assert(b =~= (user_prefix() + b).skip(5));
    }
    assert((profile_prefix() + a)[0] != (user_prefix() + b)[0]);
}

} // verus!
