//! The default-avatar policy: a fixed enumerated set of built-in avatar
//! paths, one of which is chosen uniformly at random when a creation supplies
//! no avatar.

use vstd::prelude::*;

verus! {

/// How many built-in avatar images there are: the default set holds
/// `/api/images/avatars/{n}.png` for `n` in `1 ..= AVATAR_COUNT`.
pub const AVATAR_COUNT: i32 = 20;

/// The path of built-in avatar image `n`.
pub open spec fn default_avatar_path(n: int) -> Seq<char> {
    if n == 1 {
        "/api/images/avatars/1.png"@
    } else if n == 2 {
        "/api/images/avatars/2.png"@
    } else if n == 3 {
        "/api/images/avatars/3.png"@
    } else if n == 4 {
        "/api/images/avatars/4.png"@
    } else if n == 5 {
        "/api/images/avatars/5.png"@
    } else if n == 6 {
        "/api/images/avatars/6.png"@
    } else if n == 7 {
        "/api/images/avatars/7.png"@
    } else if n == 8 {
        "/api/images/avatars/8.png"@
    } else if n == 9 {
        "/api/images/avatars/9.png"@
    } else if n == 10 {
        "/api/images/avatars/10.png"@
    } else if n == 11 {
        "/api/images/avatars/11.png"@
    } else if n == 12 {
        "/api/images/avatars/12.png"@
    } else if n == 13 {
        "/api/images/avatars/13.png"@
    } else if n == 14 {
        "/api/images/avatars/14.png"@
    } else if n == 15 {
        "/api/images/avatars/15.png"@
    } else if n == 16 {
        "/api/images/avatars/16.png"@
    } else if n == 17 {
        "/api/images/avatars/17.png"@
    } else if n == 18 {
        "/api/images/avatars/18.png"@
    } else if n == 19 {
        "/api/images/avatars/19.png"@
    } else {
        "/api/images/avatars/20.png"@
    }
}

/// Membership in the fixed enumerated set of default avatar paths.
pub open spec fn is_default_avatar(s: Seq<char>) -> bool {
    exists|n: int| 1 <= n <= AVATAR_COUNT && s == default_avatar_path(n)
}

/// Relies on rand's `random_range` over the thread-local generator: the
/// result lies within the given range, and the range `1..=AVATAR_COUNT` is
/// not empty, so no input provokes a panic — only a failing operating-system
/// randomness source can. The pick is random, so no more is promised of it.
#[verifier::external_body]
pub(crate) fn pick_avatar_index() -> (n: i32)
    ensures
        1 <= n <= AVATAR_COUNT,
{
    rand::random_range(1..=AVATAR_COUNT)
}

/// Every default avatar path is a real path: none of them is empty.
pub proof fn lemma_default_avatar_nonempty(s: Seq<char>)
    requires
        is_default_avatar(s),
    ensures
        s.len() > 0,
{
    reveal_strlit("/api/images/avatars/1.png");
    reveal_strlit("/api/images/avatars/2.png");
    reveal_strlit("/api/images/avatars/3.png");
    reveal_strlit("/api/images/avatars/4.png");
    reveal_strlit("/api/images/avatars/5.png");
    reveal_strlit("/api/images/avatars/6.png");
    reveal_strlit("/api/images/avatars/7.png");
    reveal_strlit("/api/images/avatars/8.png");
    reveal_strlit("/api/images/avatars/9.png");
    reveal_strlit("/api/images/avatars/10.png");
    reveal_strlit("/api/images/avatars/11.png");
    reveal_strlit("/api/images/avatars/12.png");
    reveal_strlit("/api/images/avatars/13.png");
    reveal_strlit("/api/images/avatars/14.png");
    reveal_strlit("/api/images/avatars/15.png");
    reveal_strlit("/api/images/avatars/16.png");
    reveal_strlit("/api/images/avatars/17.png");
    reveal_strlit("/api/images/avatars/18.png");
    reveal_strlit("/api/images/avatars/19.png");
    reveal_strlit("/api/images/avatars/20.png");
}

/// A uniformly chosen member of the default avatar set.
pub fn random_avatar_url() -> (r: String)
    ensures
        is_default_avatar(r@),
        r@.len() > 0,
{
    let n: i32 = pick_avatar_index();
    let r = avatar_url_for(n);
    proof {
        lemma_default_avatar_nonempty(r@);
    }
    r
}

/// The path of built-in avatar image `n`, as a string.
pub fn avatar_url_for(n: i32) -> (r: String)
    requires
        1 <= n <= AVATAR_COUNT,
    ensures
        r@ == default_avatar_path(n as int),
        is_default_avatar(r@),
{
    let s: &str = if n == 1 {
        "/api/images/avatars/1.png"
    } else if n == 2 {
        "/api/images/avatars/2.png"
    } else if n == 3 {
        "/api/images/avatars/3.png"
    } else if n == 4 {
        "/api/images/avatars/4.png"
    } else if n == 5 {
        "/api/images/avatars/5.png"
    } else if n == 6 {
        "/api/images/avatars/6.png"
    } else if n == 7 {
        "/api/images/avatars/7.png"
    } else if n == 8 {
        "/api/images/avatars/8.png"
    } else if n == 9 {
        "/api/images/avatars/9.png"
    } else if n == 10 {
        "/api/images/avatars/10.png"
    } else if n == 11 {
        "/api/images/avatars/11.png"
    } else if n == 12 {
        "/api/images/avatars/12.png"
    } else if n == 13 {
        "/api/images/avatars/13.png"
    } else if n == 14 {
        "/api/images/avatars/14.png"
    } else if n == 15 {
        "/api/images/avatars/15.png"
    } else if n == 16 {
        "/api/images/avatars/16.png"
    } else if n == 17 {
        "/api/images/avatars/17.png"
    } else if n == 18 {
        "/api/images/avatars/18.png"
    } else if n == 19 {
        "/api/images/avatars/19.png"
    } else {
        "/api/images/avatars/20.png"
    };
    let r = s.to_owned();
    proof {
        assert(1 <= n as int <= AVATAR_COUNT && r@ == default_avatar_path(n as int));
    }
    r
}

} // verus!
