//! Invitation tokens: short random codes printed on the invitations.
use vstd::prelude::*;
use vstd::string::*;
use rand::Rng;
use crate::models::{NewToken, is_random_uuid, new_random_id};
use crate::text::push_char;

verus! {

/// The characters a token is drawn from: letters of both cases and digits.
pub const CHARSET: &'static str = "ABCDEFGHIJKLMNOPQRSTUVWXYZabcdefghijklmnopqrstuvwxyz0123456789";

/// The number of characters in a token.
pub const TOKEN_LEN: usize = 5;

/// A uniformly drawn index below `bound`, from `rand::thread_rng()` and
/// `gen_range(0, bound)`, which rand documents as drawing from `[0, bound)`
/// and as panicking when the range is empty. The value drawn is not stated.
#[verifier::external_body]
fn random_below(bound: usize) -> (r: usize)
    requires
        0 < bound,
    ensures
        r < bound,
{
    rand::thread_rng().gen_range(0, bound)
}

/// `s` is a token: five characters of the token alphabet.
pub open spec fn is_invite_token(s: Seq<char>) -> bool {
    s.len() == TOKEN_LEN && forall|i: int| 0 <= i < s.len() ==> CHARSET@.contains(#[trigger] s[i])
}

/// The token spelled by `idx`: the character of the token alphabet at each
/// index in turn.
pub open spec fn token_of_indices(idx: Seq<usize>) -> Seq<char> {
    Seq::new(idx.len(), |i: int| CHARSET@[idx[i] as int])
}

/// The token spelled by the indices `idx` into the token alphabet.
pub fn token_from_indices(idx: &Vec<usize>) -> (r: String)
    requires
        forall|i: int| 0 <= i < idx@.len() ==> #[trigger] idx@[i] < CHARSET@.len(),
    ensures
        r@ == token_of_indices(idx@),
{
    let mut token = String::new();
    let mut i: usize = 0;
    while i < idx.len()
        invariant
            i <= idx@.len(),
            forall|j: int| 0 <= j < idx@.len() ==> #[trigger] idx@[j] < CHARSET@.len(),
            token@.len() == i,
            forall|j: int| 0 <= j < i ==> #[trigger] token@[j] == CHARSET@[idx@[j] as int],
        decreases idx@.len() - i,
    {
        let c = CHARSET.get_char(idx[i]);
        let ghost before = token@;
        push_char(&mut token, c);
        assert forall|j: int| 0 <= j < i + 1 implies #[trigger] token@[j] == CHARSET@[idx@[j] as int] by {
            if j < i {
                assert(token@[j] == before[j]);
            }
        }
        i = i + 1;
    }
    assert(token@ =~= token_of_indices(idx@));
    token
}

/// Draws a random token: five indices drawn uniformly from the token
/// alphabet, spelled out by `token_from_indices`.
pub fn generate_random_token() -> (r: String)
    ensures
        is_invite_token(r@),
{
    proof {
        reveal_strlit("ABCDEFGHIJKLMNOPQRSTUVWXYZabcdefghijklmnopqrstuvwxyz0123456789");
    }
    let n: usize = CHARSET.unicode_len();
    let mut idx: Vec<usize> = Vec::new();
    while idx.len() < TOKEN_LEN
        invariant
            n == CHARSET@.len(),
            n == 62,
            idx@.len() <= TOKEN_LEN,
            forall|j: int| 0 <= j < idx@.len() ==> #[trigger] idx@[j] < CHARSET@.len(),
        decreases TOKEN_LEN - idx@.len(),
    {
        idx.push(random_below(n));
    }
    let token = token_from_indices(&idx);
    assert forall|i: int| 0 <= i < token@.len() implies CHARSET@.contains(#[trigger] token@[i]) by {
        assert(token@[i] == CHARSET@[idx@[i] as int]);
    }
    token
}

/// A new invitation token row: a fresh random identifier and a random token.
pub fn new_token() -> (r: NewToken)
    ensures
        is_random_uuid(r.id),
        is_invite_token(r.token@),
{
    NewToken { id: new_random_id(), token: generate_random_token() }
}

/// `amount` new invitation token rows to store.
pub fn generate_tokens(amount: u32) -> (r: Vec<NewToken>)
    ensures
        r@.len() == amount,
        forall|i: int| 0 <= i < r@.len() ==> is_random_uuid(#[trigger] r@[i].id)
            && is_invite_token(r@[i].token@),
{
    let mut tokens: Vec<NewToken> = Vec::new();
    let mut k: u32 = 0;
    while k < amount
        invariant
            k <= amount,
            tokens@.len() == k,
            forall|i: int| 0 <= i < tokens@.len() ==> is_random_uuid(#[trigger] tokens@[i].id)
                && is_invite_token(tokens@[i].token@),
        decreases amount - k,
    {
        tokens.push(new_token());
        k = k + 1;
    }
    tokens
}

} // verus!
