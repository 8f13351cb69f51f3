//! The identifier of a session.
//!
//! Each run draws a fresh identifier. The plugin of the run carries it and
//! the listener of the run answers to no other, so that a plugin left over
//! from an earlier run cannot speak into this one.

use crate::text::{hex, lemma_hex_is_injective, push_hex};
use vstd::prelude::*;
use vstd::string::*;

verus! {

/// What every identifier begins with.
pub const SERVER_ID_HEAD: &'static str = "run-in-roblox-";

/// The identifier made from the number `n`: the fixed beginning, then `n`
/// in lower-case hexadecimal.
pub open spec fn server_id_of(n: u128) -> Seq<char> {
    SERVER_ID_HEAD@ + hex(n as nat)
}

/// A number drawn by `rand::random`. Nothing is known of it but its type.
#[verifier::external_body]
fn random_number() -> (n: u128) {
    rand::random::<u128>()
}

/// The identifier made from the number `n`.
pub fn server_id_for(n: u128) -> (id: String)
    ensures
        id@ == server_id_of(n),
{
    let mut id = String::from_str(SERVER_ID_HEAD);
    push_hex(&mut id, n);
    id
}

/// A fresh identifier: the one made from a number drawn at random.
pub fn generate_server_id() -> (id: String)
    ensures
        exists|n: u128| id@ == server_id_of(n),
{
    let n = random_number();
    let id = server_id_for(n);
    assert(id@ == server_id_of(n));
    id
}

/// Different numbers make different identifiers.
pub proof fn lemma_server_ids_differ(a: u128, b: u128)
    requires
        a != b,
    ensures
        server_id_of(a) != server_id_of(b),
{
    if server_id_of(a) == server_id_of(b) {
        let head = SERVER_ID_HEAD@.len() as int;
        let id_a = server_id_of(a);
        let id_b = server_id_of(b);
        assert(id_a.subrange(head, id_a.len() as int) =~= hex(a as nat));
        assert(id_b.subrange(head, id_b.len() as int) =~= hex(b as nat));
        lemma_hex_is_injective(a as nat, b as nat);
    }
}

} // verus!
