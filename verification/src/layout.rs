//! The names under which the policy state is persisted.

use vstd::prelude::*;
use vstd::string::StringExecFns;
use casper_types::account::AccountHash;
use casper_types::Key;
use crate::identity::{Identity, IdentityKind};

verus! {

/// The slot that holds the administrator.
pub const ADMIN: &'static str = "admin";

/// The slot that holds the ceiling of `Safe` mode.
pub const MAX_TX_AMOUNT_SAFE: &'static str = "max_tx_amount_safe";

/// The slot that holds the ceiling of `Balanced` mode.
pub const MAX_TX_AMOUNT_BALANCED: &'static str = "max_tx_amount_balanced";

/// The slot that holds the set of approved targets.
pub const ALLOWED_CONTRACTS: &'static str = "allowed_contracts";

/// The tag that starts the name of every slot that holds an identity's mode.
pub const USER_MODE: &'static str = "user_mode";

/// The sixteen digits of lower-case hexadecimal, in order.
pub open spec fn hex_digits() -> Seq<char> {
    seq!['0', '1', '2', '3', '4', '5', '6', '7', '8', '9', 'a', 'b', 'c', 'd', 'e', 'f']
}

/// Bytes written in lower-case hexadecimal: two digits for each byte, the
/// high half first.
pub open spec fn lower_hex(bytes: Seq<u8>) -> Seq<char> {
    Seq::new(
        2 * bytes.len(),
        |i: int|
            if i % 2 == 0 {
                hex_digits()[bytes[i / 2] as int / 16]
            } else {
                hex_digits()[bytes[i / 2] as int % 16]
            },
    )
}

/// How an identity is written: the name of its kind of key, and its hash in
/// lower-case hexadecimal between round brackets.
pub open spec fn key_text(identity: Identity) -> Seq<char> {
    match identity.kind {
        IdentityKind::Account => "Key::Account("@ + lower_hex(identity.hash@) + ")"@,
        IdentityKind::Contract => "Key::Hash("@ + lower_hex(identity.hash@) + ")"@,
    }
}

/// The name of the slot that holds the mode of `user`: the tag, a colon, and
/// the identity as it is written.
pub open spec fn spec_user_mode_key(user: Identity) -> Seq<char> {
    USER_MODE@ + ":"@ + key_text(user)
}

/// Writes an account's key with the `Display` of `casper_types::Key`, on
/// `Key::Account`.
///
/// Trusted: that the text is `Key::Account(`, the 32 bytes of the hash in
/// lower-case hexadecimal, and `)`.
#[verifier::external_body]
fn account_key_text(hash: &[u8; 32]) -> (text: String)
    ensures
        text@ == "Key::Account("@ + lower_hex(hash@) + ")"@,
{
    Key::Account(AccountHash::new(*hash)).to_string()
}

/// Writes a contract's key with the `Display` of `casper_types::Key`, on
/// `Key::Hash`.
///
/// Trusted: that the text is `Key::Hash(`, the 32 bytes of the hash in
/// lower-case hexadecimal, and `)`.
#[verifier::external_body]
fn contract_key_text(hash: &[u8; 32]) -> (text: String)
    ensures
        text@ == "Key::Hash("@ + lower_hex(hash@) + ")"@,
{
    Key::Hash(*hash).to_string()
}

/// The name of the slot that holds the mode of `user`.
pub fn user_mode_key(user: &Identity) -> (name: String)
    ensures
        name@ == spec_user_mode_key(*user),
{
    let text = match user.kind {
        IdentityKind::Account => account_key_text(&user.hash),
        IdentityKind::Contract => contract_key_text(&user.hash),
    };
    let mut name = String::from_str(USER_MODE);
    name.append(":");
    name.append(text.as_str());
    name
}

/// The digits of lower-case hexadecimal are all different.
proof fn lemma_hex_digits_differ(i: int, j: int)
    requires
        0 <= i < 16,
        0 <= j < 16,
        hex_digits()[i] == hex_digits()[j],
    ensures
        i == j,
{
}

/// Different bytes are written differently in hexadecimal.
pub proof fn lemma_lower_hex_injective(a: Seq<u8>, b: Seq<u8>)
    requires
        lower_hex(a) == lower_hex(b),
    ensures
        a == b,
{
    assert(2 * a.len() == lower_hex(a).len() == lower_hex(b).len() == 2 * b.len());
    assert forall|k: int| 0 <= k < a.len() implies a[k] == b[k] by {
        assert(lower_hex(a)[2 * k] == hex_digits()[a[k] as int / 16]);
        assert(lower_hex(b)[2 * k] == hex_digits()[b[k] as int / 16]);
        assert(lower_hex(a)[2 * k + 1] == hex_digits()[a[k] as int % 16]);
        assert(lower_hex(b)[2 * k + 1] == hex_digits()[b[k] as int % 16]);
        lemma_hex_digits_differ(a[k] as int / 16, b[k] as int / 16);
        lemma_hex_digits_differ(a[k] as int % 16, b[k] as int % 16);
    }
}

/// What follows a common beginning is the same where the wholes are.
proof fn lemma_same_beginning(begin: Seq<char>, x: Seq<char>, y: Seq<char>)
    requires
        begin + x == begin + y,
    ensures
        x == y,
{
    assert(begin.len() + x.len() == (begin + x).len() == (begin + y).len() == begin.len() + y.len());
    assert forall|i: int| 0 <= i < x.len() implies x[i] == y[i] by {
        assert(x[i] == (begin + x)[begin.len() + i] == (begin + y)[begin.len() + i] == y[i]);
    }
}

/// What precedes a common ending is the same where the wholes are.
proof fn lemma_same_ending(x: Seq<char>, y: Seq<char>, end: Seq<char>)
    requires
        x + end == y + end,
    ensures
        x == y,
{
    assert(x.len() + end.len() == (x + end).len() == (y + end).len() == y.len() + end.len());
    assert forall|i: int| 0 <= i < x.len() implies x[i] == y[i] by {
        assert(x[i] == (x + end)[i] == (y + end)[i] == y[i]);
    }
}

/// Different identities are written differently.
pub proof fn lemma_key_text_injective(a: Identity, b: Identity)
    requires
        key_text(a) == key_text(b),
    ensures
        a == b,
{
    reveal_strlit("Key::Account(");
    reveal_strlit("Key::Hash(");
    reveal_strlit(")");
    assert(a.kind == b.kind) by {
        if a.kind != b.kind {
            assert(("Key::Account("@ + lower_hex(a.hash@) + ")"@).len() == 13 + 64 + 1);
            assert(("Key::Account("@ + lower_hex(b.hash@) + ")"@).len() == 13 + 64 + 1);
            assert(("Key::Hash("@ + lower_hex(a.hash@) + ")"@).len() == 10 + 64 + 1);
            assert(("Key::Hash("@ + lower_hex(b.hash@) + ")"@).len() == 10 + 64 + 1);
        }
    }
    let begin = match a.kind {
        IdentityKind::Account => "Key::Account("@,
        IdentityKind::Contract => "Key::Hash("@,
    };
    lemma_same_ending(begin + lower_hex(a.hash@), begin + lower_hex(b.hash@), ")"@);
    lemma_same_beginning(begin, lower_hex(a.hash@), lower_hex(b.hash@));
    lemma_lower_hex_injective(a.hash@, b.hash@);
    assert(a.hash =~= b.hash);
}

/// No two identities share a slot: different identities have their modes
/// under different names.
pub proof fn lemma_user_mode_key_injective(a: Identity, b: Identity)
    requires
        spec_user_mode_key(a) == spec_user_mode_key(b),
    ensures
        a == b,
{
    lemma_same_beginning(USER_MODE@ + ":"@, key_text(a), key_text(b));
    lemma_key_text_injective(a, b);
}

/// The slot of an identity's mode is none of the four fixed slots.
pub proof fn lemma_user_mode_key_is_no_fixed_slot(user: Identity)
    ensures
        spec_user_mode_key(user) != ADMIN@,
        spec_user_mode_key(user) != MAX_TX_AMOUNT_SAFE@,
        spec_user_mode_key(user) != MAX_TX_AMOUNT_BALANCED@,
        spec_user_mode_key(user) != ALLOWED_CONTRACTS@,
{
    reveal_strlit("admin");
    reveal_strlit("max_tx_amount_safe");
    reveal_strlit("max_tx_amount_balanced");
    reveal_strlit("allowed_contracts");
    assert(spec_user_mode_key(user).len() >= key_text(user).len());
}

} // verus!
