//! The safety policy: the pure predicate deciding whether a candidate
//! account may be closed.

use vstd::prelude::*;

verus! {

/// Length in bytes of the fixed token-account encoding.
pub const TOKEN_ACCOUNT_DATA_LEN: usize = 165;

/// Byte offset of the little-endian token balance inside the payload.
pub const TOKEN_BALANCE_OFFSET: usize = 64;

/// Read-only snapshot of a ledger account, fetched once per scan.
pub struct AccountRecord {
    /// Identifier of the program that owns the account (32 bytes).
    pub owner: Vec<u8>,
    /// Raw byte payload of the account.
    pub data: Vec<u8>,
    /// Native-unit balance held by the account.
    pub lamports: u64,
}

/// The token balance stored at its fixed offset in a token-account payload.
pub open spec fn spec_token_amount(data: Seq<u8>) -> u64 {
    vstd::bytes::spec_u64_from_le_bytes(
        data.subrange(
            TOKEN_BALANCE_OFFSET as int,
            TOKEN_BALANCE_OFFSET as int + 8,
        ),
    )
}

/// The safety policy. An account is safe to close exactly when its address
/// is not on the operator whitelist, it is owned by the expected token
/// program, its payload has the fixed token-account size, and the token
/// balance stored in the payload is zero.
pub open spec fn spec_is_safe(
    address: Seq<u8>,
    owner: Seq<u8>,
    data: Seq<u8>,
    whitelist: Seq<Seq<u8>>,
    expected_owner: Seq<u8>,
) -> bool {
    &&& !whitelist.contains(address)
    &&& owner == expected_owner
    &&& data.len() == TOKEN_ACCOUNT_DATA_LEN
    &&& spec_token_amount(data) == 0
}

/// Byte-for-byte equality of two byte vectors.
pub fn bytes_eq(a: &Vec<u8>, b: &Vec<u8>) -> (r: bool)
    ensures
        r == (a@ == b@),
{
    if a.len() != b.len() {
        return false;
    }
    let mut i: usize = 0;
    while i < a.len()
        invariant
            i <= a@.len(),
            a@.len() == b@.len(),
            forall|j: int| 0 <= j < i ==> a@[j] == b@[j],
        decreases a@.len() - i,
    {
        if a[i] != b[i] {
            return false;
        }
        i = i + 1;
    }
    proof {
        assert(a@ =~= b@);
    }
    true
}

/// Whether the whitelist holds the given address.
pub fn contains_address(whitelist: &Vec<Vec<u8>>, address: &Vec<u8>) -> (r: bool)
    ensures
        r == whitelist.deep_view().contains(address@),
{
    let mut i: usize = 0;
    while i < whitelist.len()
        invariant
            i <= whitelist@.len(),
            forall|j: int| 0 <= j < i ==> whitelist.deep_view()[j] != address@,
        decreases whitelist@.len() - i,
    {
        let hit = bytes_eq(&whitelist[i], address);
        proof {
            assert(whitelist.deep_view()[i as int] =~= whitelist@[i as int]@);
        }
        if hit {
            return true;
        }
        i = i + 1;
    }
    proof {
        assert(!whitelist.deep_view().contains(address@)) by {
            if whitelist.deep_view().contains(address@) {
                let j = choose|j: int|
                    0 <= j < whitelist.deep_view().len()
                        && whitelist.deep_view()[j] == address@;
                assert(whitelist.deep_view()[j] != address@);
            }
        }
    }
    false
}

/// The token balance stored in a token-account payload.
pub fn read_token_amount(data: &Vec<u8>) -> (amount: u64)
    requires
        data@.len() >= TOKEN_BALANCE_OFFSET + 8,
    ensures
        amount == spec_token_amount(data@),
{
    let mut field: Vec<u8> = Vec::new();
    let mut i: usize = 0;
    while i < 8
        invariant
            i <= 8,
            data@.len() >= TOKEN_BALANCE_OFFSET + 8,
            field@ == data@.subrange(
                TOKEN_BALANCE_OFFSET as int,
                TOKEN_BALANCE_OFFSET as int + i,
            ),
        decreases 8 - i,
    {
        field.push(data[TOKEN_BALANCE_OFFSET + i]);
        proof {
            assert(field@ =~= data@.subrange(
                TOKEN_BALANCE_OFFSET as int,
                TOKEN_BALANCE_OFFSET as int + i + 1,
            ));
        }
        i = i + 1;
    }
    vstd::bytes::u64_from_le_bytes(field.as_slice())
}

/// Decide whether the account at `address` is safe to close: it must not be
/// whitelisted, must be owned by `expected_owner`, must carry a payload of
/// the fixed token-account size, and must hold a zero token balance.
pub fn is_safe_to_reclaim(
    address: &Vec<u8>,
    account: &AccountRecord,
    whitelist: &Vec<Vec<u8>>,
    expected_owner: &Vec<u8>,
) -> (safe: bool)
    ensures
        safe == spec_is_safe(
            address@,
            account.owner@,
            account.data@,
            whitelist.deep_view(),
            expected_owner@,
        ),
{
    if contains_address(whitelist, address) {
        return false;
    }
    if !bytes_eq(&account.owner, expected_owner) {
        return false;
    }
    if account.data.len() != TOKEN_ACCOUNT_DATA_LEN {
        return false;
    }
    let amount = read_token_amount(&account.data);
    amount == 0
}

/// Law: a whitelisted address is never safe to close, whatever the owner,
/// payload, or balance of its record.
pub proof fn lemma_whitelisted_never_safe(
    address: Seq<u8>,
    owner: Seq<u8>,
    data: Seq<u8>,
    whitelist: Seq<Seq<u8>>,
    expected_owner: Seq<u8>,
)
    requires
        whitelist.contains(address),
    ensures
        !spec_is_safe(address, owner, data, whitelist, expected_owner),
{
}

/// Law: a record with the wrong owning program or the wrong payload length
/// is never safe to close.
pub proof fn lemma_wrong_shape_never_safe(
    address: Seq<u8>,
    owner: Seq<u8>,
    data: Seq<u8>,
    whitelist: Seq<Seq<u8>>,
    expected_owner: Seq<u8>,
)
    requires
        owner != expected_owner || data.len() != TOKEN_ACCOUNT_DATA_LEN,
    ensures
        !spec_is_safe(address, owner, data, whitelist, expected_owner),
{
}

/// Law: for a non-whitelisted address with the expected owner and the fixed
/// payload size, safety is decided by the stored balance alone: zero is
/// safe, nonzero is not.
pub proof fn lemma_zero_balance_decides(
    address: Seq<u8>,
    owner: Seq<u8>,
    data: Seq<u8>,
    whitelist: Seq<Seq<u8>>,
    expected_owner: Seq<u8>,
)
    requires
        !whitelist.contains(address),
        owner == expected_owner,
        data.len() == TOKEN_ACCOUNT_DATA_LEN,
    ensures
        spec_is_safe(address, owner, data, whitelist, expected_owner)
            <==> spec_token_amount(data) == 0,
{
}

} // verus!
