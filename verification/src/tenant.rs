//! Names of the tenant's key-value maps.

use vstd::prelude::*;

verus! {

/// Lowercase hexadecimal digit for `n` (0..=15).
pub open spec fn hex_digit(n: u8) -> char {
    seq!['0', '1', '2', '3', '4', '5', '6', '7', '8', '9', 'a', 'b', 'c', 'd', 'e', 'f'][n as int]
}

/// Lowercase hexadecimal text of `data`: two digits per byte, high half first.
pub open spec fn lower_hex(data: Seq<u8>) -> Seq<char>
    decreases data.len(),
{
    if data.len() == 0 {
        Seq::empty()
    } else {
        lower_hex(data.drop_last()) + seq![hex_digit(data.last() / 16), hex_digit(data.last() % 16)]
    }
}

/// Calls `hex::encode`, which renders each byte as two lowercase hexadecimal
/// digits, high half first, in the order of the bytes; the contract claims
/// exactly that.
#[verifier::external_body]
fn hex_encode(data: &[u8]) -> (text: String)
    ensures
        text@ == lower_hex(data@),
{
    hex::encode(data)
}

/// Name of the tenant's invoice map: `z:<hex of the tenant DID>:invoices`.
pub fn invoices_map(tenant_did: &[u8]) -> (name: String)
    ensures
        name@ == "z:"@ + lower_hex(tenant_did@) + ":invoices"@,
{
    let mut name = "z:".to_owned();
    name.append(hex_encode(tenant_did).as_str());
    name.append(":invoices");
    name
}

/// Name of the tenant's secrets map: `z:<hex of the tenant DID>:secrets`.
pub fn secrets_map(tenant_did: &[u8]) -> (name: String)
    ensures
        name@ == "z:"@ + lower_hex(tenant_did@) + ":secrets"@,
{
    let mut name = "z:".to_owned();
    name.append(hex_encode(tenant_did).as_str());
    name.append(":secrets");
    name
}

} // verus!
