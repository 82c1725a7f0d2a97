//! Users: their records, and recovery phrases for new accounts.
use vstd::prelude::*;
use rand::Rng;
use rand_chacha::ChaCha20Rng;

verus! {

#[derive(Debug)]
pub struct UserExport {
    pub username: String,
    pub address: String,
}

#[derive(Debug)]
pub struct UserInfo {
    pub username: String,
    pub address: String,
}

#[verifier::external_type_specification]
#[verifier::external_body]
pub struct ExChaCha20Rng(ChaCha20Rng);

/// The English BIP-39 phrase of an entropy, its words separated by single
/// spaces.
pub uninterp spec fn mnemonic_phrase(entropy: Seq<u8>) -> Seq<char>;

/// Relies on `rand::Rng::fill` on a ChaCha20 generator: sixteen bytes
/// drawn from it.
#[verifier::external_body]
fn draw_entropy(rng: &mut ChaCha20Rng) -> (r: Vec<u8>)
    ensures
        r@.len() == 16,
{
    let mut entropy = [0u8; 16];
    rng.fill(&mut entropy);
    entropy.to_vec()
}

/// Relies on `bip39::Mnemonic::from_entropy` and its `Display`: the English
/// phrase of the entropy. Sixteen bytes is a length the crate accepts.
#[verifier::external_body]
fn phrase_of(entropy: &Vec<u8>) -> (r: String)
    requires
        entropy@.len() == 16,
    ensures
        r@ == mnemonic_phrase(entropy@),
{
    bip39::Mnemonic::from_entropy(entropy).unwrap().to_string()
}

/// A fresh twelve-word recovery phrase: the phrase of sixteen bytes drawn
/// from `rng`.
pub fn generate_mnemonic(rng: &mut ChaCha20Rng) -> (r: String)
    ensures
        exists|e: Seq<u8>| e.len() == 16 && r@ == #[trigger] mnemonic_phrase(e),
{
    let entropy = draw_entropy(rng);
    phrase_of(&entropy)
}

} // verus!
