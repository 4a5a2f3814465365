//! Random paste identifiers: six characters drawn uniformly from a fixed
//! thirty-six symbol alphabet of lowercase letters and digits.

use vstd::prelude::*;
use rand::Rng;

verus! {

/// The fixed alphabet an identifier is drawn from: the lowercase ASCII
/// letters followed by the ten digits.
pub open spec fn id_alphabet() -> Seq<char> {
    "abcdefghijklmnopqrstuvwxyz0123456789"@
}

/// A well-formed identifier: exactly six characters, each taken from the
/// fixed alphabet.
pub open spec fn valid_id(id: Seq<char>) -> bool {
    &&& id.len() == 6
    &&& forall|i: int| 0 <= i < id.len() ==> id_alphabet().contains(#[trigger] id[i])
}

/// The alphabet has exactly thirty-six symbols, and every one of them is a
/// lowercase ASCII letter or a digit.
pub proof fn lemma_id_alphabet()
    ensures
        id_alphabet().len() == 36,
        forall|i: int| 0 <= i < 36 ==> {
            let c = #[trigger] id_alphabet()[i];
            ('a' <= c && c <= 'z') || ('0' <= c && c <= '9')
        },
{
    reveal_strlit("abcdefghijklmnopqrstuvwxyz0123456789");
}

/// Relies on rand::thread_rng and rand::Rng::gen_range: returns a uniformly
/// random index below `bound`. `gen_range` panics only on an empty range,
/// which the precondition rules out; nothing more can be promised of a
/// random draw.
#[verifier::external_body]
fn random_index(bound: usize) -> (r: usize)
    requires
        bound > 0,
    ensures
        r < bound,
{
    let mut rng = rand::thread_rng();
    rng.gen_range(0..bound)
}

/// Generates a random identifier: six characters, each drawn independently
/// from the fixed alphabet.
pub fn gen_id() -> (id: String)
    ensures
        valid_id(id@),
{
    let alphabet: &str = "abcdefghijklmnopqrstuvwxyz0123456789";
    proof {
        reveal_strlit("abcdefghijklmnopqrstuvwxyz0123456789");
    }
    let mut id = String::new();
    let mut k: usize = 0;
    while k < 6
        invariant
            k <= 6,
            id@.len() == k,
            alphabet@ == id_alphabet(),
            alphabet@.len() == 36,
            forall|i: int| 0 <= i < id@.len() ==> id_alphabet().contains(#[trigger] id@[i]),
        decreases 6 - k,
    {
        let idx = random_index(36);
        let piece = alphabet.substring_char(idx, idx + 1);
        proof {
            assert(piece@[0] == id_alphabet()[idx as int]);
            assert(id_alphabet().contains(id_alphabet()[idx as int]));
        }
        id.append(piece);
        k = k + 1;
    }
    id
}

} // verus!
