//! Small text assembly helpers for the builders.
use vstd::prelude::*;
use vstd::string::*;
use crate::text::join;

verus! {

/// The parts laid end to end.
pub fn build_string_from_parts(parts: Vec<&str>) -> (r: String)
    ensures
        r@ == join(parts@.map_values(|p: &str| p@), Seq::empty()),
{
    let ghost texts = parts@.map_values(|p: &str| p@);
    let mut result = String::new();
    let mut i: usize = 0;
    while i < parts.len()
        invariant
            texts == parts@.map_values(|p: &str| p@),
            i <= parts@.len(),
            result@ == join(texts.take(i as int), Seq::empty()),
        decreases parts@.len() - i,
    {
        assert(texts.take(i + 1).drop_last() =~= texts.take(i as int));
        result.append(parts[i]);
        proof {
            if i == 0 {
                assert(texts.take(0) =~= Seq::<Seq<char>>::empty());
            }
            assert(result@ =~= join(texts.take(i + 1), Seq::empty()));
        }
        i = i + 1;
    }
    assert(texts.take(parts@.len() as int) =~= texts);
    result
}

} // verus!
