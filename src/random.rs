use vstd::prelude::*;

verus! {

/// Relies on rand's `thread_rng` and `Rng::choose`: `choose` returns `None`
/// for an empty slice and otherwise a reference to one of its elements,
/// picked uniformly at random. `thread_rng` panics only when the operating
/// system gives no entropy to seed it.
#[verifier::external_body]
pub(crate) fn choose_one(options: &[u32]) -> (r: Option<u32>)
    ensures
        r is None <==> options@.len() == 0,
        r matches Some(a) ==> options@.contains(a),
{
    rand::Rng::choose(&mut rand::thread_rng(), options).copied()
}

} // verus!
