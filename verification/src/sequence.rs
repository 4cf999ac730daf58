//! Mapping a sequence by a function that may fail.

use vstd::prelude::*;

verus! {

/// The images of `items` under `f`, in order; or, where `f` fails on some
/// item, the error of the first such item.
pub open spec fn try_map<A, B, E>(items: Seq<A>, f: spec_fn(A) -> Result<B, E>) -> Result<
    Seq<B>,
    E,
>
    decreases items.len(),
{
    if items.len() == 0 {
        Ok(Seq::empty())
    } else {
        match try_map(items.drop_last(), f) {
            Err(e) => Err(e),
            Ok(done) => match f(items.last()) {
                Err(e) => Err(e),
                Ok(image) => Ok(done.push(image)),
            },
        }
    }
}

/// One more item extends the images by its own, or brings the first error.
pub proof fn lemma_try_map_step<A, B, E>(items: Seq<A>, f: spec_fn(A) -> Result<B, E>, i: int)
    requires
        0 <= i < items.len(),
    ensures
        try_map(items.take(i + 1), f) == (match try_map(items.take(i), f) {
            Err(e) => Err(e),
            Ok(done) => match f(items[i]) {
                Err(e) => Err(e),
                Ok(image) => Ok(done.push(image)),
            },
        }),
{
    assert(items.take(i + 1).drop_last() == items.take(i));
    assert(items.take(i + 1).last() == items[i]);
}

/// An error on a prefix is the error on the whole.
pub proof fn lemma_try_map_fails_on<A, B, E>(
    items: Seq<A>,
    f: spec_fn(A) -> Result<B, E>,
    i: int,
)
    requires
        0 <= i <= items.len(),
        try_map(items.take(i), f) is Err,
    ensures
        try_map(items, f) == try_map(items.take(i), f),
    decreases items.len() - i,
{
    if i < items.len() {
        lemma_try_map_step(items, f, i);
        lemma_try_map_fails_on(items, f, i + 1);
    } else {
        assert(items.take(i) == items);
    }
}

/// Where `decode` undoes `encode` on every item, mapping by `decode` undoes
/// mapping by `encode`.
pub proof fn lemma_try_map_inverts<A, B, E>(
    items: Seq<A>,
    encode: spec_fn(A) -> B,
    decode: spec_fn(B) -> Result<A, E>,
)
    requires
        forall|i: int| 0 <= i < items.len() ==> decode(encode(#[trigger] items[i])) == Ok::<A, E>(
            items[i],
        ),
    ensures
        try_map(items.map_values(encode), decode) == Ok::<Seq<A>, E>(items),
    decreases items.len(),
{
    let coded = items.map_values(encode);
    if items.len() == 0 {
        assert(items =~= Seq::empty());
    } else {
        let front = items.drop_last();
        assert forall|i: int| 0 <= i < front.len() implies decode(encode(#[trigger] front[i]))
            == Ok::<A, E>(front[i]) by {
            assert(front[i] == items[i]);
        }
        lemma_try_map_inverts(front, encode, decode);
        assert(coded.drop_last() =~= front.map_values(encode));
        assert(coded.last() == encode(items.last()));
        assert(front.push(items.last()) =~= items);
    }
}

} // verus!
