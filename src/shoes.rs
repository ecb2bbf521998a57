use vstd::prelude::*;

verus! {

/// A shoe record: a numeric size and a style label.
#[derive(PartialEq, Debug)]
pub struct Shoe {
    pub size: u32,
    pub style: String,
}

/// The shoes of `shoes`, in their order, whose size is `size`.
pub open spec fn of_size<'a>(shoes: Seq<&'a Shoe>, size: u32) -> Seq<&'a Shoe> {
    shoes.filter(|s: &'a Shoe| s.size == size)
}

/// How many of the first `n` shoes of `shoes` have size `size`.
pub open spec fn matches_before<'a>(shoes: Seq<&'a Shoe>, size: u32, n: int) -> nat {
    of_size(shoes.subrange(0, n), size).len()
}

proof fn lemma_of_size_push<'a>(shoes: Seq<&'a Shoe>, size: u32, i: int)
    requires
        0 <= i < shoes.len(),
    ensures
        of_size(shoes.subrange(0, i + 1), size) == if shoes[i].size == size {
            of_size(shoes.subrange(0, i), size).push(shoes[i])
        } else {
            of_size(shoes.subrange(0, i), size)
        },
{
    reveal(Seq::filter);
    assert(shoes.subrange(0, i + 1).drop_last() =~= shoes.subrange(0, i));
}

proof fn lemma_of_size_prefix<'a>(shoes: Seq<&'a Shoe>, size: u32, i: int, j: int)
    requires
        0 <= i <= j <= shoes.len(),
    ensures
        matches_before(shoes, size, i) <= matches_before(shoes, size, j),
        forall|k: int|
            0 <= k < matches_before(shoes, size, i) ==> #[trigger] of_size(
                shoes.subrange(0, i),
                size,
            )[k] == of_size(shoes.subrange(0, j), size)[k],
    decreases j - i,
{
    if i < j {
        lemma_of_size_prefix(shoes, size, i, j - 1);
        lemma_of_size_push(shoes, size, j - 1);
    }
}

/// Filtering by size keeps exactly the shoes of that size, in order: every
/// shoe of the result has the size, the result is no longer than the input,
/// and each input shoe of the size stands in the result at the position
/// given by the number of shoes of that size before it.
pub proof fn lemma_size_filter<'a>(shoes: Seq<&'a Shoe>, size: u32)
    ensures
        forall|k: int|
            0 <= k < of_size(shoes, size).len() ==> (#[trigger] of_size(shoes, size)[k]).size
                == size,
        of_size(shoes, size).len() <= shoes.len(),
        forall|i: int|
            0 <= i < shoes.len() && (#[trigger] shoes[i]).size == size ==> {
                &&& matches_before(shoes, size, i) < of_size(shoes, size).len()
                &&& of_size(shoes, size)[matches_before(shoes, size, i) as int] == shoes[i]
            },
{
    broadcast use Seq::lemma_filter_len, Seq::lemma_filter_pred;

    assert(shoes.subrange(0, shoes.len() as int) =~= shoes);
    assert forall|i: int| 0 <= i < shoes.len() && (#[trigger] shoes[i]).size == size implies {
        &&& matches_before(shoes, size, i) < of_size(shoes, size).len()
        &&& of_size(shoes, size)[matches_before(shoes, size, i) as int] == shoes[i]
    } by {
        lemma_of_size_push(shoes, size, i);
        lemma_of_size_prefix(shoes, size, i + 1, shoes.len() as int);
        let m = matches_before(shoes, size, i);
        assert(of_size(shoes.subrange(0, i + 1), size)[m as int] == shoes[i]);
    }
}

/// The references of `shoes` whose size equals `shoe_size`, in their
/// original order.
pub fn shoes_in_my_size<'a>(shoes: Vec<&'a Shoe>, shoe_size: u32) -> (r: Vec<&'a Shoe>)
    ensures
        r@ == of_size(shoes@, shoe_size),
{
    let mut r: Vec<&'a Shoe> = Vec::new();
    let mut i: usize = 0;
    while i < shoes.len()
        invariant
            i <= shoes@.len(),
            r@ == of_size(shoes@.subrange(0, i as int), shoe_size),
        decreases shoes@.len() - i,
    {
        let s: &'a Shoe = shoes[i];
        proof {
            lemma_of_size_push(shoes@, shoe_size, i as int);
        }
        if s.size == shoe_size {
            r.push(s);
        }
        i = i + 1;
    }
    assert(shoes@.subrange(0, shoes@.len() as int) =~= shoes@);
    r
}

} // verus!
