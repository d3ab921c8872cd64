use vstd::prelude::*;

use crate::error::DecoderError;

verus! {

/// Length of the reference token.
pub const REFERENCE_TOKEN_LEN: usize = 32;

/// Number of reference features whose shapes are fixed.
pub const REFERENCE_FEATURES: usize = 4;

/// Product of the dimensions of a shape; the empty shape holds one element.
pub open spec fn product(shape: Seq<usize>) -> nat
    decreases shape.len(),
{
    if shape.len() == 0 {
        1
    } else {
        product(shape.drop_last()) * (shape.last() as nat)
    }
}

/// Channels of the expected shape of reference feature `i`.
pub open spec fn expected_channels(i: int) -> usize {
    if i == 0 {
        128
    } else if i == 1 {
        256
    } else {
        512
    }
}

/// Height and width of the expected shape of reference feature `i`.
pub open spec fn expected_side(i: int) -> usize {
    if i == 0 {
        64
    } else if i == 1 {
        32
    } else if i == 2 {
        16
    } else {
        8
    }
}

/// Expected shape of reference feature `i`: `[1, channels, side, side]`.
pub open spec fn expected_shape(i: int) -> Seq<usize> {
    seq![1usize, expected_channels(i), expected_side(i), expected_side(i)]
}

/// The error that validating reference data with these feature shapes and this token
/// length reports, if any: the first of the leading features whose shape differs from
/// the expected one, else a token of the wrong length. Features past the fixed ones are
/// not checked.
pub open spec fn reference_error(shapes: Seq<Seq<usize>>, token_len: nat) -> Option<DecoderError> {
    if exists|i: int| 0 <= i < shapes.len() && i < REFERENCE_FEATURES && shapes[i] != expected_shape(i) {
        let i = choose|i: int|
            0 <= i < shapes.len() && i < REFERENCE_FEATURES && shapes[i] != expected_shape(i) && forall|j: int|
                0 <= j < i ==> shapes[j] == expected_shape(j);
        Some(DecoderError::ShapeValidationFailure { feature: i as usize })
    } else if token_len != REFERENCE_TOKEN_LEN {
        Some(DecoderError::TokenLengthMismatch { actual: token_len as usize })
    } else {
        None
    }
}

proof fn lemma_product_zero(shape: Seq<usize>, i: int)
    requires
        0 <= i < shape.len(),
        shape[i] == 0,
    ensures
        product(shape) == 0,
    decreases shape.len(),
{
    let p = product(shape.drop_last());
    if i < shape.len() - 1 {
        lemma_product_zero(shape.drop_last(), i);
        assert(p == 0);
    } else {
        assert(shape.last() == 0);
    }
    assert(p * (shape.last() as nat) == 0) by (nonlinear_arith)
        requires
            p == 0 || shape.last() == 0,
    ;
}

proof fn lemma_product_monotone(shape: Seq<usize>, k: int)
    requires
        0 <= k <= shape.len(),
        forall|j: int| 0 <= j < shape.len() ==> shape[j] != 0,
    ensures
        product(shape.take(k)) <= product(shape),
    decreases shape.len() - k,
{
    if k < shape.len() {
        assert(shape.take(k + 1).drop_last() =~= shape.take(k));
        let p = product(shape.take(k));
        let d = shape[k] as int;
        assert(p <= p * d) by (nonlinear_arith)
            requires
                d >= 1,
                p >= 0,
        ;
        lemma_product_monotone(shape, k + 1);
    } else {
        assert(shape.take(k) =~= shape);
    }
}

/// The number of elements of a tensor of this shape; `None` when it does not fit in `usize`.
pub fn element_count(shape: &Vec<usize>) -> (r: Option<usize>)
    ensures
        match r {
            Some(n) => n == product(shape@),
            None => product(shape@) > usize::MAX,
        },
{
    let mut z: usize = 0;
    while z < shape.len()
        invariant
            z <= shape@.len(),
            forall|j: int| 0 <= j < z ==> shape@[j] != 0,
        decreases shape@.len() - z,
    {
        if shape[z] == 0 {
            proof {
                lemma_product_zero(shape@, z as int);
            }
            return Some(0);
        }
        z = z + 1;
    }
    let mut acc: usize = 1;
    let mut i: usize = 0;
    while i < shape.len()
        invariant
            i <= shape@.len(),
            acc == product(shape@.take(i as int)),
            forall|j: int| 0 <= j < shape@.len() ==> shape@[j] != 0,
        decreases shape@.len() - i,
    {
        assert(shape@.take(i as int + 1).drop_last() =~= shape@.take(i as int));
        match acc.checked_mul(shape[i]) {
            Some(next) => {
                acc = next;
            },
            None => {
                proof {
                    lemma_product_monotone(shape@, i + 1);
                }
                return None;
            },
        }
        i = i + 1;
    }
    assert(shape@.take(i as int) =~= shape@);
    Some(acc)
}

/// Whether a tensor of `len` elements can take this shape.
pub fn reshape_fits(new_shape: &Vec<usize>, len: usize) -> (r: bool)
    ensures
        r == (product(new_shape@) == len),
{
    match element_count(new_shape) {
        Some(n) => n == len,
        None => false,
    }
}

fn expected_dim(feature: usize, d: usize) -> (r: usize)
    requires
        d < 4,
    ensures
        r == expected_shape(feature as int)[d as int],
{
    if d == 0 {
        1
    } else if d == 1 {
        if feature == 0 {
            128
        } else if feature == 1 {
            256
        } else {
            512
        }
    } else if feature == 0 {
        64
    } else if feature == 1 {
        32
    } else if feature == 2 {
        16
    } else {
        8
    }
}

/// Whether `shape` is the expected shape of reference feature `feature`.
pub fn shape_matches(feature: usize, shape: &Vec<usize>) -> (r: bool)
    ensures
        r == (shape@ == expected_shape(feature as int)),
{
    if shape.len() != 4 {
        return false;
    }
    let mut d: usize = 0;
    while d < 4
        invariant
            d <= 4,
            shape@.len() == 4,
            forall|j: int| 0 <= j < d ==> shape@[j] == expected_shape(feature as int)[j],
        decreases 4 - d,
    {
        if shape[d] != expected_dim(feature, d) {
            return false;
        }
        d = d + 1;
    }
    assert(shape@ =~= expected_shape(feature as int));
    true
}

/// Checks reference data, given the shapes of its features and the length of its token,
/// against the fixed expected shapes and token length; see `reference_error`.
pub fn validate_reference(shapes: &Vec<Vec<usize>>, token_len: usize) -> (r: Result<(), DecoderError>)
    ensures
        match reference_error(shapes@.map_values(|v: Vec<usize>| v@), token_len as nat) {
            Some(e) => r == Err::<(), DecoderError>(e),
            None => r is Ok,
        },
{
    let ghost views = shapes@.map_values(|v: Vec<usize>| v@);
    let mut i: usize = 0;
    while i < shapes.len() && i < REFERENCE_FEATURES
        invariant
            i <= shapes@.len(),
            i <= REFERENCE_FEATURES,
            views == shapes@.map_values(|v: Vec<usize>| v@),
            forall|j: int| 0 <= j < i ==> views[j] == expected_shape(j),
        decreases shapes@.len() - i,
    {
        if !shape_matches(i, &shapes[i]) {
            proof {
                let w = i as int;
                assert(0 <= w < views.len() && w < REFERENCE_FEATURES && views[w] != expected_shape(w));
                let c = choose|k: int|
                    0 <= k < views.len() && k < REFERENCE_FEATURES && views[k] != expected_shape(k)
                        && forall|j: int| 0 <= j < k ==> views[j] == expected_shape(j);
                assert(c == w) by {
                    if c < w {
                        assert(views[c] == expected_shape(c));
                    }
                    if c > w {
                        assert(views[w] == expected_shape(w));
                    }
                }
            }
            return Err(DecoderError::ShapeValidationFailure { feature: i });
        }
        i = i + 1;
    }
    proof {
        assert forall|k: int|
            0 <= k < views.len() && k < REFERENCE_FEATURES implies views[k] == expected_shape(k) by {
        }
    }
    if token_len != REFERENCE_TOKEN_LEN {
        return Err(DecoderError::TokenLengthMismatch { actual: token_len });
    }
    Ok(())
}

} // verus!
