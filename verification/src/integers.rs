use crate::laws::{add_undoes_sub, is_one, is_zero};
use crate::series::{add_associates, add_commutes, mul_associates, mul_distributes};
use vstd::prelude::*;
use vstd::std_specs::ops::{AddSpec, MulSpec, SubSpec};

verus! {

/// The arithmetic of `i32` meets what the laws of this library ask of an
/// element type: it is exact where it does not overflow, `0` and `1` are its
/// zero and its one, and as a specification, which wraps around, it forms a
/// commutative ring.
pub proof fn lemma_i32_arithmetic()
    ensures
        add_undoes_sub::<i32>(),
        is_zero::<i32>(0),
        is_one::<i32>(1),
        add_commutes::<i32>(),
        add_associates::<i32>(),
        mul_associates::<i32>(),
        mul_distributes::<i32>(),
{
    assert forall|x: i32| #[trigger] x.mul_spec(1i32) == x by {
        assert(x * 1 == x);
    }
    assert forall|x: i32| #[trigger] 1i32.mul_spec(x) == x by {
        assert(1 * x == x);
    }
    assert forall|x: i32, y: i32, z: i32| #[trigger]
        x.add_spec(y).add_spec(z) == x.add_spec(y.add_spec(z)) by {
        assert(((x + y) as i32 + z) as i32 == (x + (y + z) as i32) as i32) by (bit_vector);
    }
    assert forall|x: i32, y: i32, z: i32| #[trigger]
        x.mul_spec(y).mul_spec(z) == x.mul_spec(y.mul_spec(z)) by {
        assert(((x * y) as i32 * z) as i32 == (x * (y * z) as i32) as i32) by (bit_vector);
    }
    assert forall|x: i32, y: i32, z: i32| #[trigger]
        x.mul_spec(y.add_spec(z)) == x.mul_spec(y).add_spec(x.mul_spec(z)) by {
        assert((x * (y + z) as i32) as i32 == ((x * y) as i32 + (x * z) as i32) as i32)
            by (bit_vector);
    }
    assert forall|x: i32, y: i32, z: i32| #[trigger]
        x.add_spec(y).mul_spec(z) == x.mul_spec(z).add_spec(y.mul_spec(z)) by {
        assert(((x + y) as i32 * z) as i32 == ((x * z) as i32 + (y * z) as i32) as i32)
            by (bit_vector);
    }
}

/// The arithmetic of `i64` meets what the laws of this library ask of an
/// element type, as that of `i32` does.
pub proof fn lemma_i64_arithmetic()
    ensures
        add_undoes_sub::<i64>(),
        is_zero::<i64>(0),
        is_one::<i64>(1),
        add_commutes::<i64>(),
        add_associates::<i64>(),
        mul_associates::<i64>(),
        mul_distributes::<i64>(),
{
    assert forall|x: i64| #[trigger] x.mul_spec(1i64) == x by {
        assert(x * 1 == x);
    }
    assert forall|x: i64| #[trigger] 1i64.mul_spec(x) == x by {
        assert(1 * x == x);
    }
    assert forall|x: i64, y: i64, z: i64| #[trigger]
        x.add_spec(y).add_spec(z) == x.add_spec(y.add_spec(z)) by {
        assert(((x + y) as i64 + z) as i64 == (x + (y + z) as i64) as i64) by (bit_vector);
    }
    assert forall|x: i64, y: i64, z: i64| #[trigger]
        x.mul_spec(y).mul_spec(z) == x.mul_spec(y.mul_spec(z)) by {
        assert(((x * y) as i64 * z) as i64 == (x * (y * z) as i64) as i64) by (bit_vector);
    }
    assert forall|x: i64, y: i64, z: i64| #[trigger]
        x.mul_spec(y.add_spec(z)) == x.mul_spec(y).add_spec(x.mul_spec(z)) by {
        assert((x * (y + z) as i64) as i64 == ((x * y) as i64 + (x * z) as i64) as i64)
            by (bit_vector);
    }
    assert forall|x: i64, y: i64, z: i64| #[trigger]
        x.add_spec(y).mul_spec(z) == x.mul_spec(z).add_spec(y.mul_spec(z)) by {
        assert(((x + y) as i64 * z) as i64 == ((x * z) as i64 + (y * z) as i64) as i64)
            by (bit_vector);
    }
}

} // verus!
