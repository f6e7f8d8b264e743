//! The `repr(C)` layout of the DLPack ABI structs, computed from the sizes and
//! alignments of their fields the way a C compiler lays a struct out: each field
//! at the first offset past the previous one that its alignment divides, the
//! struct aligned as its most aligned field and padded to a multiple of that.
use vstd::prelude::*;

verus! {

/// Size and alignment, in bytes, of one field of a C struct.
#[derive(Clone, Copy, Debug, PartialEq, Eq, Structural)]
pub struct Field {
    pub size: usize,
    pub align: usize,
}

/// Where the fields of a C struct sit, and the struct's own size and alignment.
#[derive(Clone, Debug)]
pub struct StructLayout {
    pub offsets: Vec<usize>,
    pub size: usize,
    pub align: usize,
}

/// The layout of a value of type `T` as a field.
pub open spec fn field_of<T>() -> Field {
    Field { size: vstd::layout::size_of_as_usize::<T>(), align: vstd::layout::align_of_as_usize::<T>() }
}

/// A struct laid out from `fields`, taken as a field of an enclosing struct.
pub open spec fn struct_field(fields: Seq<Field>) -> Field {
    Field { size: struct_size(fields) as usize, align: struct_align(fields) as usize }
}

impl Field {
    /// The size and alignment of `T`.
    pub fn of<T>() -> (f: Field)
        ensures
            f == field_of::<T>(),
            f.size == vstd::layout::size_of::<T>(),
            f.align == vstd::layout::align_of::<T>(),
    {
        Field { size: core::mem::size_of::<T>(), align: core::mem::align_of::<T>() }
    }

    /// The size and alignment of a laid-out struct, as a field of another.
    pub fn of_struct(l: &StructLayout) -> (f: Field)
        ensures
            f.size == l.size,
            f.align == l.align,
    {
        Field { size: l.size, align: l.align }
    }
}

/// The least multiple of `a` that is at least `x` (for `x >= 0`, `a > 0`).
pub open spec fn round_up(x: int, a: int) -> int {
    if x % a == 0 {
        x
    } else {
        x + (a - x % a)
    }
}

/// Every field has a positive alignment.
pub open spec fn aligns_positive(fields: Seq<Field>) -> bool {
    forall|i: int| 0 <= i < fields.len() ==> #[trigger] fields[i].align > 0
}

/// The offset one past the end of the first `n` fields.
pub open spec fn fields_end(fields: Seq<Field>, n: nat) -> int
    decreases n,
{
    if n == 0 {
        0
    } else {
        round_up(fields_end(fields, (n - 1) as nat), fields[n - 1].align as int) + fields[n
            - 1].size
    }
}

/// The offset of field `i`.
pub open spec fn field_offset(fields: Seq<Field>, i: nat) -> int {
    round_up(fields_end(fields, i), fields[i as int].align as int)
}

/// The largest alignment among the first `n` fields, and at least 1.
pub open spec fn max_align(fields: Seq<Field>, n: nat) -> int
    decreases n,
{
    if n == 0 {
        1
    } else {
        let m = max_align(fields, (n - 1) as nat);
        if fields[n - 1].align > m {
            fields[n - 1].align as int
        } else {
            m
        }
    }
}

/// The alignment of the struct.
pub open spec fn struct_align(fields: Seq<Field>) -> int {
    max_align(fields, fields.len())
}

/// The size of the struct, trailing padding included.
pub open spec fn struct_size(fields: Seq<Field>) -> int {
    round_up(fields_end(fields, fields.len()), struct_align(fields))
}

impl StructLayout {
    /// This layout is the C layout of `fields`.
    pub open spec fn describes(&self, fields: Seq<Field>) -> bool {
        &&& self.offsets@.len() == fields.len()
        &&& forall|i: int|
            0 <= i < fields.len() ==> #[trigger] self.offsets@[i] == field_offset(fields, i as nat)
        &&& self.size == struct_size(fields)
        &&& self.align == struct_align(fields)
    }
}

proof fn lemma_round_up(x: int, a: int)
    requires
        x >= 0,
        a > 0,
    ensures
        x <= round_up(x, a) < x + a,
        round_up(x, a) % a == 0,
{
    assert(0 <= x % a < a) by (nonlinear_arith)
        requires
            a > 0,
    ;
    if x % a != 0 {
        assert((x + (a - x % a)) % a == 0) by (nonlinear_arith)
            requires
                a > 0,
        ;
    }
}

proof fn lemma_fields_end_grows(fields: Seq<Field>, i: nat, n: nat)
    requires
        aligns_positive(fields),
        i <= n <= fields.len(),
    ensures
        0 <= fields_end(fields, i) <= fields_end(fields, n),
    decreases n,
{
    if n > 0 {
        lemma_fields_end_nonneg(fields, (n - 1) as nat);
        lemma_round_up(fields_end(fields, (n - 1) as nat), fields[n - 1].align as int);
        if i < n {
            lemma_fields_end_grows(fields, i, (n - 1) as nat);
        }
    }
}

proof fn lemma_fields_end_nonneg(fields: Seq<Field>, n: nat)
    requires
        aligns_positive(fields),
        n <= fields.len(),
    ensures
        fields_end(fields, n) >= 0,
    decreases n,
{
    if n > 0 {
        lemma_fields_end_nonneg(fields, (n - 1) as nat);
        lemma_round_up(fields_end(fields, (n - 1) as nat), fields[n - 1].align as int);
    }
}

proof fn lemma_max_align(fields: Seq<Field>, n: nat)
    requires
        n <= fields.len(),
    ensures
        max_align(fields, n) >= 1,
        forall|i: int| 0 <= i < n ==> #[trigger] fields[i].align <= max_align(fields, n),
        max_align(fields, n) == 1 || exists|i: int|
            0 <= i < n && #[trigger] fields[i].align == max_align(fields, n),
    decreases n,
{
    if n > 0 {
        lemma_max_align(fields, (n - 1) as nat);
    }
}

fn round_up_checked(x: usize, a: usize) -> (r: Option<usize>)
    requires
        a > 0,
    ensures
        r matches Some(v) ==> v == round_up(x as int, a as int),
        r is None ==> round_up(x as int, a as int) > usize::MAX,
{
    let rem = x % a;
    if rem == 0 {
        Some(x)
    } else {
        x.checked_add(a - rem)
    }
}

/// Lays out a C struct with the given fields in order. Returns `None` exactly when
/// a field has alignment 0 or the struct would not fit in `usize`.
pub fn repr_c_layout(fields: &[Field]) -> (r: Option<StructLayout>)
    ensures
        r is Some <==> aligns_positive(fields@) && struct_size(fields@) <= usize::MAX,
        r matches Some(l) ==> l.describes(fields@),
{
    let n = fields.len();
    let mut offsets: Vec<usize> = Vec::new();
    let mut end: usize = 0;
    let mut align: usize = 1;
    let mut i: usize = 0;
    while i < n
        invariant
            n == fields@.len(),
            i <= n,
            forall|j: int| 0 <= j < i ==> #[trigger] fields@[j].align > 0,
            end == fields_end(fields@, i as nat),
            align == max_align(fields@, i as nat),
            offsets@.len() == i,
            forall|j: int|
                0 <= j < i ==> #[trigger] offsets@[j] == field_offset(fields@, j as nat),
        decreases n - i,
    {
        let f = fields[i];
        if f.align == 0 {
            return None;
        }
        let off = match round_up_checked(end, f.align) {
            Some(v) => v,
            None => {
                proof {
                    if aligns_positive(fields@) {
                        lemma_too_big(fields@, i as nat);
                    }
                }
                return None;
            },
        };
        let next = match off.checked_add(f.size) {
            Some(v) => v,
            None => {
                proof {
                    if aligns_positive(fields@) {
                        lemma_too_big(fields@, i as nat);
                    }
                }
                return None;
            },
        };
        offsets.push(off);
        if f.align > align {
            align = f.align;
        }
        end = next;
        i = i + 1;
    }
    proof {
        lemma_max_align(fields@, n as nat);
    }
    let size = match round_up_checked(end, align) {
        Some(v) => v,
        None => {
            return None;
        },
    };
    Some(StructLayout { offsets, size, align })
}

/// Where field `i` cannot be placed within `usize`, the struct does not fit either.
proof fn lemma_too_big(fields: Seq<Field>, i: nat)
    requires
        aligns_positive(fields),
        i < fields.len(),
        fields_end(fields, i + 1) > usize::MAX || field_offset(fields, i) > usize::MAX,
    ensures
        struct_size(fields) > usize::MAX,
{
    let n = fields.len();
    lemma_fields_end_nonneg(fields, i);
    lemma_round_up(fields_end(fields, i), fields[i as int].align as int);
    lemma_fields_end_grows(fields, i + 1, n);
    lemma_fields_end_nonneg(fields, n);
    lemma_max_align(fields, n);
    lemma_round_up(fields_end(fields, n), struct_align(fields));
}

/// A struct of at most `n` fields, each aligned to at most 8 bytes and at most
/// `bound` bytes large, takes at most `n * (bound + 8) + 8` bytes.
pub proof fn lemma_small_struct(fields: Seq<Field>, bound: int)
    requires
        bound >= 0,
        forall|i: int| 0 <= i < fields.len() ==> 0 < #[trigger] fields[i].align <= 8,
        forall|i: int| 0 <= i < fields.len() ==> #[trigger] fields[i].size <= bound,
    ensures
        aligns_positive(fields),
        1 <= struct_align(fields) <= 8,
        0 <= struct_size(fields) <= fields.len() * (bound + 8) + 8,
{
    let n = fields.len();
    lemma_bounded_end(fields, bound, n);
    lemma_max_align(fields, n);
    lemma_fields_end_nonneg(fields, n);
    lemma_round_up(fields_end(fields, n), struct_align(fields));
    assert(struct_align(fields) <= 8) by {
        if struct_align(fields) != 1 {
            let i = choose|i: int| 0 <= i < n && #[trigger] fields[i].align == struct_align(fields);
        }
    }
}

proof fn lemma_bounded_end(fields: Seq<Field>, bound: int, k: nat)
    requires
        bound >= 0,
        k <= fields.len(),
        forall|i: int| 0 <= i < fields.len() ==> 0 < #[trigger] fields[i].align <= 8,
        forall|i: int| 0 <= i < fields.len() ==> #[trigger] fields[i].size <= bound,
    ensures
        fields_end(fields, k) <= k * (bound + 8),
    decreases k,
{
    if k > 0 {
        let p = (k - 1) as nat;
        lemma_bounded_end(fields, bound, p);
        lemma_fields_end_nonneg(fields, p);
        lemma_round_up(fields_end(fields, p), fields[p as int].align as int);
        assert(p * (bound + 8) + (bound + 8) == k * (bound + 8)) by (nonlinear_arith)
            requires
                k == p + 1,
        ;
    }
}

/// The C layout rules hold of the computed layout: every field starts at an offset
/// that its alignment divides, no field overlaps the next, every field ends within
/// the struct, and the struct's size is a multiple of its alignment, which is at
/// least the alignment of every field.
pub proof fn lemma_repr_c_layout_sound(fields: Seq<Field>)
    requires
        aligns_positive(fields),
    ensures
        forall|i: int|
            0 <= i < fields.len() ==> #[trigger] field_offset(fields, i as nat) % (
            fields[i].align as int) == 0,
        forall|i: int|
            0 <= i < fields.len() - 1 ==> #[trigger] field_offset(fields, i as nat)
                + fields[i].size <= field_offset(fields, (i + 1) as nat),
        forall|i: int|
            0 <= i < fields.len() ==> #[trigger] field_offset(fields, i as nat)
                + fields[i].size <= struct_size(fields),
        struct_size(fields) % struct_align(fields) == 0,
        forall|i: int| 0 <= i < fields.len() ==> #[trigger] fields[i].align <= struct_align(fields),
{
    let n = fields.len();
    lemma_max_align(fields, n);
    lemma_fields_end_nonneg(fields, n);
    lemma_round_up(fields_end(fields, n), struct_align(fields));
    assert forall|i: int| 0 <= i < n implies #[trigger] field_offset(fields, i as nat) % (
    fields[i].align as int) == 0 by {
        lemma_fields_end_nonneg(fields, i as nat);
        lemma_round_up(fields_end(fields, i as nat), fields[i].align as int);
    }
    assert forall|i: int| 0 <= i < n - 1 implies #[trigger] field_offset(fields, i as nat)
        + fields[i].size <= field_offset(fields, (i + 1) as nat) by {
        lemma_fields_end_nonneg(fields, (i + 1) as nat);
        lemma_round_up(fields_end(fields, (i + 1) as nat), fields[i + 1].align as int);
    }
    assert forall|i: int| 0 <= i < n implies #[trigger] field_offset(fields, i as nat)
        + fields[i].size <= struct_size(fields) by {
        lemma_fields_end_grows(fields, (i + 1) as nat, n);
    }
}

} // verus!
