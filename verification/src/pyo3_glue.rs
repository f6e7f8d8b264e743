//! The logic of the `__dlpack__` capsule exchange, apart from the Python calls:
//! which name a capsule carries, which names a consumer accepts and what it
//! renames them to, when a capsule's destructor must run the producer's deleter,
//! and the imported tensor's metadata.
//!
//! A producer hands over a capsule named `dltensor` (legacy) or
//! `dltensor_versioned` (DLPack 1.0). A consumer accepts either, renames it to
//! `used_dltensor` / `used_dltensor_versioned` and from then on owns the managed
//! tensor: it runs the deleter when it lets go. The capsule's destructor runs
//! the deleter only while the capsule still carries its unconsumed name.
use crate::ffi::{DLDataType, DLDevice, DLTensor};
use vstd::prelude::*;

verus! {

/// Which DLPack protocol variant a capsule carries.
#[derive(Clone, Copy, Debug, PartialEq, Eq, Structural)]
pub enum DLPackVariant {
    /// Legacy `DLManagedTensor` capsule named `dltensor`.
    Legacy,
    /// Versioned `DLManagedTensorVersioned` capsule named `dltensor_versioned`.
    Versioned,
}

/// The names a DLPack capsule carries in its lifetime.
#[derive(Clone, Copy, Debug, PartialEq, Eq, Structural)]
pub enum CapsuleName {
    /// `dltensor`
    DlTensor,
    /// `dltensor_versioned`
    DlTensorVersioned,
    /// `used_dltensor`
    UsedDlTensor,
    /// `used_dltensor_versioned`
    UsedDlTensorVersioned,
}

/// Why a consumer refuses a capsule.
#[derive(Clone, Copy, Debug, PartialEq, Eq, Structural)]
pub enum CapsuleNameError {
    /// The capsule has no name.
    MissingName,
    /// The capsule's name is neither `dltensor` nor `dltensor_versioned`.
    UnexpectedName,
}

/// The ASCII bytes of `dltensor`.
pub open spec fn dltensor_bytes() -> Seq<u8> {
    seq![100u8, 108u8, 116u8, 101u8, 110u8, 115u8, 111u8, 114u8]
}

/// The ASCII bytes of `_versioned`.
pub open spec fn versioned_suffix() -> Seq<u8> {
    seq![95u8, 118u8, 101u8, 114u8, 115u8, 105u8, 111u8, 110u8, 101u8, 100u8]
}

/// The ASCII bytes of `used_`.
pub open spec fn used_prefix() -> Seq<u8> {
    seq![117u8, 115u8, 101u8, 100u8, 95u8]
}

impl CapsuleName {
    /// The name's bytes, without a terminating NUL.
    pub open spec fn spec_bytes(self) -> Seq<u8> {
        match self {
            CapsuleName::DlTensor => dltensor_bytes(),
            CapsuleName::DlTensorVersioned => dltensor_bytes() + versioned_suffix(),
            CapsuleName::UsedDlTensor => used_prefix() + dltensor_bytes(),
            CapsuleName::UsedDlTensorVersioned => used_prefix() + dltensor_bytes()
                + versioned_suffix(),
        }
    }

    /// The name that `bytes` spells, if it is one of the four.
    pub open spec fn parse(bytes: Seq<u8>) -> Option<CapsuleName> {
        if bytes == CapsuleName::DlTensor.spec_bytes() {
            Some(CapsuleName::DlTensor)
        } else if bytes == CapsuleName::DlTensorVersioned.spec_bytes() {
            Some(CapsuleName::DlTensorVersioned)
        } else if bytes == CapsuleName::UsedDlTensor.spec_bytes() {
            Some(CapsuleName::UsedDlTensor)
        } else if bytes == CapsuleName::UsedDlTensorVersioned.spec_bytes() {
            Some(CapsuleName::UsedDlTensorVersioned)
        } else {
            None
        }
    }

    /// The name's bytes, without a terminating NUL.
    pub fn bytes(self) -> (r: Vec<u8>)
        ensures
            r@ == self.spec_bytes(),
    {
        let mut r: Vec<u8> = Vec::new();
        match self {
            CapsuleName::UsedDlTensor | CapsuleName::UsedDlTensorVersioned => {
                push_bytes(&mut r, &[117u8, 115u8, 101u8, 100u8, 95u8]);  // "used_"
            },
            _ => {},
        }
        // "dltensor"
        push_bytes(&mut r, &[100u8, 108u8, 116u8, 101u8, 110u8, 115u8, 111u8, 114u8]);
        match self {
            CapsuleName::DlTensorVersioned | CapsuleName::UsedDlTensorVersioned => {
                // "_versioned"
                push_bytes(
                    &mut r,
                    &[95u8, 118u8, 101u8, 114u8, 115u8, 105u8, 111u8, 110u8, 101u8, 100u8],
                );
            },
            _ => {},
        }
        assert(r@ =~= self.spec_bytes());
        r
    }

    /// Reads a capsule name from its bytes (without the terminating NUL).
    pub fn from_bytes(name: &[u8]) -> (r: Option<CapsuleName>)
        ensures
            r == CapsuleName::parse(name@),
    {
        if bytes_equal(name, &CapsuleName::DlTensor.bytes()) {
            Some(CapsuleName::DlTensor)
        } else if bytes_equal(name, &CapsuleName::DlTensorVersioned.bytes()) {
            Some(CapsuleName::DlTensorVersioned)
        } else if bytes_equal(name, &CapsuleName::UsedDlTensor.bytes()) {
            Some(CapsuleName::UsedDlTensor)
        } else if bytes_equal(name, &CapsuleName::UsedDlTensorVersioned.bytes()) {
            Some(CapsuleName::UsedDlTensorVersioned)
        } else {
            None
        }
    }
}

fn push_bytes(r: &mut Vec<u8>, bytes: &[u8])
    ensures
        final(r)@ == old(r)@ + bytes@,
{
    let mut i: usize = 0;
    while i < bytes.len()
        invariant
            i <= bytes@.len(),
            r@ == old(r)@ + bytes@.take(i as int),
        decreases bytes@.len() - i,
    {
        r.push(bytes[i]);
        assert(bytes@.take(i + 1) =~= bytes@.take(i as int).push(bytes@[i as int]));
        i = i + 1;
    }
    assert(bytes@.take(bytes@.len() as int) =~= bytes@);
}

fn bytes_equal(a: &[u8], b: &Vec<u8>) -> (r: bool)
    ensures
        r == (a@ == b@),
{
    if a.len() != b.len() {
        return false;
    }
    let mut i: usize = 0;
    while i < a.len()
        invariant
            a@.len() == b@.len(),
            i <= a@.len(),
            forall|j: int| 0 <= j < i ==> a@[j] == b@[j],
        decreases a@.len() - i,
    {
        if a[i] != b[i] {
            return false;
        }
        i = i + 1;
    }
    assert(a@ =~= b@);
    true
}

impl DLPackVariant {
    /// The name a producer gives a capsule of this variant.
    pub open spec fn spec_capsule_name(self) -> CapsuleName {
        match self {
            DLPackVariant::Legacy => CapsuleName::DlTensor,
            DLPackVariant::Versioned => CapsuleName::DlTensorVersioned,
        }
    }

    /// The name a consumer gives a capsule of this variant once it owns the tensor.
    pub open spec fn spec_used_capsule_name(self) -> CapsuleName {
        match self {
            DLPackVariant::Legacy => CapsuleName::UsedDlTensor,
            DLPackVariant::Versioned => CapsuleName::UsedDlTensorVersioned,
        }
    }

    /// The name a producer gives a capsule of this variant.
    pub fn capsule_name(self) -> (n: CapsuleName)
        ensures
            n == self.spec_capsule_name(),
    {
        match self {
            DLPackVariant::Legacy => CapsuleName::DlTensor,
            DLPackVariant::Versioned => CapsuleName::DlTensorVersioned,
        }
    }

    /// The name a consumer gives a capsule of this variant once it owns the tensor.
    pub fn used_capsule_name(self) -> (n: CapsuleName)
        ensures
            n == self.spec_used_capsule_name(),
    {
        match self {
            DLPackVariant::Legacy => CapsuleName::UsedDlTensor,
            DLPackVariant::Versioned => CapsuleName::UsedDlTensorVersioned,
        }
    }
}

/// What a consumer makes of a capsule's name: the variant it carries, or why the
/// capsule is refused.
pub open spec fn spec_capsule_variant(name: Option<Seq<u8>>) -> Result<
    DLPackVariant,
    CapsuleNameError,
> {
    match name {
        None => Err(CapsuleNameError::MissingName),
        Some(b) => if b == CapsuleName::DlTensor.spec_bytes() {
            Ok(DLPackVariant::Legacy)
        } else if b == CapsuleName::DlTensorVersioned.spec_bytes() {
            Ok(DLPackVariant::Versioned)
        } else {
            Err(CapsuleNameError::UnexpectedName)
        },
    }
}

/// Decides, from a capsule's name (its bytes without the NUL, or `None` where it
/// has none), which variant a consumer imports: `dltensor` is legacy,
/// `dltensor_versioned` is versioned, anything else is refused.
pub fn capsule_variant(name: Option<&[u8]>) -> (r: Result<DLPackVariant, CapsuleNameError>)
    ensures
        r == spec_capsule_variant(
            match name {
                Some(b) => Some(b@),
                None => None,
            },
        ),
{
    match name {
        None => Err(CapsuleNameError::MissingName),
        Some(b) => match CapsuleName::from_bytes(b) {
            Some(CapsuleName::DlTensor) => Ok(DLPackVariant::Legacy),
            Some(CapsuleName::DlTensorVersioned) => Ok(DLPackVariant::Versioned),
            _ => {
                proof {
                    lemma_capsule_names_distinct();
                }
                Err(CapsuleNameError::UnexpectedName)
            },
        },
    }
}

/// Whether the destructor of a capsule made for `variant` runs the producer's
/// deleter: only while the capsule still carries the producer's name.
pub open spec fn spec_destructor_deletes(variant: DLPackVariant, name: Option<Seq<u8>>) -> bool {
    name == Some(variant.spec_capsule_name().spec_bytes())
}

/// Decides whether the destructor of a capsule made for `variant`, now named
/// `name`, runs the producer's deleter.
pub fn capsule_destructor_deletes(variant: DLPackVariant, name: Option<&[u8]>) -> (r: bool)
    ensures
        r == spec_destructor_deletes(
            variant,
            match name {
                Some(b) => Some(b@),
                None => None,
            },
        ),
{
    match name {
        None => false,
        Some(b) => bytes_equal(b, &variant.capsule_name().bytes()),
    }
}

/// The four capsule names are spelled differently, and reading a name's bytes
/// gives the name back.
pub proof fn lemma_capsule_names_distinct()
    ensures
        forall|n: CapsuleName| #[trigger] CapsuleName::parse(n.spec_bytes()) == Some(n),
        forall|n: CapsuleName, m: CapsuleName|
            n != m ==> #[trigger] n.spec_bytes() != #[trigger] m.spec_bytes(),
{
    let a = CapsuleName::DlTensor.spec_bytes();
    let b = CapsuleName::DlTensorVersioned.spec_bytes();
    let c = CapsuleName::UsedDlTensor.spec_bytes();
    let d = CapsuleName::UsedDlTensorVersioned.spec_bytes();
    assert(a.len() == 8 && b.len() == 18 && c.len() == 13 && d.len() == 23);
    assert(a[0] == 100u8 && b[0] == 100u8 && c[0] == 117u8 && d[0] == 117u8);
    assert forall|n: CapsuleName, m: CapsuleName|
        n != m implies #[trigger] n.spec_bytes() != #[trigger] m.spec_bytes() by {
        if n.spec_bytes() == m.spec_bytes() {
            assert(n.spec_bytes().len() == m.spec_bytes().len());
            assert(n.spec_bytes()[0] == m.spec_bytes()[0]);
        }
    }
}

// ── Capsule lifecycle ───────────────────────────────────────────────────────

/// What can happen to an exported capsule.
#[derive(Clone, Copy, Debug, PartialEq, Eq, Structural)]
pub enum CapsuleEvent {
    /// A consumer imports the capsule (`PyTensor::from_pyany`); on success it
    /// renames the capsule and owns the managed tensor.
    Consume,
    /// The consumer that owns the managed tensor lets go of it and runs the deleter.
    ReleaseConsumer,
    /// Python collects the capsule and runs its destructor.
    Finalize,
}

/// One step in the life of a capsule exported for `variant`. The state holds
/// the capsule's current name, whether a consumer owns the managed tensor,
/// whether the capsule has been collected, and how many times the producer's
/// deleter has run. An import succeeds only on an uncollected capsule whose name
/// `capsule_variant` accepts, and renames it; a consumer that lets go runs the
/// deleter; collection runs it where `capsule_destructor_deletes` says so.
pub open spec fn capsule_step(
    variant: DLPackVariant,
    s: (Option<Seq<u8>>, bool, bool, nat),
    e: CapsuleEvent,
) -> (Option<Seq<u8>>, bool, bool, nat) {
    match e {
        CapsuleEvent::Consume => if !s.2 {
            match spec_capsule_variant(s.0) {
                Ok(v) => (Some(v.spec_used_capsule_name().spec_bytes()), true, s.2, s.3),
                Err(_) => s,
            }
        } else {
            s
        },
        CapsuleEvent::ReleaseConsumer => if s.1 {
            (s.0, false, s.2, s.3 + 1)
        } else {
            s
        },
        CapsuleEvent::Finalize => if !s.2 {
            (
                s.0,
                s.1,
                true,
                if spec_destructor_deletes(variant, s.0) {
                    s.3 + 1
                } else {
                    s.3
                },
            )
        } else {
            s
        },
    }
}

/// The state of a capsule exported for `variant` after `events`.
pub open spec fn capsule_run(variant: DLPackVariant, events: Seq<CapsuleEvent>) -> (
    Option<Seq<u8>>,
    bool,
    bool,
    nat,
)
    decreases events.len(),
{
    if events.len() == 0 {
        (Some(variant.spec_capsule_name().spec_bytes()), false, false, 0)
    } else {
        capsule_step(variant, capsule_run(variant, events.drop_last()), events.last())
    }
}

/// Whatever consumers and the collector do to an exported capsule, the
/// producer's deleter runs at most once, and once the capsule is collected and
/// no consumer holds the tensor, it has run exactly once: no leak, no double free.
pub proof fn lemma_deleter_runs_once(variant: DLPackVariant, events: Seq<CapsuleEvent>)
    ensures
        capsule_run(variant, events).3 <= 1,
        capsule_run(variant, events).2 && !capsule_run(variant, events).1 ==> capsule_run(
            variant,
            events,
        ).3 == 1,
{
    lemma_run_invariant(variant, events);
}

proof fn lemma_run_invariant(variant: DLPackVariant, events: Seq<CapsuleEvent>)
    ensures
        ({
            let s = capsule_run(variant, events);
            let fresh = Some(variant.spec_capsule_name().spec_bytes());
            let used = Some(variant.spec_used_capsule_name().spec_bytes());
            &&& s.0 == fresh || s.0 == used
            &&& s.1 ==> s.0 == used
            &&& s.3 + (if s.1 {
                1nat
            } else {
                0nat
            }) + (if !s.2 && s.0 == fresh {
                1nat
            } else {
                0nat
            }) == 1
        }),
    decreases events.len(),
{
    lemma_capsule_names_distinct();
    if events.len() > 0 {
        lemma_run_invariant(variant, events.drop_last());
    }
}

// ── Imported tensor ─────────────────────────────────────────────────────────

/// The number of elements of a tensor of this shape, each extent read as a
/// `usize` (as the import does).
pub open spec fn shape_product(shape: Seq<i64>) -> int
    decreases shape.len(),
{
    if shape.len() == 0 {
        1
    } else {
        shape_product(shape.drop_last()) * (shape.last() as usize as int)
    }
}

/// Every running product of the extents, taken from the first, fits in `usize`.
pub open spec fn shape_product_fits(shape: Seq<i64>) -> bool {
    forall|k: int| 0 <= k <= shape.len() ==> #[trigger] shape_product(shape.take(k)) <= usize::MAX
}

/// The product of the extents from index `i` on.
pub open spec fn suffix_product(shape: Seq<i64>, i: int) -> int
    decreases shape.len() - i,
{
    if i < 0 || i >= shape.len() {
        1
    } else {
        shape[i] * suffix_product(shape, i + 1)
    }
}

/// From index `from` on, each stride is the product of the extents after it:
/// the compact row-major strides.
pub open spec fn row_major_from(shape: Seq<i64>, strides: Seq<i64>, from: int) -> bool {
    forall|j: int| from <= j < shape.len() ==> #[trigger] strides[j] == suffix_product(shape, j + 1)
}

/// The tensor is stored contiguously in row-major order: it has no strides, or
/// its strides are the compact row-major ones.
pub open spec fn spec_is_contiguous(t: DLTensor) -> bool {
    match t.strides {
        None => true,
        Some(s) => row_major_from(t.shape@, s@, 0),
    }
}

/// The contiguity check stays within `i64`: wherever the strides from `i` on are
/// row-major, the product of the extents from `i` on fits in `i64`.
pub open spec fn contiguity_check_fits(t: DLTensor) -> bool {
    match t.strides {
        None => true,
        Some(s) => forall|i: int|
            0 <= i < t.shape@.len() && row_major_from(t.shape@, s@, i) ==> i64::MIN
                <= #[trigger] suffix_product(t.shape@, i) <= i64::MAX,
    }
}

/// The size in bytes of one element of `dtype`: `bits / 8 * lanes`, whole bytes
/// per lane times the number of lanes.
pub open spec fn spec_element_size(dtype: DLDataType) -> int {
    (dtype.bits / 8) * dtype.lanes
}

// ── Laws of the tensor metadata ─────────────────────────────────────────────

/// The element count of a shape is the product of all its extents, each read as
/// a `usize`: a rank-0 shape has one element, and appending an extent, at any
/// rank, multiplies the count by that extent.
pub proof fn lemma_shape_product_push(s: Seq<i64>, x: i64)
    ensures
        shape_product(Seq::<i64>::empty()) == 1,
        shape_product(s.push(x)) == shape_product(s) * (x as usize as int),
{
    assert(s.push(x).drop_last() =~= s);
}

/// Splitting a shape in two splits its element count into a product: every
/// extent is counted once, wherever it stands.
pub proof fn lemma_shape_product_concat(s: Seq<i64>, t: Seq<i64>)
    ensures
        shape_product(s + t) == shape_product(s) * shape_product(t),
    decreases t.len(),
{
    if t.len() == 0 {
        assert(s + t =~= s);
    } else {
        lemma_shape_product_concat(s, t.drop_last());
        assert((s + t).drop_last() =~= s + t.drop_last());
        assert((s + t).last() == t.last());
        let a = shape_product(s);
        let b = shape_product(t.drop_last());
        let x = t.last() as usize as int;
        assert(a * b * x == a * (b * x)) by (nonlinear_arith);
    }
}

/// A shape with a zero extent, in any dimension, has no elements.
pub proof fn lemma_shape_product_zero_extent(s: Seq<i64>, i: int)
    requires
        0 <= i < s.len(),
        s[i] == 0,
    ensures
        shape_product(s) == 0,
{
    let pre = s.take(i);
    let mid = seq![s[i]];
    let post = s.skip(i + 1);
    assert(s =~= pre + mid + post);
    lemma_shape_product_concat(pre + mid, post);
    lemma_shape_product_concat(pre, mid);
    assert(mid =~= Seq::<i64>::empty().push(0i64));
    lemma_shape_product_push(Seq::<i64>::empty(), 0i64);
    assert((0i64 as usize) == 0usize);
    assert(shape_product(mid) == 0);
    let a = shape_product(pre);
    let c = shape_product(post);
    assert(a * 0 == 0 && 0 * c == 0) by (nonlinear_arith);
    assert(shape_product(pre + mid) == 0);
    assert(shape_product(pre + mid + post) == 0);
}

/// Every extent of the shape lies in `0..=usize::MAX`.
pub open spec fn extents_in_range(shape: Seq<i64>) -> bool {
    forall|i: int| 0 <= i < shape.len() ==> 0 <= #[trigger] shape[i] <= usize::MAX
}

/// For extents in range, the product of the extents from index `i` on is the
/// element count of the shape that starts there.
pub proof fn lemma_suffix_product_counts_elements(shape: Seq<i64>, i: int)
    requires
        0 <= i <= shape.len(),
        extents_in_range(shape),
    ensures
        suffix_product(shape, i) == shape_product(shape.skip(i)),
    decreases shape.len() - i,
{
    if i == shape.len() {
        assert(shape.skip(i) =~= Seq::<i64>::empty());
    } else {
        lemma_suffix_product_counts_elements(shape, i + 1);
        let head = seq![shape[i]];
        assert(shape.skip(i) =~= head + shape.skip(i + 1));
        lemma_shape_product_concat(head, shape.skip(i + 1));
        assert(head =~= Seq::<i64>::empty().push(shape[i]));
        lemma_shape_product_push(Seq::<i64>::empty(), shape[i]);
        assert((shape[i] as usize) as int == shape[i]);
    }
}

/// The product of the extents from index `i` on: 1 past the last dimension, and
/// each dimension's extent times the product after it.
pub proof fn lemma_suffix_product_steps(shape: Seq<i64>, i: int)
    requires
        0 <= i < shape.len(),
    ensures
        suffix_product(shape, shape.len() as int) == 1,
        suffix_product(shape, i) == shape[i] * suffix_product(shape, i + 1),
{
}

/// Contiguity checks every stride, the outermost included, against the product
/// of the extents after its dimension; a tensor without strides is contiguous.
pub proof fn lemma_contiguous_checks_every_stride(t: DLTensor)
    ensures
        t.strides is None ==> spec_is_contiguous(t),
        t.strides matches Some(s) ==> (spec_is_contiguous(t) <==> forall|j: int|
            0 <= j < t.shape@.len() ==> #[trigger] s@[j] == suffix_product(t.shape@, j + 1)),
{
}

/// A tensor without strides is contiguous. A strided tensor whose extents are in
/// range is contiguous exactly when every stride, the outermost included, is the
/// number of elements spanned by the dimensions after it; so the innermost stride
/// of a contiguous tensor is 1, and its outermost stride is the element count of
/// `shape[1..]`.
pub proof fn lemma_contiguous_iff_row_major_strides(t: DLTensor)
    requires
        extents_in_range(t.shape@),
        t.strides matches Some(s) ==> s@.len() == t.shape@.len(),
    ensures
        t.strides is None ==> spec_is_contiguous(t),
        t.strides matches Some(s) ==> (spec_is_contiguous(t) <==> forall|j: int|
            0 <= j < t.shape@.len() ==> #[trigger] s@[j] == shape_product(t.shape@.skip(j + 1))),
        t.strides matches Some(s) ==> (spec_is_contiguous(t) && t.shape@.len() >= 1 ==> s@[0]
            == shape_product(t.shape@.skip(1)) && s@[t.shape@.len() - 1] == 1),
{
    if let Some(s) = t.strides {
        let shape = t.shape@;
        assert forall|j: int| 0 <= j < shape.len() implies suffix_product(shape, j + 1)
            == shape_product(#[trigger] shape.skip(j + 1)) by {
            lemma_suffix_product_counts_elements(shape, j + 1);
        }
        if shape.len() >= 1 {
            assert(shape.skip(shape.len() as int) =~= Seq::<i64>::empty());
            assert(shape.skip(1) == shape.skip(0int + 1));
        }
    }
}

/// The size of one element depends on the lane width and the lane count alone,
/// whatever the type code: whole bytes per lane (`bits / 8`) times the lanes. It
/// never exceeds the lanes' bits in bytes, and equals them when the lane width
/// is a whole number of bytes.
pub proof fn lemma_element_size(a: DLDataType, b: DLDataType)
    ensures
        spec_element_size(a) == (a.bits as int / 8) * (a.lanes as int),
        a.bits == b.bits && a.lanes == b.lanes ==> spec_element_size(a) == spec_element_size(b),
        8 * spec_element_size(a) <= (a.bits as int) * (a.lanes as int),
        a.bits % 8 == 0 ==> 8 * spec_element_size(a) == (a.bits as int) * (a.lanes as int),
{
    let q = a.bits as int / 8;
    let r = a.bits as int % 8;
    let l = a.lanes as int;
    assert(a.bits as int == 8 * q + r && 0 <= r < 8);
    assert(8 * (q * l) == (8 * q) * l) by (nonlinear_arith);
    assert((8 * q + r) * l == (8 * q) * l + r * l) by (nonlinear_arith);
    assert(r * l >= 0) by (nonlinear_arith)
        requires
            r >= 0,
            l >= 0,
    ;
}

/// A DLPack tensor imported from a capsule: the variant it came in and the
/// header the producer filled in.
pub struct PyTensor {
    version: DLPackVariant,
    tensor: DLTensor,
}

impl PyTensor {
    #[verifier::type_invariant]
    spec fn inv(self) -> bool {
        self.tensor.well_formed()
    }

    /// The header of the imported tensor.
    pub closed spec fn header(self) -> DLTensor {
        self.tensor
    }

    /// The variant the tensor was imported in.
    pub closed spec fn variant(self) -> DLPackVariant {
        self.version
    }

    /// An imported tensor with the header read from the producer's managed tensor.
    pub fn new(version: DLPackVariant, tensor: DLTensor) -> (t: Self)
        requires
            tensor.well_formed(),
        ensures
            t.header() == tensor,
            t.variant() == version,
    {
        PyTensor { version, tensor }
    }

    /// Which DLPack variant was imported.
    pub fn dlpack_version(&self) -> (v: DLPackVariant)
        ensures
            v == self.variant(),
    {
        self.version
    }

    /// Number of dimensions.
    pub fn ndim(&self) -> (n: usize)
        ensures
            n == self.header().ndim,
            n == self.header().shape@.len(),
    {
        proof {
            use_type_invariant(self);
        }
        self.tensor.ndim as usize
    }

    /// The extents, one per dimension.
    pub fn shape(&self) -> (s: &[i64])
        ensures
            s@ == self.header().shape@,
            s@.len() == self.header().ndim,
    {
        proof {
            use_type_invariant(self);
        }
        self.tensor.shape.as_slice()
    }

    /// The strides in elements, or `None` for compact row-major layout.
    pub fn strides(&self) -> (s: Option<&[i64]>)
        ensures
            match self.header().strides {
                None => s is None,
                Some(v) => s matches Some(x) && x@ == v@,
            },
            s matches Some(x) ==> x@.len() == self.header().ndim,
    {
        proof {
            use_type_invariant(self);
        }
        match &self.tensor.strides {
            Some(v) => Some(v.as_slice()),
            None => None,
        }
    }

    /// Data type descriptor.
    pub fn dtype(&self) -> (d: DLDataType)
        ensures
            d == self.header().dtype,
    {
        self.tensor.dtype
    }

    /// Device descriptor.
    pub fn device(&self) -> (d: DLDevice)
        ensures
            d == self.header().device,
    {
        self.tensor.device
    }

    /// Address of the buffer; the first element is `byte_offset()` bytes past it.
    pub fn data_ptr(&self) -> (p: usize)
        ensures
            p == self.header().data,
    {
        self.tensor.data
    }

    /// Byte offset from `data_ptr` to the first element.
    pub fn byte_offset(&self) -> (o: u64)
        ensures
            o == self.header().byte_offset,
    {
        self.tensor.byte_offset
    }

    /// Total number of elements: the product of the extents, each read as a `usize`.
    pub fn numel(&self) -> (n: usize)
        requires
            shape_product_fits(self.header().shape@),
        ensures
            n == shape_product(self.header().shape@),
    {
        let shape = self.tensor.shape.as_slice();
        let mut acc: usize = 1;
        let mut i: usize = 0;
        while i < shape.len()
            invariant
                i <= shape@.len(),
                shape_product_fits(shape@),
                acc == shape_product(shape@.take(i as int)),
            decreases shape@.len() - i,
        {
            assert(shape@.take(i + 1).drop_last() =~= shape@.take(i as int));
            assert(shape_product(shape@.take(i + 1)) <= usize::MAX);
            acc = acc * (shape[i] as usize);
            i = i + 1;
        }
        assert(shape@.take(shape@.len() as int) =~= shape@);
        acc
    }

    /// Size of one element in bytes: `bits / 8 * lanes`.
    pub fn element_size(&self) -> (n: usize)
        ensures
            n == spec_element_size(self.header().dtype),
    {
        let dt = self.tensor.dtype;
        let bytes = dt.bits as usize / 8;
        let lanes = dt.lanes as usize;
        assert(bytes * lanes <= 31 * 65535) by (nonlinear_arith)
            requires
                bytes <= 31,
                lanes <= 65535,
        ;
        bytes * lanes
    }

    /// Total size in bytes of the tensor's elements.
    pub fn nbytes(&self) -> (n: usize)
        requires
            shape_product_fits(self.header().shape@),
            shape_product(self.header().shape@) * spec_element_size(self.header().dtype)
                <= usize::MAX,
        ensures
            n == shape_product(self.header().shape@) * spec_element_size(self.header().dtype),
    {
        self.numel() * self.element_size()
    }

    /// Whether the tensor is stored contiguously in row-major order.
    pub fn is_contiguous(&self) -> (r: bool)
        requires
            contiguity_check_fits(self.header()),
        ensures
            r == spec_is_contiguous(self.header()),
    {
        proof {
            use_type_invariant(self);
        }
        match &self.tensor.strides {
            None => true,
            Some(strides) => {
                let shape = self.tensor.shape.as_slice();
                let ndim = shape.len();
                if ndim == 0 {
                    return true;
                }
                let mut expected: i64 = 1;
                let mut i: usize = ndim;
                while i > 0
                    invariant
                        ndim == shape@.len(),
                        strides@.len() == ndim,
                        i <= ndim,
                        expected == suffix_product(shape@, i as int),
                        row_major_from(shape@, strides@, i as int),
                        contiguity_check_fits(self.header()),
                        self.header().shape@ == shape@,
                        self.header().strides == Some(*strides),
                    decreases i,
                {
                    i = i - 1;
                    if strides[i] != expected {
                        return false;
                    }
                    assert(row_major_from(shape@, strides@, i as int));
                    let ghost next = suffix_product(shape@, i as int);
                    assert(next == shape@[i as int] * suffix_product(shape@, i + 1));
                    assert(i64::MIN <= next <= i64::MAX);
                    assert(expected * shape@[i as int] == next) by (nonlinear_arith)
                        requires
                            expected == suffix_product(shape@, i + 1),
                            next == shape@[i as int] * suffix_product(shape@, i + 1),
                    ;
                    expected = expected * shape[i];
                }
                true
            },
        }
    }
}

} // verus!
