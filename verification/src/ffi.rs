//! The DLPack ABI values as plain data: device and dtype descriptors, the
//! protocol version, the flag bits, and a `DLTensor` header whose shape and
//! strides arrays are held by value.
use crate::layout::{
    field_of, lemma_small_struct, repr_c_layout, struct_align, struct_field, struct_size, Field,
    StructLayout,
};
use vstd::prelude::*;

verus! {

/// CPU device type, comparable to `DLDevice::device_type`.
pub const K_DL_CPU: u32 = 1;

/// CUDA GPU device type, comparable to `DLDevice::device_type`.
pub const K_DL_CUDA: u32 = 2;

/// Pinned CUDA host memory device type.
pub const K_DL_CUDA_HOST: u32 = 3;

/// OpenCL device type.
pub const K_DL_OPENCL: u32 = 4;

/// Vulkan device type.
pub const K_DL_VULKAN: u32 = 7;

/// Metal device type.
pub const K_DL_METAL: u32 = 8;

/// ROCm GPU device type.
pub const K_DL_ROCM: u32 = 10;

/// CUDA managed (unified) memory device type.
pub const K_DL_CUDA_MANAGED: u32 = 13;

/// oneAPI device type.
pub const K_DL_ONE_API: u32 = 14;

/// WebGPU device type.
pub const K_DL_WEB_GPU: u32 = 15;

/// Signed-integer dtype code, comparable to `DLDataType::code`.
pub const K_DL_INT: u8 = 0;

/// Unsigned-integer dtype code, comparable to `DLDataType::code`.
pub const K_DL_UINT: u8 = 1;

/// IEEE floating-point dtype code, comparable to `DLDataType::code`.
pub const K_DL_FLOAT: u8 = 2;

/// Opaque handle dtype code, comparable to `DLDataType::code`.
pub const K_DL_OPAQUE_HANDLE: u8 = 3;

/// bfloat16 dtype code, comparable to `DLDataType::code`.
pub const K_DL_BFLOAT: u8 = 4;

/// Complex-number dtype code, comparable to `DLDataType::code`.
pub const K_DL_COMPLEX: u8 = 5;

/// Boolean dtype code, comparable to `DLDataType::code`.
pub const K_DL_BOOL: u8 = 6;

/// Read-only bit of `DLManagedTensorVersioned::flags`.
pub const DLPACK_FLAG_BITMASK_READ_ONLY: u64 = 1;

/// Is-copied bit of `DLManagedTensorVersioned::flags`.
pub const DLPACK_FLAG_BITMASK_IS_COPIED: u64 = 2;

/// Where a tensor lives: a device type (`K_DL_CPU`, `K_DL_CUDA`, ...) and an ordinal.
#[derive(Clone, Copy, Debug, PartialEq, Eq, Structural)]
pub struct DLDevice {
    pub device_type: u32,
    pub device_id: i32,
}

/// Element type: a type code, the bit width of one lane, and the number of lanes.
#[derive(Clone, Copy, Debug, PartialEq, Eq, Structural)]
pub struct DLDataType {
    pub code: u8,
    pub bits: u8,
    pub lanes: u16,
}

/// The DLPack protocol version carried by a versioned managed tensor.
#[derive(Clone, Copy, Debug, PartialEq, Eq, Structural)]
pub struct DLPackVersion {
    pub major: u32,
    pub minor: u32,
}

/// A `DLTensor` header. `data` is the address of the first byte of the buffer
/// (before `byte_offset`); `shape` and `strides` hold the arrays that the C
/// header points to, and `strides == None` stands for a null strides pointer
/// (compact row-major layout).
#[derive(Clone, Debug)]
pub struct DLTensor {
    pub data: usize,
    pub device: DLDevice,
    pub ndim: i32,
    pub dtype: DLDataType,
    pub shape: Vec<i64>,
    pub strides: Option<Vec<i64>>,
    pub byte_offset: u64,
}

impl DLTensor {
    /// A header that a reader can trust: `ndim` is not negative and the shape,
    /// and the strides where present, hold exactly `ndim` entries.
    pub open spec fn well_formed(&self) -> bool {
        &&& self.ndim >= 0
        &&& self.shape@.len() == self.ndim as int
        &&& (self.strides matches Some(s) ==> s@.len() == self.ndim as int)
    }
}

// ── ABI layout ─────────────────────────────────────────────────────────────
// Data and array pointers, `manager_ctx` and the `deleter` function pointer all
// have the size and alignment of `usize`.

/// The fields of `DLDevice`: `device_type: u32`, `device_id: i32`.
pub open spec fn dl_device_fields() -> Seq<Field> {
    seq![field_of::<u32>(), field_of::<i32>()]
}

/// The fields of `DLDataType`: `code: u8`, `bits: u8`, `lanes: u16`.
pub open spec fn dl_data_type_fields() -> Seq<Field> {
    seq![field_of::<u8>(), field_of::<u8>(), field_of::<u16>()]
}

/// The fields of `DLPackVersion`: `major: u32`, `minor: u32`.
pub open spec fn dl_pack_version_fields() -> Seq<Field> {
    seq![field_of::<u32>(), field_of::<u32>()]
}

/// The fields of `DLTensor`: `data`, `device`, `ndim: i32`, `dtype`, `shape`,
/// `strides`, `byte_offset: u64`.
pub open spec fn dl_tensor_fields() -> Seq<Field> {
    seq![
        field_of::<usize>(),
        struct_field(dl_device_fields()),
        field_of::<i32>(),
        struct_field(dl_data_type_fields()),
        field_of::<usize>(),
        field_of::<usize>(),
        field_of::<u64>(),
    ]
}

/// The fields of `DLManagedTensor`: `dl_tensor`, `manager_ctx`, `deleter`.
pub open spec fn dl_managed_tensor_fields() -> Seq<Field> {
    seq![struct_field(dl_tensor_fields()), field_of::<usize>(), field_of::<usize>()]
}

/// The fields of `DLManagedTensorVersioned`: `version`, `manager_ctx`, `deleter`,
/// `flags: u64`, `dl_tensor`.
pub open spec fn dl_managed_tensor_versioned_fields() -> Seq<Field> {
    seq![
        struct_field(dl_pack_version_fields()),
        field_of::<usize>(),
        field_of::<usize>(),
        field_of::<u64>(),
        struct_field(dl_tensor_fields()),
    ]
}

proof fn lemma_align_within_size<T>()
    ensures
        0 < vstd::layout::align_of::<T>(),
        vstd::layout::size_of::<T>() > 0 ==> vstd::layout::align_of::<T>()
            <= vstd::layout::size_of::<T>(),
{
    broadcast use vstd::layout::align_properties, vstd::layout::align_nonzero;

    let size = vstd::layout::size_of::<T>();
    let align = vstd::layout::align_of::<T>();
    if size > 0 {
        assert(align <= size) by (nonlinear_arith)
            requires
                size % align == 0,
                align > 0,
                size > 0,
        ;
    }
}

proof fn lemma_primitive_fields()
    ensures
        0 < field_of::<u8>().align <= field_of::<u8>().size == 1,
        0 < field_of::<u16>().align <= field_of::<u16>().size == 2,
        0 < field_of::<u32>().align <= field_of::<u32>().size == 4,
        0 < field_of::<i32>().align <= field_of::<i32>().size == 4,
        0 < field_of::<u64>().align <= field_of::<u64>().size == 8,
        0 < field_of::<usize>().align <= field_of::<usize>().size <= 8,
{
    broadcast use vstd::layout::layout_of_primitives;

    assert(usize::BITS == 32 || usize::BITS == 64);
    lemma_align_within_size::<u8>();
    lemma_align_within_size::<u16>();
    lemma_align_within_size::<u32>();
    lemma_align_within_size::<i32>();
    lemma_align_within_size::<u64>();
    lemma_align_within_size::<usize>();
}

/// The layout of `DLDevice`.
pub fn dl_device_layout() -> (l: StructLayout)
    ensures
        l.describes(dl_device_fields()),
{
    proof {
        lemma_primitive_fields();
        lemma_small_struct(dl_device_fields(), 8);
    }
    let fields = [Field::of::<u32>(), Field::of::<i32>()];
    assert(fields@ == dl_device_fields());
    repr_c_layout(&fields).unwrap()
}

/// The layout of `DLDataType`.
pub fn dl_data_type_layout() -> (l: StructLayout)
    ensures
        l.describes(dl_data_type_fields()),
{
    proof {
        lemma_primitive_fields();
        lemma_small_struct(dl_data_type_fields(), 8);
    }
    let fields = [Field::of::<u8>(), Field::of::<u8>(), Field::of::<u16>()];
    assert(fields@ == dl_data_type_fields());
    repr_c_layout(&fields).unwrap()
}

/// The layout of `DLPackVersion`.
pub fn dl_pack_version_layout() -> (l: StructLayout)
    ensures
        l.describes(dl_pack_version_fields()),
{
    proof {
        lemma_primitive_fields();
        lemma_small_struct(dl_pack_version_fields(), 8);
    }
    let fields = [Field::of::<u32>(), Field::of::<u32>()];
    assert(fields@ == dl_pack_version_fields());
    repr_c_layout(&fields).unwrap()
}

proof fn lemma_dl_tensor_fields_small()
    ensures
        crate::layout::aligns_positive(dl_tensor_fields()),
        1 <= struct_align(dl_tensor_fields()) <= 8,
        0 <= struct_size(dl_tensor_fields()) <= 600,
{
    lemma_primitive_fields();
    lemma_small_struct(dl_device_fields(), 8);
    lemma_small_struct(dl_data_type_fields(), 8);
    let f = dl_tensor_fields();
    assert(struct_field(dl_device_fields()).size <= 64);
    assert(struct_field(dl_data_type_fields()).size <= 64);
    assert(forall|i: int| 0 <= i < f.len() ==> #[trigger] f[i].size <= 64 && 0 < f[i].align <= 8)
        by {
        assert(f[0] == field_of::<usize>());
        assert(f[2] == field_of::<i32>());
        assert(f[6] == field_of::<u64>());
    }
    lemma_small_struct(f, 64);
}

/// The layout of `DLTensor`.
pub fn dl_tensor_layout() -> (l: StructLayout)
    ensures
        l.describes(dl_tensor_fields()),
{
    proof {
        lemma_dl_tensor_fields_small();
    }
    let device = dl_device_layout();
    let dtype = dl_data_type_layout();
    let fields = [
        Field::of::<usize>(),
        Field::of_struct(&device),
        Field::of::<i32>(),
        Field::of_struct(&dtype),
        Field::of::<usize>(),
        Field::of::<usize>(),
        Field::of::<u64>(),
    ];
    assert(fields@ == dl_tensor_fields());
    repr_c_layout(&fields).unwrap()
}

/// The layout of `DLManagedTensor`.
pub fn dl_managed_tensor_layout() -> (l: StructLayout)
    ensures
        l.describes(dl_managed_tensor_fields()),
{
    proof {
        lemma_primitive_fields();
        lemma_dl_tensor_fields_small();
        lemma_small_struct(dl_managed_tensor_fields(), 600);
    }
    let tensor = dl_tensor_layout();
    let fields = [Field::of_struct(&tensor), Field::of::<usize>(), Field::of::<usize>()];
    assert(fields@ == dl_managed_tensor_fields());
    repr_c_layout(&fields).unwrap()
}

/// The layout of `DLManagedTensorVersioned`.
pub fn dl_managed_tensor_versioned_layout() -> (l: StructLayout)
    ensures
        l.describes(dl_managed_tensor_versioned_fields()),
{
    proof {
        lemma_primitive_fields();
        lemma_dl_tensor_fields_small();
        lemma_small_struct(dl_pack_version_fields(), 8);
        lemma_small_struct(dl_managed_tensor_versioned_fields(), 600);
    }
    let version = dl_pack_version_layout();
    let tensor = dl_tensor_layout();
    let fields = [
        Field::of_struct(&version),
        Field::of::<usize>(),
        Field::of::<usize>(),
        Field::of::<u64>(),
        Field::of_struct(&tensor),
    ];
    assert(fields@ == dl_managed_tensor_versioned_fields());
    repr_c_layout(&fields).unwrap()
}

} // verus!
