//! Builders over the DLPack ABI: tensor descriptions, device and dtype
//! constructors, and the packing of a keep-alive value with a description into
//! a managed tensor that owns both.
use crate::ffi::{
    DLDataType, DLDevice, DLPackVersion, DLTensor, K_DL_BOOL, K_DL_CPU, K_DL_CUDA, K_DL_FLOAT, K_DL_INT,
    K_DL_UINT,
};
use vstd::prelude::*;

verus! {

/// What a tensor looks like: the address of its buffer, where the buffer lives,
/// the element type, the shape, the strides (`None` for compact row-major) and
/// the offset in bytes of the first element from `data`.
#[derive(Clone, Debug)]
pub struct TensorInfo {
    pub data: usize,
    pub device: DLDevice,
    pub dtype: DLDataType,
    pub shape: Vec<i64>,
    pub strides: Option<Vec<i64>>,
    pub byte_offset: u64,
}

impl TensorInfo {
    /// A compact row-major tensor: no strides, no byte offset.
    pub fn contiguous(data: usize, device: DLDevice, dtype: DLDataType, shape: Vec<i64>) -> (r:
        Self)
        ensures
            r.data == data,
            r.device == device,
            r.dtype == dtype,
            r.shape == shape,
            r.strides is None,
            r.byte_offset == 0,
    {
        TensorInfo { data, device, dtype, shape, strides: None, byte_offset: 0 }
    }

    /// A tensor with explicit strides (in elements) and no byte offset.
    pub fn strided(
        data: usize,
        device: DLDevice,
        dtype: DLDataType,
        shape: Vec<i64>,
        strides: Vec<i64>,
    ) -> (r: Self)
        ensures
            r.data == data,
            r.device == device,
            r.dtype == dtype,
            r.shape == shape,
            r.strides == Some(strides),
            r.byte_offset == 0,
    {
        TensorInfo { data, device, dtype, shape, strides: Some(strides), byte_offset: 0 }
    }

    /// The same tensor with its first element `off` bytes past `data`.
    pub fn with_byte_offset(self, off: u64) -> (r: Self)
        ensures
            r.data == self.data,
            r.device == self.device,
            r.dtype == self.dtype,
            r.shape == self.shape,
            r.strides == self.strides,
            r.byte_offset == off,
    {
        let mut s = self;
        s.byte_offset = off;
        s
    }
}

/// The CPU device.
pub fn cpu_device() -> (d: DLDevice)
    ensures
        d == (DLDevice { device_type: K_DL_CPU, device_id: 0 }),
{
    DLDevice { device_type: K_DL_CPU, device_id: 0 }
}

/// The CUDA device with ordinal `id`.
pub fn cuda_device(id: i32) -> (d: DLDevice)
    ensures
        d == (DLDevice { device_type: K_DL_CUDA, device_id: id }),
{
    DLDevice { device_type: K_DL_CUDA, device_id: id }
}

/// One lane of unsigned 8-bit integers.
pub fn dtype_u8() -> (t: DLDataType)
    ensures
        t == (DLDataType { code: K_DL_UINT, bits: 8, lanes: 1 }),
{
    DLDataType { code: K_DL_UINT, bits: 8, lanes: 1 }
}

/// One lane of unsigned 16-bit integers.
pub fn dtype_u16() -> (t: DLDataType)
    ensures
        t == (DLDataType { code: K_DL_UINT, bits: 16, lanes: 1 }),
{
    DLDataType { code: K_DL_UINT, bits: 16, lanes: 1 }
}

/// One lane of signed 32-bit integers.
pub fn dtype_i32() -> (t: DLDataType)
    ensures
        t == (DLDataType { code: K_DL_INT, bits: 32, lanes: 1 }),
{
    DLDataType { code: K_DL_INT, bits: 32, lanes: 1 }
}

/// One lane of signed 64-bit integers.
pub fn dtype_i64() -> (t: DLDataType)
    ensures
        t == (DLDataType { code: K_DL_INT, bits: 64, lanes: 1 }),
{
    DLDataType { code: K_DL_INT, bits: 64, lanes: 1 }
}

/// One lane of 32-bit IEEE floats.
pub fn dtype_f32() -> (t: DLDataType)
    ensures
        t == (DLDataType { code: K_DL_FLOAT, bits: 32, lanes: 1 }),
{
    DLDataType { code: K_DL_FLOAT, bits: 32, lanes: 1 }
}

/// One lane of 64-bit IEEE floats.
pub fn dtype_f64() -> (t: DLDataType)
    ensures
        t == (DLDataType { code: K_DL_FLOAT, bits: 64, lanes: 1 }),
{
    DLDataType { code: K_DL_FLOAT, bits: 64, lanes: 1 }
}

/// One lane of booleans, stored in 8 bits.
pub fn dtype_bool() -> (t: DLDataType)
    ensures
        t == (DLDataType { code: K_DL_BOOL, bits: 8, lanes: 1 }),
{
    DLDataType { code: K_DL_BOOL, bits: 8, lanes: 1 }
}

/// A legacy `DLManagedTensor`: the header describing the tensor, owning the
/// shape and strides arrays it points to, together with the keep-alive value
/// that owns the buffer. Dropping it drops the keep-alive exactly once.
pub struct ManagedTensor<T> {
    pub keepalive: T,
    pub dl_tensor: DLTensor,
}

/// A DLPack 1.0 `DLManagedTensorVersioned`: as [`ManagedTensor`], with the
/// protocol version and the flag bits.
pub struct ManagedTensorVersioned<T> {
    pub version: DLPackVersion,
    pub flags: u64,
    pub keepalive: T,
    pub dl_tensor: DLTensor,
}

/// The header that packing `info` produces: every field taken over, and `ndim`
/// the length of the shape converted to `i32` (wrapping, as a C `int`).
pub open spec fn packed_header(info: TensorInfo) -> DLTensor {
    DLTensor {
        data: info.data,
        device: info.device,
        ndim: info.shape@.len() as i32,
        dtype: info.dtype,
        shape: info.shape,
        strides: info.strides,
        byte_offset: info.byte_offset,
    }
}

/// The DLPack version that versioned managed tensors carry.
pub open spec fn packed_version() -> DLPackVersion {
    DLPackVersion { major: 1, minor: 0 }
}

fn header_of(info: TensorInfo) -> (t: DLTensor)
    ensures
        t == packed_header(info),
{
    let ndim = info.shape.len() as i32;
    DLTensor {
        data: info.data,
        device: info.device,
        ndim,
        dtype: info.dtype,
        shape: info.shape,
        strides: info.strides,
        byte_offset: info.byte_offset,
    }
}

/// Packs `keepalive` with `info` into a managed tensor that owns both.
pub fn pack<T: 'static>(keepalive: T, info: TensorInfo) -> (m: ManagedTensor<T>)
    ensures
        m.keepalive == keepalive,
        m.dl_tensor == packed_header(info),
{
    ManagedTensor { keepalive, dl_tensor: header_of(info) }
}

/// Versioned (DLPack 1.0) variant of [`pack`], carrying `flags`.
pub fn pack_versioned<T: 'static>(keepalive: T, info: TensorInfo, flags: u64) -> (m:
    ManagedTensorVersioned<T>)
    ensures
        m.version == packed_version(),
        m.flags == flags,
        m.keepalive == keepalive,
        m.dl_tensor == packed_header(info),
{
    ManagedTensorVersioned {
        version: DLPackVersion { major: 1, minor: 0 },
        flags,
        keepalive,
        dl_tensor: header_of(info),
    }
}

/// A description whose strides, where present, match its shape in length, and
/// whose rank fits a C `int`, packs into a header that a consumer can read back:
/// the header is well formed and holds the description's shape, strides, buffer
/// address, device, dtype and byte offset.
pub proof fn lemma_packed_header_readable(info: TensorInfo)
    requires
        info.shape@.len() <= i32::MAX,
        info.strides matches Some(s) ==> s@.len() == info.shape@.len(),
    ensures
        packed_header(info).well_formed(),
        packed_header(info).ndim == info.shape@.len(),
        packed_header(info).shape@ == info.shape@,
        packed_header(info).strides == info.strides,
        packed_header(info).data == info.data,
        packed_header(info).device == info.device,
        packed_header(info).dtype == info.dtype,
        packed_header(info).byte_offset == info.byte_offset,
{
}

} // verus!
