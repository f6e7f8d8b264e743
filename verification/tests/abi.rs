use dlpack_rs::ffi::{
    dl_data_type_layout, dl_device_layout, dl_managed_tensor_layout,
    dl_managed_tensor_versioned_layout, dl_pack_version_layout, dl_tensor_layout, DLPACK_FLAG_BITMASK_IS_COPIED, DLPACK_FLAG_BITMASK_READ_ONLY,
    K_DL_BFLOAT, K_DL_BOOL, K_DL_COMPLEX, K_DL_CPU, K_DL_CUDA, K_DL_CUDA_HOST, K_DL_CUDA_MANAGED,
    K_DL_FLOAT, K_DL_INT, K_DL_METAL, K_DL_ONE_API, K_DL_OPAQUE_HANDLE, K_DL_OPENCL, K_DL_ROCM,
    K_DL_UINT, K_DL_VULKAN, K_DL_WEB_GPU,
};
use dlpack_rs::layout::{repr_c_layout, Field};

#[test]
fn abi_layout() {
    assert_eq!(dl_tensor_layout().size, 48);
    assert_eq!(dl_managed_tensor_layout().size, 64);
    assert_eq!(dl_managed_tensor_versioned_layout().size, 80);
}

#[test]
fn abi_small_struct_layouts() {
    let device = dl_device_layout();
    assert_eq!((device.size, device.align), (8, 4));
    assert_eq!(device.offsets, vec![0, 4]);
    let dtype = dl_data_type_layout();
    assert_eq!((dtype.size, dtype.align), (4, 2));
    assert_eq!(dtype.offsets, vec![0, 1, 2]);
    let version = dl_pack_version_layout();
    assert_eq!((version.size, version.align), (8, 4));
}

#[test]
fn abi_dl_tensor_field_offsets() {
    let t = dl_tensor_layout();
    // data, device, ndim, dtype, shape, strides, byte_offset
    assert_eq!(t.offsets, vec![0, 8, 16, 20, 24, 32, 40]);
    assert_eq!(t.align, 8);
    let m = dl_managed_tensor_layout();
    assert_eq!(m.offsets, vec![0, 48, 56]);
    let v = dl_managed_tensor_versioned_layout();
    // version, manager_ctx, deleter, flags, dl_tensor
    assert_eq!(v.offsets, vec![0, 8, 16, 24, 32]);
}

#[test]
fn repr_c_layout_pads_between_and_after_fields() {
    // u8, u32, u16 -> offsets 0, 4, 8; size 12 (padded to alignment 4)
    let fields = [
        Field { size: 1, align: 1 },
        Field { size: 4, align: 4 },
        Field { size: 2, align: 2 },
    ];
    let l = repr_c_layout(&fields).unwrap();
    assert_eq!(l.offsets, vec![0, 4, 8]);
    assert_eq!(l.size, 12);
    assert_eq!(l.align, 4);
}

#[test]
fn repr_c_layout_empty_struct() {
    let l = repr_c_layout(&[]).unwrap();
    assert!(l.offsets.is_empty());
    assert_eq!(l.size, 0);
    assert_eq!(l.align, 1);
}

#[test]
fn repr_c_layout_rejects_zero_alignment() {
    let fields = [Field { size: 1, align: 1 }, Field { size: 4, align: 0 }];
    assert!(repr_c_layout(&fields).is_none());
}

#[test]
fn repr_c_layout_rejects_overflow() {
    let fields = [Field { size: usize::MAX, align: 1 }, Field { size: 1, align: 1 }];
    assert!(repr_c_layout(&fields).is_none());
    // padding alone pushes past usize::MAX
    let fields = [Field { size: usize::MAX - 2, align: 1 }, Field { size: 0, align: 8 }];
    assert!(repr_c_layout(&fields).is_none());
    let fields = [Field { size: usize::MAX - 2, align: 8 }];
    assert!(repr_c_layout(&fields).is_none());
}

#[test]
fn field_of_primitive() {
    assert_eq!(Field::of::<u64>(), Field { size: 8, align: std::mem::align_of::<u64>() });
    assert_eq!(Field::of::<u16>().size, 2);
}

#[test]
fn abi_constants() {
    assert_eq!(K_DL_CPU, 1);
    assert_eq!(K_DL_CUDA, 2);
    assert_eq!(K_DL_INT, 0);
    assert_eq!(K_DL_UINT, 1);
    assert_eq!(K_DL_FLOAT, 2);
    assert_eq!(K_DL_BOOL, 6);
    assert_eq!(K_DL_OPAQUE_HANDLE, 3);
    assert_eq!(K_DL_BFLOAT, 4);
    assert_eq!(K_DL_COMPLEX, 5);
    assert_eq!(
        [K_DL_CUDA_HOST, K_DL_OPENCL, K_DL_VULKAN, K_DL_METAL, K_DL_ROCM, K_DL_CUDA_MANAGED],
        [3, 4, 7, 8, 10, 13]
    );
    assert_eq!((K_DL_ONE_API, K_DL_WEB_GPU), (14, 15));
    assert_eq!(DLPACK_FLAG_BITMASK_READ_ONLY, 1);
    assert_eq!(DLPACK_FLAG_BITMASK_IS_COPIED, 2);
}
