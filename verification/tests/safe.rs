use dlpack_rs::ffi::{DLDataType, DLDevice, DLPackVersion, K_DL_CPU, K_DL_CUDA, K_DL_UINT};
use dlpack_rs::safe::{
    cpu_device, cuda_device, dtype_bool, dtype_f32, dtype_f64, dtype_i32, dtype_i64, dtype_u16,
    dtype_u8, pack, pack_versioned, TensorInfo,
};
use std::cell::Cell;
use std::rc::Rc;

#[test]
fn pack_then_delete_drops_keepalive_once() {
    // keep-alive whose Drop flips a flag — proves no leak / no double free.
    struct Guard(Rc<Cell<u32>>);
    impl Drop for Guard {
        fn drop(&mut self) {
            self.0.set(self.0.get() + 1);
        }
    }
    let flag = Rc::new(Cell::new(0u32));
    let buf = vec![1.0f32, 2.0, 3.0, 4.0];
    let info = TensorInfo::contiguous(buf.as_ptr() as usize, cpu_device(), dtype_f32(), vec![2, 2]);
    let mt = pack(Guard(flag.clone()), info);
    // shape matches
    assert_eq!(mt.dl_tensor.ndim, 2);
    assert_eq!(mt.dl_tensor.shape[0], 2);
    assert_eq!(flag.get(), 0);
    drop(mt);
    assert_eq!(flag.get(), 1, "keepalive dropped exactly once");
    drop(buf);
}

#[test]
fn device_constructors() {
    assert_eq!(cpu_device(), DLDevice { device_type: K_DL_CPU, device_id: 0 });
    assert_eq!(cuda_device(3), DLDevice { device_type: K_DL_CUDA, device_id: 3 });
    assert_eq!(cpu_device().device_type, 1);
    assert_eq!(cuda_device(0).device_type, 2);
}

#[test]
fn dtype_constructors() {
    assert_eq!(dtype_u8(), DLDataType { code: K_DL_UINT, bits: 8, lanes: 1 });
    assert_eq!(dtype_u16(), DLDataType { code: 1, bits: 16, lanes: 1 });
    assert_eq!(dtype_i32(), DLDataType { code: 0, bits: 32, lanes: 1 });
    assert_eq!(dtype_i64(), DLDataType { code: 0, bits: 64, lanes: 1 });
    assert_eq!(dtype_f32(), DLDataType { code: 2, bits: 32, lanes: 1 });
    assert_eq!(dtype_f64(), DLDataType { code: 2, bits: 64, lanes: 1 });
    assert_eq!(dtype_bool(), DLDataType { code: 6, bits: 8, lanes: 1 });
}

#[test]
fn tensor_info_builders() {
    let c = TensorInfo::contiguous(0x1000, cpu_device(), dtype_u8(), vec![4, 5]);
    assert_eq!(c.data, 0x1000);
    assert_eq!(c.shape, vec![4, 5]);
    assert!(c.strides.is_none());
    assert_eq!(c.byte_offset, 0);

    let s = TensorInfo::strided(0x2000, cuda_device(1), dtype_i64(), vec![4, 5], vec![1, 4]);
    assert_eq!(s.strides, Some(vec![1, 4]));
    assert_eq!(s.device, cuda_device(1));
    assert_eq!(s.byte_offset, 0);

    let o = s.with_byte_offset(16);
    assert_eq!(o.byte_offset, 16);
    assert_eq!(o.shape, vec![4, 5]);
    assert_eq!(o.strides, Some(vec![1, 4]));
    assert_eq!(o.data, 0x2000);
    assert_eq!(o.dtype, dtype_i64());
}

#[test]
fn pack_copies_description_into_header() {
    let info = TensorInfo::strided(0x40, cpu_device(), dtype_f64(), vec![2, 3, 4], vec![12, 4, 1])
        .with_byte_offset(8);
    let m = pack(7u32, info);
    assert_eq!(m.keepalive, 7);
    assert_eq!(m.dl_tensor.ndim, 3);
    assert_eq!(m.dl_tensor.data, 0x40);
    assert_eq!(m.dl_tensor.device, cpu_device());
    assert_eq!(m.dl_tensor.dtype, dtype_f64());
    assert_eq!(m.dl_tensor.shape, vec![2, 3, 4]);
    assert_eq!(m.dl_tensor.strides, Some(vec![12, 4, 1]));
    assert_eq!(m.dl_tensor.byte_offset, 8);
}

#[test]
fn pack_scalar_has_rank_zero() {
    let m = pack((), TensorInfo::contiguous(0, cpu_device(), dtype_bool(), vec![]));
    assert_eq!(m.dl_tensor.ndim, 0);
    assert!(m.dl_tensor.shape.is_empty());
    assert!(m.dl_tensor.strides.is_none());
}

#[test]
fn pack_versioned_sets_version_and_flags() {
    let info = TensorInfo::contiguous(0x10, cpu_device(), dtype_f32(), vec![3]);
    let m = pack_versioned(String::from("owner"), info, 1);
    assert_eq!(m.version, DLPackVersion { major: 1, minor: 0 });
    assert_eq!(m.flags, 1);
    assert_eq!(m.keepalive, "owner");
    assert_eq!(m.dl_tensor.ndim, 1);
    assert_eq!(m.dl_tensor.shape, vec![3]);
}
