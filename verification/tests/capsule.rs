use dlpack_rs::pyo3_glue::{
    capsule_destructor_deletes, capsule_variant, CapsuleName, CapsuleNameError, DLPackVariant,
};

#[test]
fn capsule_name_bytes() {
    assert_eq!(CapsuleName::DlTensor.bytes(), b"dltensor".to_vec());
    assert_eq!(CapsuleName::DlTensorVersioned.bytes(), b"dltensor_versioned".to_vec());
    assert_eq!(CapsuleName::UsedDlTensor.bytes(), b"used_dltensor".to_vec());
    assert_eq!(CapsuleName::UsedDlTensorVersioned.bytes(), b"used_dltensor_versioned".to_vec());
}

#[test]
fn capsule_name_from_bytes() {
    assert_eq!(CapsuleName::from_bytes(b"dltensor"), Some(CapsuleName::DlTensor));
    assert_eq!(CapsuleName::from_bytes(b"dltensor_versioned"), Some(CapsuleName::DlTensorVersioned));
    assert_eq!(CapsuleName::from_bytes(b"used_dltensor"), Some(CapsuleName::UsedDlTensor));
    assert_eq!(
        CapsuleName::from_bytes(b"used_dltensor_versioned"),
        Some(CapsuleName::UsedDlTensorVersioned)
    );
    assert_eq!(CapsuleName::from_bytes(b"dltenso"), None);
    assert_eq!(CapsuleName::from_bytes(b"DLTENSOR"), None);
    assert_eq!(CapsuleName::from_bytes(b""), None);
}

#[test]
fn variant_names() {
    assert_eq!(DLPackVariant::Legacy.capsule_name(), CapsuleName::DlTensor);
    assert_eq!(DLPackVariant::Versioned.capsule_name(), CapsuleName::DlTensorVersioned);
    assert_eq!(DLPackVariant::Legacy.used_capsule_name(), CapsuleName::UsedDlTensor);
    assert_eq!(DLPackVariant::Versioned.used_capsule_name(), CapsuleName::UsedDlTensorVersioned);
}

#[test]
fn consumer_accepts_producer_names() {
    assert_eq!(capsule_variant(Some(b"dltensor")), Ok(DLPackVariant::Legacy));
    assert_eq!(capsule_variant(Some(b"dltensor_versioned")), Ok(DLPackVariant::Versioned));
}

#[test]
fn consumer_refuses_missing_name() {
    assert_eq!(capsule_variant(None), Err(CapsuleNameError::MissingName));
}

#[test]
fn consumer_refuses_consumed_or_foreign_names() {
    assert_eq!(capsule_variant(Some(b"used_dltensor")), Err(CapsuleNameError::UnexpectedName));
    assert_eq!(
        capsule_variant(Some(b"used_dltensor_versioned")),
        Err(CapsuleNameError::UnexpectedName)
    );
    assert_eq!(capsule_variant(Some(b"arrow_array")), Err(CapsuleNameError::UnexpectedName));
}

#[test]
fn destructor_deletes_only_unconsumed_capsules() {
    assert!(capsule_destructor_deletes(DLPackVariant::Legacy, Some(b"dltensor")));
    assert!(!capsule_destructor_deletes(DLPackVariant::Legacy, Some(b"used_dltensor")));
    assert!(!capsule_destructor_deletes(DLPackVariant::Legacy, Some(b"dltensor_versioned")));
    assert!(!capsule_destructor_deletes(DLPackVariant::Legacy, None));
    assert!(capsule_destructor_deletes(DLPackVariant::Versioned, Some(b"dltensor_versioned")));
    assert!(!capsule_destructor_deletes(
        DLPackVariant::Versioned,
        Some(b"used_dltensor_versioned")
    ));
    assert!(!capsule_destructor_deletes(DLPackVariant::Versioned, Some(b"dltensor")));
}

/// Walks a capsule through export, import, release and collection with the
/// library's decisions, counting how often the deleter runs.
fn run_lifecycle(variant: DLPackVariant, consume: bool, finalize_first: bool) -> u32 {
    let mut name: Vec<u8> = variant.capsule_name().bytes();
    let mut consumer: Option<DLPackVariant> = None;
    let mut calls = 0u32;
    if consume {
        if let Ok(v) = capsule_variant(Some(&name)) {
            name = v.used_capsule_name().bytes();
            consumer = Some(v);
        }
        // a second import of the same capsule is refused
        assert!(capsule_variant(Some(&name)).is_err());
    }
    let finalize = |name: &Vec<u8>, calls: &mut u32| {
        if capsule_destructor_deletes(variant, Some(name)) {
            *calls += 1;
        }
    };
    if finalize_first {
        finalize(&name, &mut calls);
    }
    if consumer.take().is_some() {
        calls += 1;
    }
    if !finalize_first {
        finalize(&name, &mut calls);
    }
    calls
}

#[test]
fn deleter_runs_once_in_every_lifecycle() {
    for variant in [DLPackVariant::Legacy, DLPackVariant::Versioned] {
        for consume in [false, true] {
            for finalize_first in [false, true] {
                assert_eq!(run_lifecycle(variant, consume, finalize_first), 1);
            }
        }
    }
}
