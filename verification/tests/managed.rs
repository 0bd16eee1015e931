use dlpackrs::pointer::{nullable, ArrayPtr, Handle};
use dlpackrs::tensor::DeleterCall;
use dlpackrs::wire::{DLDataType, DLDevice, DLManagedTensor, DLTensor};
use dlpackrs::{abi_version, version};
use dlpackrs::{DataType, Device, ManagedTensor, ManagedTensorProxy, ManagerContext, Tensor};

const DATA: usize = 0x1000;
const SHAPE: usize = 0x2000;
const CTX: usize = 0x4000;
const DELETER: usize = 0x5000;
const SHAPE_ITEMS: [usize; 2] = [2, 3];

fn record(manager_ctx: usize, deleter: usize) -> DLManagedTensor<'static> {
    DLManagedTensor {
        dl_tensor: DLTensor {
            data: DATA,
            device: DLDevice { device_type: 1, device_id: 0 },
            ndim: 2,
            dtype: DLDataType { code: 2, bits: 32, lanes: 1 },
            shape: ArrayPtr { addr: SHAPE, items: &SHAPE_ITEMS },
            strides: ArrayPtr { addr: 0, items: &[] },
            byte_offset: 0,
        },
        manager_ctx,
        deleter,
    }
}

fn handle(addr: usize) -> Handle {
    Handle::new(addr).unwrap()
}

#[test]
fn format_versions() {
    assert_eq!(version(), 70);
    assert_eq!(abi_version(), 1);
}

#[test]
fn handle_is_never_null() {
    assert_eq!(Handle::new(0), None);
    assert_eq!(handle(CTX).addr(), CTX);
    assert_eq!(handle(usize::MAX).addr(), usize::MAX);
    assert_eq!(nullable(None), 0);
    assert_eq!(nullable(Handle::new(CTX)), CTX);
}

#[test]
fn manager_context_get_and_set() {
    let mut ctx = ManagerContext::new(None);
    assert_eq!(ctx.get(), None);
    ctx.set(Some(handle(CTX)));
    assert_eq!(ctx.get(), Some(handle(CTX)));
    assert_eq!(ctx.ptr, Some(handle(CTX)));
    ctx.set(Some(handle(CTX + 8)));
    assert_eq!(ctx.get(), Some(handle(CTX + 8)));
    ctx.set(None);
    assert_eq!(ctx.get(), None);
}

#[test]
fn proxy_from_record_takes_fields_over() {
    let proxy = ManagedTensorProxy::from(record(CTX, DELETER));
    assert_eq!(proxy.dl_tensor(), record(CTX, DELETER).dl_tensor);
    assert_eq!(proxy.manager_ctx(), Some(handle(CTX)));
    assert_eq!(proxy.deleter, Some(handle(DELETER)));
}

#[test]
fn proxy_from_record_with_nulls() {
    let proxy = ManagedTensorProxy::from(record(0, 0));
    assert_eq!(proxy.manager_ctx(), None);
    assert_eq!(proxy.deleter, None);
}

#[test]
fn proxy_record_round_trip() {
    for (ctx, deleter) in [(0, 0), (CTX, 0), (0, DELETER), (CTX, DELETER)] {
        let raw = record(ctx, deleter);
        let proxy = ManagedTensorProxy::from(raw);
        assert_eq!(proxy.to_raw(), raw);
        assert_eq!(DLManagedTensor::from(proxy), raw);
    }
}

#[test]
fn proxy_wire_round_trip() {
    let proxy = ManagedTensorProxy {
        dl_tensor: record(0, 0).dl_tensor,
        manager_ctx: ManagerContext::new(Some(handle(CTX))),
        deleter: Some(handle(DELETER)),
    };
    let back = ManagedTensorProxy::from(proxy.to_raw());
    assert_eq!(back, proxy);
}

#[test]
fn proxy_set_manager_ctx() {
    let mut proxy = ManagedTensorProxy::from(record(0, DELETER));
    proxy.set_manager_ctx(handle(CTX));
    assert_eq!(proxy.manager_ctx(), Some(handle(CTX)));
    assert_eq!(proxy.to_raw(), record(CTX, DELETER));
}

#[test]
fn release_with_deleter_calls_it_exactly_once() {
    let mut mt = ManagedTensor::from(record(CTX, DELETER));
    let mut calls = 0;
    for _ in 0..5 {
        if let Some(call) = mt.release() {
            calls += 1;
            assert_eq!(call, DeleterCall { deleter: handle(DELETER), record: record(CTX, DELETER) });
        }
    }
    assert_eq!(calls, 1);
    assert_eq!(mt.inner.deleter, None);
    assert_eq!(mt.inner.manager_ctx(), Some(handle(CTX)));
    assert_eq!(mt.inner.dl_tensor(), record(CTX, DELETER).dl_tensor);
}

#[test]
fn release_without_deleter_calls_nothing() {
    let tensor = Tensor::from(record(0, 0).dl_tensor);
    let mut mt = ManagedTensor::new(tensor, Some(handle(CTX)));
    let mut calls = 0;
    for _ in 0..3 {
        if mt.release().is_some() {
            calls += 1;
        }
    }
    assert_eq!(calls, 0);
    assert_eq!(mt.inner.to_raw(), record(CTX, 0));
}

#[test]
fn release_of_wrapped_record_with_nulls() {
    let raw = record(0, 0);
    let mut mt = ManagedTensor::from_raw(Some(&raw));
    assert_eq!(mt.release(), None);
    assert_eq!(mt.inner.to_raw(), raw);
}

#[test]
fn proxy_release_hands_over_current_fields() {
    let mut proxy = ManagedTensorProxy::from(record(0, DELETER));
    proxy.set_manager_ctx(handle(CTX));
    let call = proxy.release().unwrap();
    assert_eq!(call.deleter.addr(), DELETER);
    assert_eq!(call.record, record(CTX, DELETER));
    assert_eq!(proxy.release(), None);
}

#[test]
fn managed_tensor_new_has_no_deleter() {
    let tensor = Tensor::new(
        DATA,
        Device::default(),
        2,
        DataType::float32(),
        ArrayPtr::new(SHAPE, &SHAPE_ITEMS),
        ArrayPtr::null(),
        0,
    );
    let mt = ManagedTensor::new(tensor, None);
    assert_eq!(mt.inner.dl_tensor(), tensor.inner);
    assert_eq!(mt.inner.manager_ctx(), None);
    assert_eq!(mt.inner.deleter, None);
    assert_eq!(DLManagedTensor::from(mt), record(0, 0));
}

#[test]
fn set_deleter_replaces_without_calling() {
    let mut mt = ManagedTensor::from(record(CTX, DELETER));
    mt.set_deleter(handle(DELETER + 16));
    assert_eq!(mt.inner.deleter, Some(handle(DELETER + 16)));
    let call = mt.release().unwrap();
    assert_eq!(call.deleter, handle(DELETER + 16));
    assert_eq!(call.record, record(CTX, DELETER + 16));
    assert_eq!(mt.release(), None);
}

#[test]
fn into_raw_passes_the_deleter_on() {
    let mut mt = ManagedTensor::from(record(CTX, 0));
    mt.set_deleter(handle(DELETER));
    let boxed = mt.into_raw();
    assert_eq!(*boxed, record(CTX, DELETER));
    let mut back = ManagedTensor::from_raw(Some(&*boxed));
    assert_eq!(back.inner.to_raw(), record(CTX, DELETER));
    assert!(back.release().is_some());
}

#[test]
fn into_tensor_keeps_only_the_descriptor() {
    let mt = ManagedTensor::from(record(CTX, DELETER));
    let tensor = mt.into_tensor();
    assert_eq!(tensor.inner, record(CTX, DELETER).dl_tensor);
    assert_eq!(tensor.shape(), Some(&SHAPE_ITEMS[..]));
    assert_eq!(tensor.size(), Some(24));
}
