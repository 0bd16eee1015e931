//! Tensor descriptors: the plain view of a buffer, and the managed handle
//! that owns one on behalf of whoever made it.

use vstd::prelude::*;
use vstd::std_specs::convert::FromSpecImpl;
use crate::datatype::DataType;
use crate::device::Device;
use crate::device::DeviceType;
use crate::pointer::lemma_addr_round_trip;
use crate::pointer::lemma_nullable_round_trip;
use crate::pointer::nullable;
use crate::pointer::spec_nullable;
use crate::pointer::ArrayPtr;
use crate::pointer::Handle;
use crate::wire::DLDataType;
use crate::wire::DLDevice;
use crate::wire::DLManagedTensor;
use crate::wire::DLTensor;

verus! {

/// The product of all extents; 1 for none.
pub open spec fn product(extents: Seq<usize>) -> nat
    decreases extents.len(),
{
    if extents.len() == 0 {
        1
    } else {
        product(extents.drop_last()) * (extents.last() as nat)
    }
}

/// Taking one more extent multiplies the product by it.
proof fn lemma_product_step(extents: Seq<usize>, k: int)
    requires
        0 <= k < extents.len(),
    ensures
        product(extents.take(k + 1)) == product(extents.take(k)) * (extents[k] as nat),
{
    assert(extents.take(k + 1).drop_last() =~= extents.take(k));
}

/// A product with a zero among its extents is zero.
proof fn lemma_product_zero(extents: Seq<usize>, k: int)
    requires
        0 <= k < extents.len(),
        extents[k] == 0,
    ensures
        product(extents) == 0,
    decreases extents.len(),
{
    if k < extents.len() - 1 {
        lemma_product_zero(extents.drop_last(), k);
        assert(product(extents.drop_last()) * (extents.last() as nat) == 0) by (nonlinear_arith)
            requires
                product(extents.drop_last()) == 0,
        ;
    } else {
        assert(product(extents.drop_last()) * (extents.last() as nat) == 0) by (nonlinear_arith)
            requires
                extents.last() == 0,
        ;
    }
}

/// Where no extent is zero, the product of the first `k` extents is at
/// most the product of all.
proof fn lemma_product_prefix(extents: Seq<usize>, k: int)
    requires
        0 <= k <= extents.len(),
        forall|j: int| 0 <= j < extents.len() ==> extents[j] >= 1,
    ensures
        product(extents.take(k)) <= product(extents),
    decreases extents.len() - k,
{
    if k == extents.len() {
        assert(extents.take(k) =~= extents);
    } else {
        lemma_product_step(extents, k);
        lemma_product_prefix(extents, k + 1);
        assert(product(extents.take(k)) <= product(extents.take(k)) * (extents[k] as nat))
            by (nonlinear_arith)
            requires
                extents[k] >= 1,
        ;
    }
}

/// The product of `extents`, or nothing where it is past `usize`.
fn checked_product(extents: &[usize]) -> (total: Option<usize>)
    ensures
        match total {
            Some(p) => p == product(extents@),
            None => product(extents@) > usize::MAX,
        },
{
    let mut i: usize = 0;
    while i < extents.len()
        invariant
            i <= extents.len(),
            forall|j: int| 0 <= j < i ==> extents@[j] >= 1,
        decreases extents.len() - i,
    {
        if extents[i] == 0 {
            proof {
                lemma_product_zero(extents@, i as int);
            }
            return Some(0);
        }
        i += 1;
    }
    let mut acc: usize = 1;
    let mut k: usize = 0;
    while k < extents.len()
        invariant
            k <= extents.len(),
            forall|j: int| 0 <= j < extents.len() ==> extents@[j] >= 1,
            acc == product(extents@.take(k as int)),
        decreases extents.len() - k,
    {
        proof {
            lemma_product_step(extents@, k as int);
        }
        match acc.checked_mul(extents[k]) {
            Some(next) => {
                acc = next;
            },
            None => {
                proof {
                    lemma_product_prefix(extents@, k + 1);
                }
                return None;
            },
        }
        k += 1;
    }
    proof {
        assert(extents@.take(k as int) =~= extents@);
    }
    Some(acc)
}

/// `per_item` times the product of `extents`, or nothing where that is
/// past `usize`.
fn checked_bytes(extents: &[usize], per_item: usize) -> (total: Option<usize>)
    ensures
        match total {
            Some(n) => n == product(extents@) * (per_item as nat),
            None => product(extents@) * (per_item as nat) > usize::MAX,
        },
{
    if per_item == 0 {
        assert(product(extents@) * (per_item as nat) == 0) by (nonlinear_arith)
            requires
                per_item == 0,
        ;
        return Some(0);
    }
    match checked_product(extents) {
        Some(p) => p.checked_mul(per_item),
        None => {
            assert(product(extents@) * (per_item as nat) >= product(extents@))
                by (nonlinear_arith)
                requires
                    per_item >= 1,
            ;
            None
        },
    }
}

/// A tensor as its holder sees it: where the data lies, on which device,
/// of what type and shape. It owns none of what it points to; the extent
/// arrays are borrowed for `'tensor`.
#[derive(Debug, Clone, Copy, PartialEq, Eq)]
pub struct Tensor<'tensor> {
    pub inner: DLTensor<'tensor>,
}

impl<'tensor> From<Tensor<'tensor>> for DLTensor<'tensor> {
    fn from(ts: Tensor<'tensor>) -> (ret: DLTensor<'tensor>) {
        ts.inner
    }
}

impl<'tensor> FromSpecImpl<Tensor<'tensor>> for DLTensor<'tensor> {
    open spec fn obeys_from_spec() -> bool {
        true
    }

    open spec fn from_spec(ts: Tensor<'tensor>) -> DLTensor<'tensor> {
        ts.to_wire()
    }
}

impl<'tensor> From<DLTensor<'tensor>> for Tensor<'tensor> {
    fn from(dts: DLTensor<'tensor>) -> (ret: Tensor<'tensor>) {
        Tensor { inner: dts }
    }
}

impl<'tensor> FromSpecImpl<DLTensor<'tensor>> for Tensor<'tensor> {
    open spec fn obeys_from_spec() -> bool {
        true
    }

    open spec fn from_spec(dts: DLTensor<'tensor>) -> Tensor<'tensor> {
        Tensor::of_wire(dts)
    }
}

impl<'tensor> Tensor<'tensor> {
    /// The record that this view holds.
    pub open spec fn to_wire(self) -> DLTensor<'tensor> {
        self.inner
    }

    /// The view that holds a record.
    pub open spec fn of_wire(record: DLTensor<'tensor>) -> Tensor<'tensor> {
        Tensor { inner: record }
    }

    /// Whether a view shows the array at `array`: neither that address nor
    /// the data address `data` may be null.
    pub open spec fn spec_shows(data: usize, array: usize) -> bool {
        data != 0 && array != 0
    }

    /// The extents that [`Self::shape`] shows.
    pub open spec fn spec_shape(self) -> Option<Seq<usize>> {
        if Self::spec_shows(self.inner.data, self.inner.shape.addr) {
            Some(self.inner.shape.items@)
        } else {
            None
        }
    }

    /// The strides that [`Self::strides`] shows.
    pub open spec fn spec_strides(self) -> Option<Seq<usize>> {
        if Self::spec_shows(self.inner.data, self.inner.strides.addr) {
            Some(self.inner.strides.items@)
        } else {
            None
        }
    }

    /// What whoever fills in a descriptor owes: each array that the view
    /// shows has one entry for each dimension.
    pub open spec fn wf(self) -> bool {
        &&& self.spec_shape() matches Some(extents) ==> extents.len() == self.inner.ndim
        &&& self.spec_strides() matches Some(strides) ==> strides.len() == self.inner.ndim
    }

    /// Bytes in the whole buffer: the product of the extents times the
    /// bytes that hold one element. Nothing where no shape is shown.
    pub open spec fn spec_size(self) -> Option<nat> {
        match self.spec_shape() {
            Some(extents) => Some(
                product(extents) * DataType::of_wire(self.inner.dtype).spec_storage_bytes(),
            ),
            None => None,
        }
    }

    /// Whether the byte count of the buffer can be held in a `usize`.
    pub open spec fn spec_size_fits(self) -> bool {
        self.spec_size() matches Some(bytes) ==> bytes <= usize::MAX
    }

    /// Going to the record and back gives the same view, field for field.
    pub proof fn lemma_wire_round_trip(tensor: Tensor<'tensor>)
        ensures
            Self::of_wire(tensor.to_wire()) == tensor,
    {
    }

    /// Going from a record to a view and back gives the same record,
    /// field for field.
    pub proof fn lemma_record_round_trip(record: DLTensor<'tensor>)
        ensures
            Self::of_wire(record).to_wire() == record,
    {
    }

    /// A view over the given fields, each stored as it is.
    pub fn new(
        data: usize,
        device: Device,
        ndim: i32,
        dtype: DataType,
        shape: ArrayPtr<'tensor>,
        strides: ArrayPtr<'tensor>,
        byte_offset: u64,
    ) -> (tensor: Tensor<'tensor>)
        ensures
            tensor.inner == (DLTensor {
                data,
                device: device.to_wire(),
                ndim,
                dtype: dtype.to_wire(),
                shape,
                strides,
                byte_offset,
            }),
    {
        let inner = DLTensor {
            data,
            device: DLDevice::from(device),
            ndim,
            dtype: DLDataType::from(dtype),
            shape,
            strides,
            byte_offset,
        };
        Tensor { inner }
    }

    /// The record that this view holds.
    pub fn into_inner(self) -> (record: DLTensor<'tensor>)
        ensures
            record == self.inner,
    {
        self.inner
    }

    /// Gives the view up for a record of its own on the heap.
    pub fn into_raw(self) -> (record: Box<DLTensor<'tensor>>)
        ensures
            *record == self.inner,
    {
        Box::new(self.inner)
    }

    /// A view of the record that `ptr` points to. `ptr` must not be null.
    pub fn from_raw(ptr: Option<&DLTensor<'tensor>>) -> (tensor: Tensor<'tensor>)
        requires
            ptr is Some,
        ensures
            tensor.inner == *ptr->0,
    {
        let record = ptr.unwrap();
        Tensor { inner: *record }
    }

    /// Address of the data buffer; zero for null.
    pub fn data(&self) -> (addr: usize)
        ensures
            addr == self.inner.data,
    {
        self.inner.data
    }

    /// The device that holds the buffer. The record's backend number must
    /// be one of the known set.
    pub fn device(&self) -> (device: Device)
        requires
            DeviceType::of_wire_code(self.inner.device.device_type as nat) is Some,
        ensures
            Some(device) == Device::of_wire(self.inner.device),
    {
        Device::from_wire(self.inner.device)
    }

    /// Whole bytes of one element: `lanes * bits / 8`, rounded down.
    pub fn itemsize(&self) -> (bytes: usize)
        ensures
            bytes == DataType::of_wire(self.inner.dtype).spec_itemsize(),
    {
        let ty = self.dtype();
        assert(ty.lanes * ty.bits <= 65535 * 255) by (nonlinear_arith)
            requires
                ty.lanes <= 65535,
                ty.bits <= 255,
        ;
        ty.lanes() * ty.bits() / 8_usize
    }

    /// Number of dimensions.
    pub fn ndim(&self) -> (n: usize)
        ensures
            n == self.inner.ndim as usize,
            self.inner.ndim >= 0 ==> n == self.inner.ndim,
    {
        self.inner.ndim as usize
    }

    /// Type of the elements.
    pub fn dtype(&self) -> (dtype: DataType)
        ensures
            dtype == DataType::of_wire(self.inner.dtype),
    {
        DataType::from(self.inner.dtype)
    }

    /// Whether a view shows the array at `array`: neither that address nor
    /// the data address `data` may be null.
    pub fn shows(data: usize, array: usize) -> (shown: bool)
        ensures
            shown == Self::spec_shows(data, array),
    {
        data != 0 && array != 0
    }

    /// The extent of each dimension. Nothing where the shape address or
    /// the data address is null.
    pub fn shape(&self) -> (shape: Option<&'tensor [usize]>)
        ensures
            shape is Some <==> self.inner.data != 0 && self.inner.shape.addr != 0,
            shape matches Some(extents) ==> extents == self.inner.shape.items,
            match shape {
                Some(extents) => self.spec_shape() == Some(extents@),
                None => self.spec_shape() is None,
            },
            self.wf() ==> (shape matches Some(extents) ==> extents@.len() == self.inner.ndim),
    {
        if Self::shows(self.inner.data, self.inner.shape.addr) {
            Some(self.inner.shape.items)
        } else {
            None
        }
    }

    /// The stride of each dimension. Nothing where the strides address or
    /// the data address is null.
    pub fn strides(&self) -> (strides: Option<&'tensor [usize]>)
        ensures
            strides is Some <==> self.inner.data != 0 && self.inner.strides.addr != 0,
            strides matches Some(steps) ==> steps == self.inner.strides.items,
            match strides {
                Some(steps) => self.spec_strides() == Some(steps@),
                None => self.spec_strides() is None,
            },
            self.wf() ==> (strides matches Some(steps) ==> steps@.len() == self.inner.ndim),
    {
        if Self::shows(self.inner.data, self.inner.strides.addr) {
            Some(self.inner.strides.items)
        } else {
            None
        }
    }

    /// Bytes from the data address to the first element.
    pub fn byte_offset(&self) -> (offset: u64)
        ensures
            offset == self.inner.byte_offset,
    {
        self.inner.byte_offset
    }

    /// Bytes that hold one element: `bits * lanes` bits rounded up to
    /// whole bytes.
    fn storage_bytes(&self) -> (bytes: usize)
        ensures
            bytes == DataType::of_wire(self.inner.dtype).spec_storage_bytes(),
    {
        let ty = self.dtype();
        assert(ty.bits * ty.lanes <= 255 * 65535) by (nonlinear_arith)
            requires
                ty.lanes <= 65535,
                ty.bits <= 255,
        ;
        (ty.bits() * ty.lanes() + 7) / 8
    }

    /// Whether the byte count of the buffer can be held in a `usize`, as
    /// [`Self::size`] needs.
    pub fn size_fits(&self) -> (fits: bool)
        ensures
            fits == self.spec_size_fits(),
    {
        match self.shape() {
            Some(extents) => checked_bytes(extents, self.storage_bytes()).is_some(),
            None => true,
        }
    }

    /// Bytes in the whole buffer: the product of the extents times the
    /// bytes that hold one element. Nothing where no shape is shown.
    pub fn size(&self) -> (bytes: Option<usize>)
        requires
            self.spec_size_fits(),
        ensures
            match bytes {
                Some(n) => self.spec_size() == Some(n as nat),
                None => self.spec_size() is None,
            },
    {
        match self.shape() {
            Some(extents) => checked_bytes(extents, self.storage_bytes()),
            None => None,
        }
    }
}

/// The cell that holds the owner's context: an opaque handle by which
/// whoever made the buffer finds it again. The library stores the handle,
/// hands it back and passes it on; it never looks behind it.
#[derive(Debug, PartialEq, Eq)]
pub struct ManagerContext {
    pub ptr: Option<Handle>,
}

impl ManagerContext {
    pub fn new(ptr: Option<Handle>) -> (ctx: ManagerContext)
        ensures
            ctx.ptr == ptr,
    {
        ManagerContext { ptr }
    }

    /// The handle held, if any.
    pub fn get(&self) -> (ptr: Option<Handle>)
        ensures
            ptr == self.ptr,
    {
        self.ptr
    }

    /// Puts `ptr` in place of the handle held. What was held before is
    /// neither looked at nor released.
    pub fn set(&mut self, ptr: Option<Handle>)
        ensures
            final(self).ptr == ptr,
    {
        self.ptr = ptr;
    }
}

/// What releasing a managed tensor asks of its holder: call the function
/// at `deleter` once, with the address of a record that holds `record`.
#[derive(Debug, PartialEq, Eq)]
pub struct DeleterCall<'a> {
    pub deleter: Handle,
    pub record: DLManagedTensor<'a>,
}

/// The managed record in safe form: a tensor record, the owner's context,
/// and the function, if any, that gives the buffer back to its owner.
#[derive(Debug, PartialEq, Eq)]
pub struct ManagedTensorProxy<'a> {
    /// The tensor that is managed.
    pub dl_tensor: DLTensor<'a>,
    /// The owner's context.
    pub manager_ctx: ManagerContext,
    /// The function to call on release.
    pub deleter: Option<Handle>,
}

impl<'a> ManagedTensorProxy<'a> {
    /// The handles held are valid, as every handle that a program holds is.
    pub open spec fn wf(self) -> bool {
        &&& self.manager_ctx.ptr matches Some(h) ==> h.is_valid()
        &&& self.deleter matches Some(h) ==> h.is_valid()
    }

    /// The record that this proxy stands for: the tensor record as it is,
    /// and null for a context or a deleter that is not there.
    pub open spec fn to_wire(self) -> DLManagedTensor<'a> {
        DLManagedTensor {
            dl_tensor: self.dl_tensor,
            manager_ctx: spec_nullable(self.manager_ctx.ptr),
            deleter: spec_nullable(self.deleter),
        }
    }

    /// The proxy that stands for a record: the tensor record as it is, and
    /// no context or no deleter where the record holds null.
    pub open spec fn of_wire(record: DLManagedTensor<'a>) -> ManagedTensorProxy<'a> {
        ManagedTensorProxy {
            dl_tensor: record.dl_tensor,
            manager_ctx: ManagerContext { ptr: Handle::of_addr(record.manager_ctx) },
            deleter: Handle::of_addr(record.deleter),
        }
    }

    /// What one release does: the proxy it leaves, and the call it asks
    /// for. A proxy with a deleter asks for one call of it, on the record
    /// that it stood for at that moment, and is left without a deleter. A
    /// proxy without one asks for nothing and stays as it is.
    pub open spec fn spec_release(self) -> (ManagedTensorProxy<'a>, Option<DeleterCall<'a>>) {
        match self.deleter {
            Some(deleter) => (
                ManagedTensorProxy {
                    dl_tensor: self.dl_tensor,
                    manager_ctx: self.manager_ctx,
                    deleter: None,
                },
                Some(DeleterCall { deleter, record: self.to_wire() }),
            ),
            None => (self, None),
        }
    }

    /// How many calls of the deleter `n` releases in a row ask for.
    pub open spec fn calls_in(self, n: nat) -> nat
        decreases n,
    {
        if n == 0 {
            0
        } else {
            let (left, call) = self.spec_release();
            (if call is Some {
                1nat
            } else {
                0nat
            }) + left.calls_in((n - 1) as nat)
        }
    }

    /// Going to the record and back gives the same proxy.
    pub proof fn lemma_wire_round_trip(proxy: ManagedTensorProxy<'a>)
        requires
            proxy.wf(),
        ensures
            Self::of_wire(proxy.to_wire()) == proxy,
    {
        lemma_nullable_round_trip(proxy.manager_ctx.ptr);
        lemma_nullable_round_trip(proxy.deleter);
    }

    /// Going from a record to a proxy and back gives the same record,
    /// field for field.
    pub proof fn lemma_record_round_trip(record: DLManagedTensor<'a>)
        ensures
            Self::of_wire(record).to_wire() == record,
            Self::of_wire(record).wf(),
    {
        lemma_addr_round_trip(record.manager_ctx);
        lemma_addr_round_trip(record.deleter);
        Handle::lemma_of_addr(record.manager_ctx);
        Handle::lemma_of_addr(record.deleter);
    }

    /// The deleter is called exactly once where one is registered, and
    /// never where none is: however many times a proxy is released, the
    /// first release of a proxy with a deleter asks for the one call, and
    /// no release after it asks for another.
    pub proof fn lemma_released_once(proxy: ManagedTensorProxy<'a>, n: nat)
        ensures
            proxy.calls_in(n) == (if n > 0 && proxy.deleter is Some {
                1nat
            } else {
                0nat
            }),
        decreases n,
    {
        if n > 0 {
            Self::lemma_released_once(proxy.spec_release().0, (n - 1) as nat);
        }
    }

    /// Release hands the deleter the record as it stands, deleter
    /// included, and touches neither the tensor nor the context.
    pub proof fn lemma_release_keeps_record(proxy: ManagedTensorProxy<'a>)
        ensures
            proxy.spec_release().0.dl_tensor == proxy.dl_tensor,
            proxy.spec_release().0.manager_ctx == proxy.manager_ctx,
            proxy.spec_release().0.deleter is None,
            proxy.spec_release().1 matches Some(call) ==> call.record == proxy.to_wire()
                && Some(call.deleter) == proxy.deleter,
    {
    }

    /// The tensor record held.
    pub fn dl_tensor(&self) -> (record: DLTensor<'a>)
        ensures
            record == self.dl_tensor,
    {
        self.dl_tensor
    }

    /// The owner's context handle, if any.
    pub fn manager_ctx(&self) -> (ptr: Option<Handle>)
        ensures
            ptr == self.manager_ctx.ptr,
    {
        self.manager_ctx.get()
    }

    /// Puts `manager_ctx` in place of the owner's context handle.
    pub fn set_manager_ctx(&mut self, manager_ctx: Handle)
        ensures
            final(self).manager_ctx.ptr == Some(manager_ctx),
            final(self).dl_tensor == old(self).dl_tensor,
            final(self).deleter == old(self).deleter,
    {
        self.manager_ctx.set(Some(manager_ctx));
    }

    /// The record that this proxy stands for. The proxy stays as it is.
    pub fn to_raw(&self) -> (record: DLManagedTensor<'a>)
        ensures
            record == self.to_wire(),
            self.wf(),
            Self::of_wire(record) == *self,
    {
        let manager_ctx = nullable(self.manager_ctx.ptr);
        let deleter = nullable(self.deleter);
        proof {
            lemma_nullable_round_trip(self.manager_ctx.ptr);
            lemma_nullable_round_trip(self.deleter);
        }
        DLManagedTensor { dl_tensor: self.dl_tensor, manager_ctx, deleter }
    }

    /// Ends the proxy's hold on the buffer. Where a deleter is registered,
    /// the call that the holder must now make is returned, once: the
    /// proxy is left without a deleter, so that no later release asks for
    /// the call again. Where none is registered nothing is asked for, and
    /// the buffer stays with whoever else knows of it.
    pub fn release(&mut self) -> (call: Option<DeleterCall<'a>>)
        ensures
            (*final(self), call) == old(self).spec_release(),
    {
        match self.deleter {
            Some(deleter) => {
                let record = self.to_raw();
                self.deleter = None;
                Some(DeleterCall { deleter, record })
            },
            None => None,
        }
    }
}

impl<'a> From<DLManagedTensor<'a>> for ManagedTensorProxy<'a> {
    /// Wraps the record: fields are taken over as they are, and neither
    /// the context nor the deleter is called or followed.
    fn from(dlmt: DLManagedTensor<'a>) -> (ret: ManagedTensorProxy<'a>) {
        let manager_ctx = ManagerContext::new(Handle::new(dlmt.manager_ctx));
        let deleter = Handle::new(dlmt.deleter);
        ManagedTensorProxy { dl_tensor: dlmt.dl_tensor, manager_ctx, deleter }
    }
}

impl<'a> FromSpecImpl<DLManagedTensor<'a>> for ManagedTensorProxy<'a> {
    open spec fn obeys_from_spec() -> bool {
        true
    }

    open spec fn from_spec(dlmt: DLManagedTensor<'a>) -> ManagedTensorProxy<'a> {
        ManagedTensorProxy::of_wire(dlmt)
    }
}

impl<'a> From<ManagedTensorProxy<'a>> for DLManagedTensor<'a> {
    /// The record that the proxy stood for. The deleter is not called.
    fn from(pmt: ManagedTensorProxy<'a>) -> (ret: DLManagedTensor<'a>) {
        pmt.to_raw()
    }
}

impl<'a> FromSpecImpl<ManagedTensorProxy<'a>> for DLManagedTensor<'a> {
    open spec fn obeys_from_spec() -> bool {
        true
    }

    open spec fn from_spec(pmt: ManagedTensorProxy<'a>) -> DLManagedTensor<'a> {
        pmt.to_wire()
    }
}

/// The handle that owns a managed tensor, one proxy for one handle.
#[derive(Debug, PartialEq, Eq)]
pub struct ManagedTensor<'tensor> {
    pub inner: ManagedTensorProxy<'tensor>,
}

impl<'tensor> From<DLManagedTensor<'tensor>> for ManagedTensor<'tensor> {
    fn from(dlm: DLManagedTensor<'tensor>) -> (ret: ManagedTensor<'tensor>) {
        ManagedTensor { inner: ManagedTensorProxy::from(dlm) }
    }
}

impl<'tensor> FromSpecImpl<DLManagedTensor<'tensor>> for ManagedTensor<'tensor> {
    open spec fn obeys_from_spec() -> bool {
        true
    }

    open spec fn from_spec(dlm: DLManagedTensor<'tensor>) -> ManagedTensor<'tensor> {
        ManagedTensor { inner: ManagedTensorProxy::of_wire(dlm) }
    }
}

impl<'tensor> From<ManagedTensor<'tensor>> for DLManagedTensor<'tensor> {
    fn from(mt: ManagedTensor<'tensor>) -> (ret: DLManagedTensor<'tensor>) {
        mt.inner.to_raw()
    }
}

impl<'tensor> FromSpecImpl<ManagedTensor<'tensor>> for DLManagedTensor<'tensor> {
    open spec fn obeys_from_spec() -> bool {
        true
    }

    open spec fn from_spec(mt: ManagedTensor<'tensor>) -> DLManagedTensor<'tensor> {
        mt.inner.to_wire()
    }
}

impl<'tensor> ManagedTensor<'tensor> {
    /// A managed tensor over `tensor` with the owner's context
    /// `manager_ctx` and no deleter.
    pub fn new(tensor: Tensor<'tensor>, manager_ctx: Option<Handle>) -> (mt: ManagedTensor<
        'tensor,
    >)
        ensures
            mt.inner.dl_tensor == tensor.inner,
            mt.inner.manager_ctx.ptr == manager_ctx,
            mt.inner.deleter is None,
    {
        let manager_ctx = ManagerContext::new(manager_ctx);
        let inner = ManagedTensorProxy {
            dl_tensor: tensor.into_inner(),
            manager_ctx,
            deleter: None,
        };
        ManagedTensor { inner }
    }

    /// Registers `deleter` as the function to call on release, in place of
    /// any registered before, which is not called.
    pub fn set_deleter(&mut self, deleter: Handle)
        ensures
            final(self).inner.deleter == Some(deleter),
            final(self).inner.dl_tensor == old(self).inner.dl_tensor,
            final(self).inner.manager_ctx == old(self).inner.manager_ctx,
    {
        self.inner.deleter = Some(deleter);
    }

    /// Gives the handle up for the record it stood for, on the heap, to
    /// pass on. No release takes place: the deleter goes along in the
    /// record, and calling it is now up to whoever receives it.
    pub fn into_raw(self) -> (record: Box<DLManagedTensor<'tensor>>)
        ensures
            *record == self.inner.to_wire(),
    {
        Box::new(self.inner.to_raw())
    }

    /// Takes over the record that `ptr` points to. `ptr` must not be null.
    pub fn from_raw(ptr: Option<&DLManagedTensor<'tensor>>) -> (mt: ManagedTensor<'tensor>)
        requires
            ptr is Some,
        ensures
            mt.inner == ManagedTensorProxy::of_wire(*ptr->0),
    {
        let record = ptr.unwrap();
        ManagedTensor { inner: ManagedTensorProxy::from(*record) }
    }

    /// Gives the handle up for the plain view of its tensor. Context and
    /// deleter are dropped: no release takes place, now or later.
    pub fn into_tensor(self) -> (tensor: Tensor<'tensor>)
        ensures
            tensor.inner == self.inner.dl_tensor,
    {
        Tensor::from(self.inner.dl_tensor)
    }

    /// Ends the handle's hold on the buffer: see
    /// [`ManagedTensorProxy::release`].
    pub fn release(&mut self) -> (call: Option<DeleterCall<'tensor>>)
        ensures
            (final(self).inner, call) == old(self).inner.spec_release(),
    {
        self.inner.release()
    }
}

} // verus!
