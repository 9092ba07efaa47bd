use vstd::prelude::*;
use crate::ep::MemoryRegionDesc;

verus! {

/// A key for remote access to a registered memory region, ready to be used in RMA and
/// atomic operations.
#[derive(Clone, Copy, Debug, PartialEq, Eq, Structural)]
pub struct MappedMemoryRegionKey {
    pub(crate) key: u64,
}

impl View for MappedMemoryRegionKey {
    type V = u64;

    closed spec fn view(&self) -> u64 {
        self.key
    }
}

impl MappedMemoryRegionKey {
    pub fn from_raw(key: u64) -> (r: Self)
        ensures
            r@ == key,
    {
        MappedMemoryRegionKey { key }
    }

    pub fn key(&self) -> (r: u64)
        ensures
            r == self@,
    {
        self.key
    }
}

/// An address in a peer's memory that holds values of type `T`.
#[derive(Debug)]
pub struct RemoteMemoryAddress<T> {
    pub(crate) addr: u64,
    pub(crate) marker: core::marker::PhantomData<T>,
}

impl<T> View for RemoteMemoryAddress<T> {
    type V = u64;

    closed spec fn view(&self) -> u64 {
        self.addr
    }
}

impl<T> RemoteMemoryAddress<T> {
    pub fn new(addr: u64) -> (r: Self)
        ensures
            r@ == addr,
    {
        RemoteMemoryAddress { addr, marker: core::marker::PhantomData }
    }

    pub fn as_raw(&self) -> (r: u64)
        ensures
            r == self@,
    {
        self.addr
    }
}

/// A run of `len` values of type `T` in a peer's memory, with the key that grants access.
#[derive(Debug)]
pub struct RemoteMemAddrSlice<T> {
    pub(crate) addr: u64,
    pub(crate) len: usize,
    pub(crate) key: MappedMemoryRegionKey,
    pub(crate) marker: core::marker::PhantomData<T>,
}

/// A run of `len` values of type `T` in a peer's memory that may be written, with the key
/// that grants access.
#[derive(Debug)]
pub struct RemoteMemAddrSliceMut<T> {
    pub(crate) addr: u64,
    pub(crate) len: usize,
    pub(crate) key: MappedMemoryRegionKey,
    pub(crate) marker: core::marker::PhantomData<T>,
}

impl<T> RemoteMemAddrSlice<T> {
    pub closed spec fn mem_address_spec(&self) -> u64 {
        self.addr
    }

    pub closed spec fn key_spec(&self) -> u64 {
        self.key@
    }

    pub closed spec fn len_spec(&self) -> usize {
        self.len
    }

    pub fn new(addr: u64, len: usize, key: MappedMemoryRegionKey) -> (r: Self)
        ensures
            r.mem_address_spec() == addr,
            r.len_spec() == len,
            r.key_spec() == key@,
    {
        RemoteMemAddrSlice { addr, len, key, marker: core::marker::PhantomData }
    }

    pub fn mem_address(&self) -> (r: RemoteMemoryAddress<T>)
        ensures
            r@ == self.mem_address_spec(),
    {
        RemoteMemoryAddress::new(self.addr)
    }

    pub fn key(&self) -> (r: &MappedMemoryRegionKey)
        ensures
            r@ == self.key_spec(),
    {
        &self.key
    }

    pub fn len(&self) -> (r: usize)
        ensures
            r == self.len_spec(),
    {
        self.len
    }
}

impl<T> RemoteMemAddrSliceMut<T> {
    pub closed spec fn mem_address_spec(&self) -> u64 {
        self.addr
    }

    pub closed spec fn key_spec(&self) -> u64 {
        self.key@
    }

    pub closed spec fn len_spec(&self) -> usize {
        self.len
    }

    pub fn new(addr: u64, len: usize, key: MappedMemoryRegionKey) -> (r: Self)
        ensures
            r.mem_address_spec() == addr,
            r.len_spec() == len,
            r.key_spec() == key@,
    {
        RemoteMemAddrSliceMut { addr, len, key, marker: core::marker::PhantomData }
    }

    pub fn mem_address(&self) -> (r: RemoteMemoryAddress<T>)
        ensures
            r@ == self.mem_address_spec(),
    {
        RemoteMemoryAddress::new(self.addr)
    }

    pub fn key(&self) -> (r: &MappedMemoryRegionKey)
        ensures
            r@ == self.key_spec(),
    {
        &self.key
    }

    pub fn len(&self) -> (r: usize)
        ensures
            r == self.len_spec(),
    {
        self.len
    }
}

/// A local buffer inside a registered memory region, with the region's descriptor.
pub struct MemoryRegionSlice<'a, T> {
    pub(crate) slice: &'a [T],
    pub(crate) desc: MemoryRegionDesc,
}

/// A local buffer inside a registered memory region that an operation fills, with the
/// region's descriptor.
pub struct MemoryRegionSliceMut<'a, T> {
    pub(crate) slice: &'a [T],
    pub(crate) desc: MemoryRegionDesc,
}

impl<'a, T> MemoryRegionSlice<'a, T> {
    pub closed spec fn data(&self) -> &'a [T] {
        self.slice
    }

    pub closed spec fn desc_spec(&self) -> MemoryRegionDesc {
        self.desc
    }

    pub fn new(slice: &'a [T], desc: MemoryRegionDesc) -> (r: Self)
        ensures
            r.data() == slice,
            r.desc_spec() == desc,
    {
        MemoryRegionSlice { slice, desc }
    }

    pub fn as_slice(&self) -> (r: &'a [T])
        ensures
            r == self.data(),
    {
        self.slice
    }

    pub fn desc(&self) -> (r: MemoryRegionDesc)
        ensures
            r == self.desc_spec(),
    {
        self.desc
    }
}

impl<'a, T> MemoryRegionSliceMut<'a, T> {
    pub closed spec fn data(&self) -> &'a [T] {
        self.slice
    }

    pub closed spec fn desc_spec(&self) -> MemoryRegionDesc {
        self.desc
    }

    pub fn new(slice: &'a [T], desc: MemoryRegionDesc) -> (r: Self)
        ensures
            r.data() == slice,
            r.desc_spec() == desc,
    {
        MemoryRegionSliceMut { slice, desc }
    }

    pub fn as_mut_slice(&self) -> (r: &'a [T])
        ensures
            r == self.data(),
    {
        self.slice
    }

    pub fn desc(&self) -> (r: MemoryRegionDesc)
        ensures
            r == self.desc_spec(),
    {
        self.desc
    }
}

/// An I/O vector entry (`struct iovec`): `len` bytes at `addr` that an operation reads.
#[derive(Clone, Copy, Debug, PartialEq, Eq, Structural)]
pub struct IoVec {
    pub(crate) addr: u64,
    pub(crate) len: usize,
}

/// An I/O vector entry (`struct iovec`): `len` bytes at `addr` that an operation fills.
#[derive(Clone, Copy, Debug, PartialEq, Eq, Structural)]
pub struct IoVecMut {
    pub(crate) addr: u64,
    pub(crate) len: usize,
}

impl View for IoVec {
    type V = (u64, usize);

    closed spec fn view(&self) -> (u64, usize) {
        (self.addr, self.len)
    }
}

impl View for IoVecMut {
    type V = (u64, usize);

    closed spec fn view(&self) -> (u64, usize) {
        (self.addr, self.len)
    }
}

impl IoVec {
    pub fn from_raw(addr: u64, len: usize) -> (r: Self)
        ensures
            r@ == (addr, len),
    {
        IoVec { addr, len }
    }
}

impl IoVecMut {
    pub fn from_raw(addr: u64, len: usize) -> (r: Self)
        ensures
            r@ == (addr, len),
    {
        IoVecMut { addr, len }
    }
}

/// An atomic I/O vector entry (`struct fi_ioc`): `count` values of type `T` at `addr`.
#[derive(Debug)]
pub struct Ioc<T> {
    pub(crate) addr: u64,
    pub(crate) count: usize,
    pub(crate) marker: core::marker::PhantomData<T>,
}

/// An atomic I/O vector entry that an operation fills.
#[derive(Debug)]
pub struct IocMut<T> {
    pub(crate) addr: u64,
    pub(crate) count: usize,
    pub(crate) marker: core::marker::PhantomData<T>,
}

impl<T> View for Ioc<T> {
    type V = (u64, usize);

    closed spec fn view(&self) -> (u64, usize) {
        (self.addr, self.count)
    }
}

impl<T> Ioc<T> {
    pub fn from_raw(addr: u64, count: usize) -> (r: Self)
        ensures
            r@ == (addr, count),
    {
        Ioc { addr, count, marker: core::marker::PhantomData }
    }
}

impl<T> View for IocMut<T> {
    type V = (u64, usize);

    closed spec fn view(&self) -> (u64, usize) {
        (self.addr, self.count)
    }
}

impl<T> IocMut<T> {
    pub fn from_raw(addr: u64, count: usize) -> (r: Self)
        ensures
            r@ == (addr, count),
    {
        IocMut { addr, count, marker: core::marker::PhantomData }
    }
}

/// A multicast group of peers that collective operations run across, named by its
/// collective address.
#[derive(Clone, Copy, Debug, PartialEq, Eq, Structural)]
pub struct MultiCastGroup {
    pub(crate) coll_addr: u64,
}

impl View for MultiCastGroup {
    type V = u64;

    closed spec fn view(&self) -> u64 {
        self.coll_addr
    }
}

impl MultiCastGroup {
    pub fn from_raw_addr(coll_addr: u64) -> (r: Self)
        ensures
            r@ == coll_addr,
    {
        MultiCastGroup { coll_addr }
    }

    pub fn raw_addr(&self) -> (r: u64)
        ensures
            r == self@,
    {
        self.coll_addr
    }
}

} // verus!
