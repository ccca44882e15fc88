//! Small helpers shared by the bus and the devices: address checks and the
//! queues through which devices talk to the world outside the emulator.
use vstd::prelude::*;
use crossbeam_queue::{ArrayQueue, SegQueue};
use crate::device::device_kb::DeviceKbItem;
use crate::device::device_mouse::DeviceMouseItem;

verus! {

/// `addr` is a multiple of `len`, and `len` is an access size (1, 2, 4 or 8).
pub open spec fn aligned(addr: u64, len: int) -> bool {
    (len == 1 || len == 2 || len == 4 || len == 8) && addr % (len as u64) == 0
}

pub fn check_aligned(addr: u64, len: usize) -> (r: bool)
    ensures
        r == aligned(addr, len as int),
{
    if len == 1 || len == 2 || len == 4 || len == 8 {
        addr % (len as u64) == 0
    } else {
        false
    }
}

/// `addr` falls in the window of `len` bytes at `start`.
pub open spec fn in_area(start: u64, len: u64, addr: u64) -> bool {
    start <= addr && addr - start < len
}

pub fn check_area(start: u64, len: u64, addr: u64) -> (r: bool)
    ensures
        r == in_area(start, len, addr),
{
    addr >= start && addr - start < len
}

#[verifier::external_type_specification]
#[verifier::external_body]
#[verifier::reject_recursive_types(T)]
pub struct ExSegQueue<T>(SegQueue<T>);

#[verifier::external_type_specification]
#[verifier::external_body]
#[verifier::reject_recursive_types(T)]
pub struct ExArrayQueue<T>(ArrayQueue<T>);

/// The bytes a byte queue holds, front first.
pub uninterp spec fn seg_queue_bytes(q: SegQueue<u8>) -> Seq<u8>;

/// The key events a key queue holds, front first.
pub uninterp spec fn seg_queue_keys(q: SegQueue<DeviceKbItem>) -> Seq<DeviceKbItem>;

/// The mouse reports a bounded queue holds, front first.
pub uninterp spec fn array_queue_mice(q: ArrayQueue<DeviceMouseItem>) -> Seq<DeviceMouseItem>;

/// The number of items a bounded queue was made to hold.
pub uninterp spec fn array_queue_capacity(q: ArrayQueue<DeviceMouseItem>) -> nat;

/// `SegQueue::new`: an empty queue.
#[verifier::external_body]
fn byte_queue_new() -> (r: SegQueue<u8>)
    ensures
        seg_queue_bytes(r) == Seq::<u8>::empty(),
{
    SegQueue::new()
}

/// `SegQueue::push`: `v` goes to the back.
#[verifier::external_body]
fn byte_queue_push(q: &mut SegQueue<u8>, v: u8)
    ensures
        seg_queue_bytes(*final(q)) == seg_queue_bytes(*old(q)).push(v),
{
    q.push(v)
}

/// `SegQueue::pop`: the front item leaves, if there is one.
#[verifier::external_body]
fn byte_queue_pop(q: &mut SegQueue<u8>) -> (r: Option<u8>)
    ensures
        seg_queue_bytes(*old(q)).len() == 0 ==> r is None && seg_queue_bytes(*final(q)) == seg_queue_bytes(*old(q)),
        seg_queue_bytes(*old(q)).len() > 0 ==> r == Some(seg_queue_bytes(*old(q))[0])
            && seg_queue_bytes(*final(q)) == seg_queue_bytes(*old(q)).drop_first(),
{
    q.pop()
}

/// `SegQueue::len`: the number of items.
#[verifier::external_body]
fn byte_queue_len(q: &SegQueue<u8>) -> (r: usize)
    ensures
        r == seg_queue_bytes(*q).len(),
{
    q.len()
}

/// `SegQueue::new`: an empty queue.
#[verifier::external_body]
fn key_queue_new() -> (r: SegQueue<DeviceKbItem>)
    ensures
        seg_queue_keys(r) == Seq::<DeviceKbItem>::empty(),
{
    SegQueue::new()
}

/// `SegQueue::push`: `v` goes to the back.
#[verifier::external_body]
fn key_queue_push(q: &mut SegQueue<DeviceKbItem>, v: DeviceKbItem)
    ensures
        seg_queue_keys(*final(q)) == seg_queue_keys(*old(q)).push(v),
{
    q.push(v)
}

/// `SegQueue::pop`: the front item leaves, if there is one.
#[verifier::external_body]
fn key_queue_pop(q: &mut SegQueue<DeviceKbItem>) -> (r: Option<DeviceKbItem>)
    ensures
        seg_queue_keys(*old(q)).len() == 0 ==> r is None && seg_queue_keys(*final(q)) == seg_queue_keys(*old(q)),
        seg_queue_keys(*old(q)).len() > 0 ==> r == Some(seg_queue_keys(*old(q))[0])
            && seg_queue_keys(*final(q)) == seg_queue_keys(*old(q)).drop_first(),
{
    q.pop()
}

/// `ArrayQueue::new`: an empty queue for at most `cap` items (it panics
/// for none).
#[verifier::external_body]
fn mouse_queue_new(cap: usize) -> (r: ArrayQueue<DeviceMouseItem>)
    requires
        cap > 0,
    ensures
        array_queue_mice(r) == Seq::<DeviceMouseItem>::empty(),
        array_queue_capacity(r) == cap,
{
    ArrayQueue::new(cap)
}

/// `ArrayQueue::force_push`: `v` goes to the back; a full queue first
/// gives up its front item, which is returned.
#[verifier::external_body]
fn mouse_queue_force_push(q: &mut ArrayQueue<DeviceMouseItem>, v: DeviceMouseItem) -> (r: Option<DeviceMouseItem>)
    ensures
        array_queue_capacity(*final(q)) == array_queue_capacity(*old(q)),
        array_queue_mice(*old(q)).len() < array_queue_capacity(*old(q)) ==> r is None
            && array_queue_mice(*final(q)) == array_queue_mice(*old(q)).push(v),
        array_queue_mice(*old(q)).len() >= array_queue_capacity(*old(q)) ==> r == Some(array_queue_mice(*old(q))[0])
            && array_queue_mice(*final(q)) == array_queue_mice(*old(q)).drop_first().push(v),
{
    q.force_push(v)
}

/// `ArrayQueue::pop`: the front item leaves, if there is one.
#[verifier::external_body]
fn mouse_queue_pop(q: &mut ArrayQueue<DeviceMouseItem>) -> (r: Option<DeviceMouseItem>)
    ensures
        array_queue_capacity(*final(q)) == array_queue_capacity(*old(q)),
        array_queue_mice(*old(q)).len() == 0 ==> r is None && array_queue_mice(*final(q)) == array_queue_mice(*old(q)),
        array_queue_mice(*old(q)).len() > 0 ==> r == Some(array_queue_mice(*old(q))[0])
            && array_queue_mice(*final(q)) == array_queue_mice(*old(q)).drop_first(),
{
    q.pop()
}

/// `ArrayQueue::len`: the number of items.
#[verifier::external_body]
fn mouse_queue_len(q: &ArrayQueue<DeviceMouseItem>) -> (r: usize)
    ensures
        r == array_queue_mice(*q).len(),
{
    q.len()
}

/// A first-in first-out byte queue without a bound (a crossbeam `SegQueue`).
pub struct FifoUnbounded {
    queue: SegQueue<u8>,
}

impl View for FifoUnbounded {
    type V = Seq<u8>;

    closed spec fn view(&self) -> Seq<u8> {
        seg_queue_bytes(self.queue)
    }
}

impl FifoUnbounded {
    pub fn new() -> (r: Self)
        ensures
            r@ == Seq::<u8>::empty(),
    {
        FifoUnbounded { queue: byte_queue_new() }
    }

    /// Appends `item` at the back.
    pub fn push(&mut self, item: u8)
        ensures
            final(self)@ == old(self)@.push(item),
    {
        byte_queue_push(&mut self.queue, item);
    }

    /// Takes the item at the front, if any.
    pub fn pop(&mut self) -> (r: Option<u8>)
        ensures
            old(self)@.len() == 0 ==> r is None && final(self)@ == old(self)@,
            old(self)@.len() > 0 ==> r == Some(old(self)@[0]) && final(self)@ == old(self)@.drop_first(),
    {
        byte_queue_pop(&mut self.queue)
    }

    pub fn len(&self) -> (r: usize)
        ensures
            r == self@.len(),
    {
        byte_queue_len(&self.queue)
    }

    pub fn is_empty(&self) -> (r: bool)
        ensures
            r == (self@.len() == 0),
    {
        byte_queue_len(&self.queue) == 0
    }
}

/// A first-in first-out queue of key events without a bound (a crossbeam `SegQueue`).
pub struct KeyQueue {
    queue: SegQueue<DeviceKbItem>,
}

impl View for KeyQueue {
    type V = Seq<DeviceKbItem>;

    closed spec fn view(&self) -> Seq<DeviceKbItem> {
        seg_queue_keys(self.queue)
    }
}

impl KeyQueue {
    pub fn new() -> (r: Self)
        ensures
            r@ == Seq::<DeviceKbItem>::empty(),
    {
        KeyQueue { queue: key_queue_new() }
    }

    /// Appends `item` at the back.
    pub fn push(&mut self, item: DeviceKbItem)
        ensures
            final(self)@ == old(self)@.push(item),
    {
        key_queue_push(&mut self.queue, item);
    }

    /// Takes the item at the front, if any.
    pub fn pop(&mut self) -> (r: Option<DeviceKbItem>)
        ensures
            old(self)@.len() == 0 ==> r is None && final(self)@ == old(self)@,
            old(self)@.len() > 0 ==> r == Some(old(self)@[0]) && final(self)@ == old(self)@.drop_first(),
    {
        key_queue_pop(&mut self.queue)
    }
}

/// A first-in first-out queue of mouse reports that holds at most its
/// capacity (a crossbeam `ArrayQueue`); a push into a full queue drops the
/// oldest report.
pub struct Fifobounded {
    queue: ArrayQueue<DeviceMouseItem>,
}

impl View for Fifobounded {
    type V = Seq<DeviceMouseItem>;

    closed spec fn view(&self) -> Seq<DeviceMouseItem> {
        array_queue_mice(self.queue)
    }
}

impl Fifobounded {
    /// The number of reports the queue holds at most.
    pub closed spec fn capacity(&self) -> nat {
        array_queue_capacity(self.queue)
    }

    /// An empty queue for at most `capacity` reports; the capacity must be positive.
    pub fn new(capacity: usize) -> (r: Self)
        requires
            capacity > 0,
        ensures
            r@ == Seq::<DeviceMouseItem>::empty(),
            r.capacity() == capacity,
    {
        Fifobounded { queue: mouse_queue_new(capacity) }
    }

    /// Appends `item`; when the queue is full its front item is dropped and returned.
    pub fn force_push(&mut self, item: DeviceMouseItem) -> (r: Option<DeviceMouseItem>)
        ensures
            final(self).capacity() == old(self).capacity(),
            old(self)@.len() < old(self).capacity() ==> r is None && final(self)@ == old(self)@.push(item),
            old(self)@.len() >= old(self).capacity() ==> r == Some(old(self)@[0])
                && final(self)@ == old(self)@.drop_first().push(item),
    {
        mouse_queue_force_push(&mut self.queue, item)
    }

    /// Takes the item at the front, if any.
    pub fn pop(&mut self) -> (r: Option<DeviceMouseItem>)
        ensures
            final(self).capacity() == old(self).capacity(),
            old(self)@.len() == 0 ==> r is None && final(self)@ == old(self)@,
            old(self)@.len() > 0 ==> r == Some(old(self)@[0]) && final(self)@ == old(self)@.drop_first(),
    {
        mouse_queue_pop(&mut self.queue)
    }

    pub fn len(&self) -> (r: usize)
        ensures
            r == self@.len(),
    {
        mouse_queue_len(&self.queue)
    }
}

} // verus!
