//! Pointers and ownership at the native boundary, as plain values.
//!
//! Verified code holds no raw pointer. What a native call hands out reaches
//! it as a [`Pointer`]: the address, the alignment of the pointee's type and,
//! where the address could be read, a copy of what stood there. Validating
//! one gives a [`Ref`], the image of a reference. A [`GLibCBox`] stands for a
//! buffer that the native allocator handed over and that has to go back to
//! it exactly once.

use vstd::prelude::*;
use crate::ffi::Call;

verus! {

/// An optional result turned inside out: nothing is a success that holds
/// nothing, a success holds its value, and an error stays the error.
pub open spec fn inverted<T, E>(opt: Option<Result<T, E>>) -> Result<Option<T>, E> {
    match opt {
        None => Ok(None),
        Some(Ok(x)) => Ok(Some(x)),
        Some(Err(e)) => Err(e),
    }
}

/// Turns an optional result inside out.
pub fn invert_res_opt<T, E>(opt: Option<Result<T, E>>) -> (r: Result<Option<T>, E>)
    ensures
        r == inverted(opt),
{
    match opt {
        None => Ok(None),
        Some(Ok(x)) => Ok(Some(x)),
        Some(Err(e)) => Err(e),
    }
}

/// The image of a raw pointer to a `T`.
///
/// It holds a copy of the pointee exactly when the address can be read as a
/// `T`: when it is neither null nor misaligned.
#[derive(Debug)]
pub struct Pointer<T> {
    addr: usize,
    align: usize,
    target: Option<T>,
}

/// The image of a reference to a `T`: where the value lives in native
/// memory, and the value read there.
#[derive(Debug)]
pub struct Ref<T> {
    pub addr: usize,
    pub value: T,
}

impl<T> Pointer<T> {
    /// Whether an address can be read as a value of a type with the given
    /// alignment.
    pub open spec fn readable(addr: usize, align: usize) -> bool {
        addr != 0 && align != 0 && addr as int % align as int == 0
    }

    /// The address held.
    pub closed spec fn addr(&self) -> usize {
        self.addr
    }

    /// The alignment of the pointee's type.
    pub closed spec fn align(&self) -> usize {
        self.align
    }

    /// The copy of the pointee, where there is one.
    pub closed spec fn target(&self) -> Option<T> {
        self.target
    }

    /// A pointer image is well formed when its alignment is not zero and it
    /// holds a pointee exactly when its address is readable.
    pub open spec fn wf(&self) -> bool {
        &&& self.align() != 0
        &&& self.target() is Some <==> Self::readable(self.addr(), self.align())
    }

    #[verifier::type_invariant]
    spec fn inv(&self) -> bool {
        self.wf()
    }

    /// Whether the pointer is null.
    pub open spec fn null(&self) -> bool {
        self.addr() == 0
    }

    /// Whether the address is a multiple of the alignment.
    pub open spec fn aligned(&self) -> bool {
        self.addr() as int % self.align() as int == 0
    }

    /// Tells whether an address can be read, so that a caller knows whether
    /// to copy the pointee before it builds the image.
    pub fn can_read(addr: usize, align: usize) -> (r: bool)
        ensures
            r == Self::readable(addr, align),
    {
        addr != 0 && align != 0 && addr % align == 0
    }

    /// Builds the image of a pointer. There is none where the alignment is
    /// zero, where a pointee is given for an address that cannot be read, or
    /// where none is given for one that can.
    pub fn new(addr: usize, align: usize, target: Option<T>) -> (r: Option<Self>)
        ensures
            r is Some <==> align != 0 && (target is Some <==> Self::readable(addr, align)),
            r matches Some(p) ==> p.wf() && p.addr() == addr && p.align() == align && p.target()
                == target,
    {
        if align == 0 {
            return None;
        }
        let readable = addr != 0 && addr % align == 0;
        if target.is_some() != readable {
            return None;
        }
        Some(Pointer { addr, align, target })
    }

    /// The copy of the pointee, where there is one.
    pub fn get(&self) -> (r: Option<&T>)
        ensures
            match r {
                Some(value) => self.target() == Some(*value),
                None => self.target() is None,
            },
            self.wf(),
    {
        proof {
            use_type_invariant(self);
        }
        self.target.as_ref()
    }

    /// Gives up the image for the copy of the pointee, where there is one.
    pub fn into_target(self) -> (r: Option<T>)
        ensures
            r == self.target(),
            self.wf(),
    {
        proof {
            use_type_invariant(&self);
        }
        self.target
    }

    /// The address held.
    pub fn address(&self) -> (r: usize)
        ensures
            r == self.addr(),
    {
        self.addr
    }

    /// Whether the pointer is null.
    pub fn is_null(&self) -> (r: bool)
        ensures
            r == self.null(),
    {
        self.addr == 0
    }

    /// Whether the address is a multiple of the alignment.
    pub fn is_aligned(&self) -> (r: bool)
        ensures
            r == self.aligned(),
            self.wf(),
    {
        proof {
            use_type_invariant(self);
        }
        self.addr % self.align == 0
    }
}

/// The reference that a pointer stands for when it is neither null nor
/// misaligned: to the pointee, at the address.
pub open spec fn reference<T>(ptr: Pointer<T>) -> Ref<T> {
    Ref { addr: ptr.addr(), value: ptr.target()->0 }
}

/// What validating a pointer gives: nothing for a null pointer, a failure for
/// a misaligned one, and otherwise the reference.
pub open spec fn ptr_to_ref_spec<T>(ptr: Pointer<T>) -> Result<Option<Ref<T>>, ()> {
    if ptr.null() {
        Ok(None)
    } else if !ptr.aligned() {
        Err(())
    } else {
        Ok(Some(reference(ptr)))
    }
}

/// Validates a pointer that a native call handed out.
///
/// A null pointer is the native way to say "nothing": `Ok(None)`. A pointer
/// that is not aligned for its pointee signals corrupted native memory:
/// `Err(())`. Any other pointer becomes a reference.
pub fn ptr_to_ref<T>(ptr: Pointer<T>) -> (r: Result<Option<Ref<T>>, ()>)
    ensures
        r == ptr_to_ref_spec(ptr),
        ptr.wf(),
{
    proof {
        use_type_invariant(&ptr);
    }
    if ptr.addr == 0 {
        Ok(None)
    } else if ptr.addr % ptr.align != 0 {
        Err(())
    } else {
        let addr = ptr.addr;
        match ptr.target {
            Some(value) => Ok(Some(Ref { addr, value })),
            None => Err(()),
        }
    }
}

/// The bytes of the C string behind a pointer, without the terminator, or
/// nothing where there is no string to read.
///
/// A byte has alignment 1, so a pointer to a C string is never misaligned:
/// there is no string exactly when the pointer is null.
pub fn try_cstr<'a>(ptr: &'a Pointer<Vec<u8>>) -> (r: Option<&'a Vec<u8>>)
    ensures
        match r {
            Some(bytes) => ptr.target() == Some(*bytes),
            None => ptr.target() is None,
        },
        ptr.wf(),
        ptr.align() == 1 ==> (r is None <==> ptr.null()),
{
    proof {
        use_type_invariant(ptr);
    }
    ptr.target.as_ref()
}

/// A buffer that the native allocator handed out and that this side now
/// owns. It has to be given back to the native deallocator exactly once,
/// unless the pointer is null.
#[derive(Debug)]
pub struct GLibCBox<T> {
    ptr: Pointer<T>,
}

impl<T> GLibCBox<T> {
    /// The pointer inside.
    pub closed spec fn ptr(&self) -> Pointer<T> {
        self.ptr
    }

    /// The deallocation that is due for a buffer at the given pointer: one
    /// call of the native `free` for any pointer but null.
    pub open spec fn due(ptr: Pointer<T>) -> Option<Call> {
        if ptr.null() {
            None
        } else {
            Some(Call::Free { ptr: ptr.addr() })
        }
    }

    /// Takes charge of a buffer.
    pub fn from_raw(ptr: Pointer<T>) -> (r: Self)
        ensures
            r.ptr() == ptr,
    {
        GLibCBox { ptr }
    }

    /// The pointer inside.
    pub fn as_ptr(&self) -> (r: &Pointer<T>)
        ensures
            *r == self.ptr(),
    {
        &self.ptr
    }

    /// Ends the life of the box. Hands out what was copied from the buffer
    /// and the deallocation that is now due; since the box is consumed, no
    /// second one can follow.
    pub fn release(self) -> (r: (Option<T>, Option<Call>))
        ensures
            r.0 == self.ptr().target(),
            r.1 == Self::due(self.ptr()),
            self.ptr().wf(),
    {
        proof {
            use_type_invariant(&self.ptr);
        }
        let due = if self.ptr.addr == 0 {
            None
        } else {
            Some(Call::Free { ptr: self.ptr.addr })
        };
        (self.ptr.target, due)
    }
}

/// What one step of an enumeration yields for the pointer that the native
/// cursor call handed out: nothing at a null pointer, the reference
/// otherwise.
pub open spec fn yielded<T>(ptr: Pointer<T>) -> Option<Ref<T>> {
    match ptr_to_ref_spec(ptr) {
        Ok(found) => found,
        Err(_) => None,
    }
}

/// All that an enumeration yields when the native cursor call hands out
/// these pointers in turn and `step` says what one step yields for a
/// pointer: item by item, until one step yields nothing.
pub open spec fn enumerated<T, I>(replies: Seq<Pointer<T>>, step: spec_fn(Pointer<T>) -> Option<I>)
    -> Seq<I>
    decreases replies.len(),
{
    if replies.len() == 0 {
        Seq::empty()
    } else {
        match step(replies[0]) {
            None => Seq::empty(),
            Some(item) => seq![item] + enumerated(replies.drop_first(), step),
        }
    }
}

/// An enumeration ends at the first step that yields nothing, whatever
/// would follow it: where the first `n` steps yield an item each and the
/// next one yields nothing, exactly those `n` items come out, in order.
pub proof fn lemma_enumerated_ends_at_first_none<T, I>(
    replies: Seq<Pointer<T>>,
    step: spec_fn(Pointer<T>) -> Option<I>,
    n: nat,
)
    requires
        n < replies.len(),
        forall|i: int| 0 <= i < n ==> #[trigger] step(replies[i]) is Some,
        step(replies[n as int]) is None,
    ensures
        enumerated(replies, step).len() == n,
        forall|i: int| 0 <= i < n ==> #[trigger] enumerated(replies, step)[i] == step(replies[i])->0,
    decreases n,
{
    if n > 0 {
        let rest = replies.drop_first();
        assert(step(replies[0]) is Some);
        assert forall|i: int| 0 <= i < n - 1 implies #[trigger] step(rest[i]) is Some by {
            assert(rest[i] == replies[i + 1]);
        }
        assert(rest[n - 1] == replies[n as int]);
        lemma_enumerated_ends_at_first_none(rest, step, (n - 1) as nat);
        assert forall|i: int| 0 <= i < n implies #[trigger] enumerated(replies, step)[i] == step(
            replies[i],
        )->0 by {
            if i > 0 {
                assert(enumerated(replies, step)[i] == enumerated(rest, step)[i - 1]);
                assert(rest[i - 1] == replies[i]);
            }
        }
    }
}

/// Whether the native cursor call, asked again and again over a native
/// library that holds `n` records, handed out these pointers: one that is
/// neither null nor misaligned for each record, then a null pointer, then
/// anything.
pub open spec fn walks_records<T>(replies: Seq<Pointer<T>>, n: nat) -> bool {
    &&& n < replies.len()
    &&& forall|i: int| 0 <= i < n ==> !(#[trigger] replies[i]).null() && replies[i].aligned()
    &&& replies[n as int].null()
}

} // verus!
