//! Typed capability handles and the roles they are held in.
use core::marker::PhantomData;
use vstd::prelude::*;

use crate::sealed::{SealedCapType, SealedRole};

verus! {

/// The role of a capability: held in the table of the component that uses
/// it (`Local`), or placed in the table of a process that has not started
/// yet (`Child`).
pub trait CNodeRole: SealedRole {}

/// Role of capabilities that this component may hand to the kernel itself.
#[derive(Debug)]
pub struct Local {}

/// Role of capabilities destined for another, not yet started process.
#[derive(Debug)]
pub struct Child {}

impl SealedRole for Local {}

impl SealedRole for Child {}

impl CNodeRole for Local {}

impl CNodeRole for Child {}

/// Kernel object kinds that carry no state in this model, so that a handle to
/// one can be made from its address alone.
pub trait PhantomCap: SealedCapType + Sized {
    spec fn spec_phantom() -> Self;

    fn phantom_instance() -> (r: Self)
        ensures
            r == Self::spec_phantom(),
    ;
}

/// Kernel objects whose capabilities can be copied; `CopyOutput` is what the
/// copy refers to (a copy of a mapped page is an unmapped page).
pub trait CopyAliasable: SealedCapType {
    type CopyOutput;

    spec fn spec_copy(&self) -> Self::CopyOutput;

    fn copy_data(&self) -> (r: Self::CopyOutput)
        ensures
            r == self.spec_copy(),
    ;
}

/// An unforgeable handle to one kernel object: its address in the capability
/// table (`cptr`), what this model knows of the object (`cap_data`), and the
/// role in which it is held. Only this crate creates handles, and every
/// state-changing operation consumes the handle it is given.
#[derive(Debug)]
pub struct Cap<CT, R: CNodeRole> {
    pub(crate) cptr: usize,
    pub(crate) cap_data: CT,
    pub(crate) _role: PhantomData<R>,
}

/// A capability held by this component.
pub type LocalCap<CT> = Cap<CT, Local>;

/// A capability destined for a process that has not started yet.
pub type ChildCap<CT> = Cap<CT, Child>;

impl<CT, R: CNodeRole> Cap<CT, R> {
    pub open(crate) spec fn spec_cptr(&self) -> usize {
        self.cptr
    }

    pub open(crate) spec fn spec_data(&self) -> CT {
        self.cap_data
    }

    pub(crate) fn new(cptr: usize, cap_data: CT) -> (r: Self)
        ensures
            r.spec_cptr() == cptr,
            r.spec_data() == cap_data,
    {
        Cap { cptr, cap_data, _role: PhantomData }
    }

    /// Takes the handle apart; for operations that rebuild it in a new state.
    pub(crate) fn into_parts(self) -> (r: (usize, CT))
        ensures
            r == (self.spec_cptr(), self.spec_data()),
    {
        (self.cptr, self.cap_data)
    }

    /// The capability's address in its table.
    #[verifier::when_used_as_spec(spec_cptr)]
    pub fn cptr(&self) -> (r: usize)
        ensures
            r == self.spec_cptr(),
    {
        self.cptr
    }

    /// What this model knows of the object.
    pub fn data(&self) -> (r: &CT)
        ensures
            *r == self.spec_data(),
    {
        &self.cap_data
    }
}

impl<CT: PhantomCap, R: CNodeRole> Cap<CT, R> {
    /// Wraps a capability address that the boot environment handed over.
    pub fn wrap_cptr(cptr: usize) -> (r: Self)
        ensures
            r.spec_cptr() == cptr,
            r.spec_data() == CT::spec_phantom(),
    {
        Cap { cptr, cap_data: CT::phantom_instance(), _role: PhantomData }
    }
}

/// Kinds of kernel object that memory can be retyped into.
#[derive(Debug, Clone, Copy, PartialEq, Eq, Structural)]
pub enum ObjectType {
    Untyped,
    ThreadControlBlock,
    Endpoint,
    Notification,
    CapTable,
    SmallPage,
    PageTable,
    PageDirectory,
}

/// Kernel objects of a fixed size that one retype of untyped memory creates
/// directly, in their initial state.
pub trait DirectRetype: SealedCapType + Sized {
    spec fn spec_object_type() -> ObjectType;

    /// What this model knows of a freshly created object.
    spec fn spec_fresh() -> Self;

    fn object_type() -> (r: ObjectType)
        ensures
            r == Self::spec_object_type(),
    ;

    fn fresh() -> (r: Self)
        ensures
            r == Self::spec_fresh(),
    ;
}

/// A thread.
#[derive(Debug, PartialEq, Eq, Structural)]
pub struct ThreadControlBlock {}

/// A rendezvous point for synchronous messages.
#[derive(Debug, PartialEq, Eq, Structural)]
pub struct Endpoint {}

/// A word of binary semaphores for asynchronous signals.
#[derive(Debug, PartialEq, Eq, Structural)]
pub struct Notification {}

/// The authority to create address-space-id pools.
#[derive(Debug, PartialEq, Eq, Structural)]
pub struct ASIDControl {}

impl SealedCapType for ThreadControlBlock {}

impl SealedCapType for Endpoint {}

impl SealedCapType for Notification {}

impl SealedCapType for ASIDControl {}

impl PhantomCap for ThreadControlBlock {
    open spec fn spec_phantom() -> Self {
        ThreadControlBlock {}
    }

    fn phantom_instance() -> (r: Self) {
        ThreadControlBlock {}
    }
}

impl PhantomCap for Endpoint {
    open spec fn spec_phantom() -> Self {
        Endpoint {}
    }

    fn phantom_instance() -> (r: Self) {
        Endpoint {}
    }
}

impl PhantomCap for Notification {
    open spec fn spec_phantom() -> Self {
        Notification {}
    }

    fn phantom_instance() -> (r: Self) {
        Notification {}
    }
}

impl PhantomCap for ASIDControl {
    open spec fn spec_phantom() -> Self {
        ASIDControl {}
    }

    fn phantom_instance() -> (r: Self) {
        ASIDControl {}
    }
}

impl DirectRetype for ThreadControlBlock {
    open spec fn spec_object_type() -> ObjectType {
        ObjectType::ThreadControlBlock
    }

    open spec fn spec_fresh() -> Self {
        ThreadControlBlock {}
    }

    fn object_type() -> (r: ObjectType) {
        ObjectType::ThreadControlBlock
    }

    fn fresh() -> (r: Self) {
        ThreadControlBlock {}
    }
}

impl CopyAliasable for Endpoint {
    type CopyOutput = Self;

    open spec fn spec_copy(&self) -> Self {
        Endpoint {}
    }

    fn copy_data(&self) -> (r: Self) {
        Endpoint {}
    }
}

impl DirectRetype for Endpoint {
    open spec fn spec_object_type() -> ObjectType {
        ObjectType::Endpoint
    }

    open spec fn spec_fresh() -> Self {
        Endpoint {}
    }

    fn object_type() -> (r: ObjectType) {
        ObjectType::Endpoint
    }

    fn fresh() -> (r: Self) {
        Endpoint {}
    }
}

impl CopyAliasable for Notification {
    type CopyOutput = Self;

    open spec fn spec_copy(&self) -> Self {
        Notification {}
    }

    fn copy_data(&self) -> (r: Self) {
        Notification {}
    }
}

impl DirectRetype for Notification {
    open spec fn spec_object_type() -> ObjectType {
        ObjectType::Notification
    }

    open spec fn spec_fresh() -> Self {
        Notification {}
    }

    fn object_type() -> (r: ObjectType) {
        ObjectType::Notification
    }

    fn fresh() -> (r: Self) {
        Notification {}
    }
}

} // verus!
