//! Symbols from a shared library, in the tracked flavors: bound to the
//! library by a borrow, or keeping the library alive through a caller-chosen
//! tracking value.

use core::marker::PhantomData;
use vstd::prelude::*;

verus! {

/// A symbol from a shared library: something a caller can get the underlying
/// value out of.
pub trait Symbol<T> {
    /// The value this symbol stands for.
    fn get(&self) -> T;
}

/// A pointer to shared data which uses a bound lifetime to avoid outliving its
/// library.
#[derive(Debug)]
pub struct Data<'a, T> {
    /// The borrowed view of the shared data.
    pub data: &'a T,
}

impl<'a, T> Data<'a, T> {
    /// Binds a borrowed view of shared data to the borrow's lifetime.
    pub fn new(data: &'a T) -> (r: Self)
        ensures
            r.data == data,
    {
        Data { data }
    }
}

impl<'a, T> Symbol<&'a T> for Data<'a, T> {
    fn get(&self) -> (r: &'a T)
        ensures
            r == self.data,
    {
        self.data
    }
}

/// A shared function which uses a bound lifetime to avoid outliving its
/// library.
#[derive(Debug)]
pub struct Func<'a, T> {
    /// The value standing for the shared function.
    pub func: T,
    /// The borrow of the library the function came from.
    pub lifetime: PhantomData<&'a ()>,
}

impl<'a, T> Func<'a, T> {
    /// Binds a function value to its library's lifetime.
    pub fn new(func: T) -> (r: Self)
        ensures
            r.func == func,
    {
        Func { func, lifetime: PhantomData }
    }
}

impl<'a, T: Copy> Symbol<T> for Func<'a, T> {
    fn get(&self) -> (r: T)
        ensures
            r == self.func,
    {
        self.func
    }
}

/// A pointer to shared data which keeps a tracking value (such as a
/// reference-counted handle of the library) alive to avoid outliving its
/// library.
#[derive(Debug)]
#[verifier::reject_recursive_types(T)]
pub struct DataTracked<T, TLib> {
    /// The raw address of the shared data, under the caller-asserted type.
    pub data: u64,
    /// The tracking value that keeps the library alive.
    pub lib: TLib,
    /// The type the caller asserted for the data.
    pub ty: PhantomData<T>,
}

impl<T, TLib> DataTracked<T, TLib> {
    /// Binds a raw data address to a tracking value of its library.
    pub fn new(data: u64, lib: TLib) -> (r: Self)
        ensures
            r.data == data && r.lib == lib,
    {
        DataTracked { data, lib, ty: PhantomData }
    }
}

/// A shared function which keeps a tracking value (such as a reference-counted
/// handle of the library) alive to avoid outliving its library.
#[derive(Debug)]
pub struct FuncTracked<T, TLib> {
    /// The value standing for the shared function.
    pub func: T,
    /// The tracking value that keeps the library alive.
    pub lib: TLib,
}

impl<T, TLib> FuncTracked<T, TLib> {
    /// Binds a function value to a tracking value of its library.
    pub fn new(func: T, lib: TLib) -> (r: Self)
        ensures
            r.func == func && r.lib == lib,
    {
        FuncTracked { func, lib }
    }
}

impl<T: Copy, TLib> Symbol<T> for FuncTracked<T, TLib> {
    fn get(&self) -> (r: T)
        ensures
            r == self.func,
    {
        self.func
    }
}

/// A pointer to shared data which uses atomic reference counting to keep its
/// library alive.
pub type DataArc<T> = DataTracked<T, std::sync::Arc<crate::lib_impl::LibUnsafe>>;

/// A pointer to shared data which uses reference counting to keep its library
/// alive.
pub type DataRc<T> = DataTracked<T, std::rc::Rc<crate::lib_impl::LibUnsafe>>;

/// A shared function which uses atomic reference counting to keep its library
/// alive.
pub type FuncArc<T> = FuncTracked<T, std::sync::Arc<crate::lib_impl::LibUnsafe>>;

/// A shared function which uses reference counting to keep its library alive.
pub type FuncRc<T> = FuncTracked<T, std::rc::Rc<crate::lib_impl::LibUnsafe>>;

impl<T: Copy, TLib: Clone> Clone for FuncTracked<T, TLib> {
    /// Copy the wrapper; the clone stands for the same function and tracks the
    /// same library.
    fn clone(&self) -> (r: Self)
        ensures
            r.func == self.func,
    {
        FuncTracked { func: self.func, lib: self.lib.clone() }
    }
}

} // verus!
