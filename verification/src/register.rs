//! Register accessors: read-only, write-only and read-write views of one
//! register word, built on the field arithmetic.

use vstd::prelude::*;

use crate::RegisterType;

pub mod w16;
pub mod w32;
pub mod w64;
pub mod w8;

verus! {

/// Read-only access to a register word.
#[derive(Clone, Debug)]
pub struct ReadOnly<T: RegisterType> {
    value: T,
}

impl<T: RegisterType> View for ReadOnly<T> {
    type V = T;

    closed spec fn view(&self) -> T {
        self.value
    }
}

impl<T: RegisterType> ReadOnly<T> {
    /// Create a new read-only accessor over the given register word.
    pub fn new(value: T) -> (r: Self)
        ensures
            r@ == value,
    {
        ReadOnly { value }
    }

    /// Read the raw content of the register.
    pub fn get(&self) -> (r: T)
        ensures
            r == self@,
    {
        self.value
    }
}

/// Write-only access to a register word.
#[derive(Clone, Debug)]
pub struct WriteOnly<T: RegisterType> {
    value: T,
}

impl<T: RegisterType> View for WriteOnly<T> {
    type V = T;

    closed spec fn view(&self) -> T {
        self.value
    }
}

impl<T: RegisterType> WriteOnly<T> {
    /// Create a new write-only accessor over the given register word.
    pub fn new(value: T) -> (r: Self)
        ensures
            r@ == value,
    {
        WriteOnly { value }
    }

    /// Write a raw content value to the register.
    pub fn set(&mut self, value: T)
        ensures
            final(self)@ == value,
    {
        self.value = value;
    }
}

/// Read/write access to a register word.
#[derive(Clone, Debug)]
pub struct ReadWrite<T: RegisterType> {
    value: T,
}

impl<T: RegisterType> View for ReadWrite<T> {
    type V = T;

    closed spec fn view(&self) -> T {
        self.value
    }
}

impl<T: RegisterType> ReadWrite<T> {
    /// Create a new read/write accessor over the given register word.
    pub fn new(value: T) -> (r: Self)
        ensures
            r@ == value,
    {
        ReadWrite { value }
    }

    /// Read the raw content of the register.
    pub fn get(&self) -> (r: T)
        ensures
            r == self@,
    {
        self.value
    }

    /// Write a raw content value to the register.
    pub fn set(&mut self, value: T)
        ensures
            final(self)@ == value,
    {
        self.value = value;
    }
}

} // verus!
