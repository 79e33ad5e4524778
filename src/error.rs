//! Errors.
use crate::store::StoreError;
use vstd::prelude::*;

verus! {

/// An error that can occur when listing the load options.
#[derive(Debug)]
pub enum EnumerateLoadOptionsError {
    /// The store failed.
    Efivar(StoreError),
}

/// An error that can occur when reading a load option.
#[derive(Debug)]
pub enum GetLoadOptionError {
    /// The store failed.
    Efivar(StoreError),
    /// The stored bytes are not a valid load option record.
    LoadOptionDecoding(efi_loadopt::DecodeError),
    /// The record's file path list runs past the end of the stored bytes.
    FilePathListOutOfBounds,
}

/// An error that can occur when setting the boot next value.
#[derive(Debug)]
pub enum SetBootNextError {
    /// The store failed.
    Efivar(StoreError),
}

/// An error that can occur when reading the boot next value.
#[derive(Debug)]
pub enum GetBootNextError {
    /// The store failed.
    Efivar(StoreError),
    /// The stored value is not exactly two bytes long.
    InvalidValue,
}

} // verus!

verus! {

/// An error that can occur when resolving one slot directly.
#[derive(Debug)]
pub enum LoadOptionError {
    /// No variable exists for the slot.
    NoSuchLoadOption { num: u16 },
    /// The store failed.
    Efivar(StoreError),
    /// The stored bytes are not a valid load option record.
    LoadOptionDecoding(efi_loadopt::DecodeError),
    /// The record's file path list runs past the end of the stored bytes.
    FilePathListOutOfBounds,
}

} // verus!
