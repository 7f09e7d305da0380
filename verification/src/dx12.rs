//! The DirectX 12 backend: its factory and the choice of its adapter.

use vstd::prelude::*;
use crate::error::{RHIError, RHIErrorEnum};

verus! {

/// The configuration of the DirectX 12 backend.
#[derive(Debug, Clone, Copy, PartialEq, Eq)]
pub struct DX12RHIBuilder {}

/// An adapter as the factory enumerates it.
#[derive(Debug, Clone, Copy, PartialEq, Eq)]
pub struct Dx12Adapter {
    pub handle: u64,
    /// The adapter gave its description.
    pub described: bool,
    /// A device of the lowest feature level in use can be created on it.
    pub supports_dx12: bool,
    /// The adapter is a software adapter.
    pub software: bool,
}

impl Dx12Adapter {
    /// An adapter is suitable when it gave its description and supports
    /// DirectX 12, be it hardware or software.
    pub open spec fn suitable(self) -> bool {
        self.described && self.supports_dx12
    }
}

/// `i` is the first suitable adapter.
pub open spec fn is_first_suitable(adapters: Seq<Dx12Adapter>, i: int) -> bool {
    &&& 0 <= i < adapters.len()
    &&& adapters[i].suitable()
    &&& forall|j: int| 0 <= j < i ==> !(#[trigger] adapters[j]).suitable()
}

/// Some adapter is suitable.
pub open spec fn has_suitable(adapters: Seq<Dx12Adapter>) -> bool {
    exists|j: int| 0 <= j < adapters.len() && (#[trigger] adapters[j]).suitable()
}

/// The DirectX 12 backend.
#[derive(Debug, Clone, Copy, PartialEq, Eq)]
pub struct DX12RHI {
    pub rhi_name: &'static str,
    pub dxgi_factory: Option<u64>,
    pub adapter: Option<u64>,
}

impl Default for DX12RHI {
    fn default() -> (rhi: Self)
        ensures
            rhi.rhi_name@ == "DX12"@,
            rhi.dxgi_factory is None,
            rhi.adapter is None,
    {
        DX12RHI { rhi_name: "DX12", dxgi_factory: None, adapter: None }
    }
}

impl DX12RHI {
    /// The message with which the choice of an adapter fails; nothing where
    /// it succeeds.
    pub open spec fn pick_failure(self, adapters: Seq<Dx12Adapter>) -> Option<Seq<char>> {
        if self.dxgi_factory is None {
            Some("DXGI Factory not initialized."@)
        } else if adapters.len() == 0 {
            Some("no physical devices"@)
        } else if !has_suitable(adapters) {
            Some("no suitable physical devices"@)
        } else {
            None
        }
    }

    /// The factory, or an initialization error where there is none yet.
    pub fn try_get_dxgi_factory(&self) -> (factory: Result<u64, RHIError>)
        ensures
            match self.dxgi_factory {
                Some(f) => factory == Ok::<u64, RHIError>(f),
                None => factory is Err && factory->Err_0.says(
                    RHIErrorEnum::InitializationError,
                    "DXGI Factory not initialized."@,
                ) && factory->Err_0.rhi == self.rhi_name,
            },
    {
        match self.dxgi_factory {
            Some(f) => Ok(f),
            None => Err(
                RHIError::new(
                    self.rhi_name,
                    RHIErrorEnum::InitializationError,
                    "DXGI Factory not initialized.",
                ),
            ),
        }
    }

    /// Takes the outcome of the factory's creation: a copy of the backend
    /// that holds the factory, or an initialization error where there is none.
    pub fn init_dx12(&self, created: Option<u64>) -> (initialized: Result<DX12RHI, RHIError>)
        ensures
            match created {
                Some(f) => initialized == Ok::<DX12RHI, RHIError>(
                    DX12RHI { dxgi_factory: Some(f), ..*self },
                ),
                None => initialized is Err && initialized->Err_0.says(
                    RHIErrorEnum::InitializationError,
                    "Failed to create dxgi_factory."@,
                ) && initialized->Err_0.rhi == self.rhi_name,
            },
    {
        match created {
            Some(f) => Ok(
                DX12RHI { rhi_name: self.rhi_name, dxgi_factory: Some(f), adapter: self.adapter },
            ),
            None => Err(
                RHIError::new(
                    self.rhi_name,
                    RHIErrorEnum::InitializationError,
                    "Failed to create dxgi_factory.",
                ),
            ),
        }
    }

    /// Whether the backend can run on the adapter.
    pub fn is_device_suitable(&self, device: &Dx12Adapter) -> (ok: bool)
        ensures
            ok == device.suitable(),
    {
        device.described && device.supports_dx12
    }

    /// Chooses the first suitable adapter, in enumeration order, and keeps
    /// its handle. Where the choice fails the backend stays as it was.
    pub fn pick_physical_device(&mut self, adapters: &Vec<Dx12Adapter>) -> (picked: Result<
        (),
        RHIError,
    >)
        ensures
            match old(self).pick_failure(adapters@) {
                Some(message) => {
                    &&& picked is Err
                    &&& picked->Err_0.says(RHIErrorEnum::InitializationError, message)
                    &&& picked->Err_0.rhi == old(self).rhi_name
                    &&& *final(self) == *old(self)
                },
                None => {
                    &&& picked is Ok
                    &&& exists|i: int|
                        is_first_suitable(adapters@, i) && *final(self) == (DX12RHI {
                            adapter: Some((#[trigger] adapters@[i]).handle),
                            ..*old(self)
                        })
                },
            },
    {
        match self.try_get_dxgi_factory() {
            Ok(_) => {},
            Err(e) => {
                return Err(e);
            },
        }
        if adapters.len() == 0 {
            return Err(
                RHIError::new(
                    self.rhi_name,
                    RHIErrorEnum::InitializationError,
                    "no physical devices",
                ),
            );
        }
        let mut i: usize = 0;
        while i < adapters.len()
            invariant
                i <= adapters.len(),
                *self == *old(self),
                self.dxgi_factory is Some,
                adapters@.len() > 0,
                forall|j: int| 0 <= j < i ==> !(#[trigger] adapters@[j]).suitable(),
            decreases adapters.len() - i,
        {
            if self.is_device_suitable(&adapters[i]) {
                assert(is_first_suitable(adapters@, i as int));
                self.adapter = Some(adapters[i].handle);
                return Ok(());
            }
            i = i + 1;
        }
        Err(
            RHIError::new(
                self.rhi_name,
                RHIErrorEnum::InitializationError,
                "no suitable physical devices",
            ),
        )
    }
}

} // verus!
