//! Macro identifiers and addresses.
use vstd::prelude::*;

verus! {

/// The index at which a macro can be found in a macro table.
pub type MacroAddress = usize;

/// The number of macros in the system module.
pub const SYSTEM_MACRO_COUNT: usize = 24;

/// An address in the system macro table. Guaranteed to fit in a byte.
#[derive(Copy, Clone, Debug, PartialEq, Eq, Structural)]
pub struct SystemMacroAddress(pub u8);

impl SystemMacroAddress {
    /// Returns `Some` exactly when `address` names one of the system macros.
    pub fn new(address: MacroAddress) -> (r: Option<Self>)
        ensures
            address < SYSTEM_MACRO_COUNT ==> r == Some(SystemMacroAddress(address as u8)),
            address >= SYSTEM_MACRO_COUNT ==> r is None,
    {
        if address < SYSTEM_MACRO_COUNT {
            Some(SystemMacroAddress(address as u8))
        } else {
            None
        }
    }

    /// Builds an address without checking its range; the address is truncated to a byte.
    pub fn new_unchecked(address: MacroAddress) -> (r: Self)
        ensures
            r.0 == address as u8,
    {
        SystemMacroAddress(address as u8)
    }

    pub fn as_usize(&self) -> (r: usize)
        ensures
            r == self.0 as usize,
    {
        self.0 as usize
    }

    pub fn as_u8(&self) -> (r: u8)
        ensures
            r == self.0,
    {
        self.0
    }
}

/// The module in which a macro lives.
#[derive(Copy, Clone, Debug, PartialEq, Eq, Structural)]
pub enum ModuleKind {
    Default,
    System,
}

/// A `(module, address)` pair naming the place where a macro resides.
#[derive(Copy, Clone, Debug, PartialEq, Eq, Structural)]
pub struct QualifiedAddress {
    pub module: ModuleKind,
    pub address: u32,
}

impl QualifiedAddress {
    /// Builds a qualified address; the address must fit in a `u32`.
    pub fn new(module: ModuleKind, address: usize) -> (r: Self)
        requires
            address <= u32::MAX,
        ensures
            r.module == module,
            r.address == address,
    {
        QualifiedAddress { module, address: address as u32 }
    }

    pub fn module(&self) -> (r: ModuleKind)
        ensures
            r == self.module,
    {
        self.module
    }

    pub fn address(&self) -> (r: MacroAddress)
        ensures
            r == self.address,
    {
        self.address as usize
    }

    /// The identifier that refers to this address.
    pub fn as_macro_id_ref(&self) -> (r: MacroIdRef<'static>)
        ensures
            self.module is Default ==> r == MacroIdRef::LocalAddress(self.address as usize),
            self.module is System ==> r == MacroIdRef::SystemAddress(
                SystemMacroAddress(self.address as u8),
            ),
    {
        match self.module {
            ModuleKind::Default => MacroIdRef::LocalAddress(self.address as usize),
            ModuleKind::System => MacroIdRef::SystemAddress(
                SystemMacroAddress::new_unchecked(self.address as usize),
            ),
        }
    }
}

/// A reference to a macro, by local name, local address or system address.
#[derive(Copy, Clone, Debug)]
pub enum MacroIdRef<'data> {
    LocalName(&'data str),
    LocalAddress(usize),
    SystemAddress(SystemMacroAddress),
}

impl<'data> MacroIdRef<'data> {
    /// An owned copy of this identifier.
    pub fn to_owned(self) -> (r: MacroId)
        ensures
            r.view_id() == self.view_id(),
    {
        match self {
            MacroIdRef::LocalName(name) => MacroId::LocalName(name.to_owned()),
            MacroIdRef::LocalAddress(address) => MacroId::LocalAddress(address),
            MacroIdRef::SystemAddress(address) => MacroId::SystemAddress(address),
        }
    }

    pub open spec fn view_id(self) -> MacroIdView {
        match self {
            MacroIdRef::LocalName(name) => MacroIdView::LocalName(name@),
            MacroIdRef::LocalAddress(address) => MacroIdView::LocalAddress(address),
            MacroIdRef::SystemAddress(address) => MacroIdView::SystemAddress(address.0),
        }
    }
}

/// The mathematical value of a macro identifier.
pub enum MacroIdView {
    LocalName(Seq<char>),
    LocalAddress(usize),
    SystemAddress(u8),
}

/// An owned macro identifier, as stored in expressions of the arena.
#[derive(Clone, Debug)]
pub enum MacroId {
    LocalName(String),
    LocalAddress(usize),
    SystemAddress(SystemMacroAddress),
}

impl MacroId {
    pub open spec fn view_id(self) -> MacroIdView {
        match self {
            MacroId::LocalName(name) => MacroIdView::LocalName(name@),
            MacroId::LocalAddress(address) => MacroIdView::LocalAddress(address),
            MacroId::SystemAddress(address) => MacroIdView::SystemAddress(address.0),
        }
    }

    /// A borrowed view of this identifier.
    pub fn as_ref(&self) -> (r: MacroIdRef<'_>)
        ensures
            r.view_id() == self.view_id(),
    {
        match self {
            MacroId::LocalName(name) => MacroIdRef::LocalName(name.as_str()),
            MacroId::LocalAddress(address) => MacroIdRef::LocalAddress(*address),
            MacroId::SystemAddress(address) => MacroIdRef::SystemAddress(*address),
        }
    }
}

} // verus!
