use vstd::prelude::*;

verus! {

/// A 32-byte hash identifying on-chain entities.
#[derive(Clone, Copy, Debug, PartialEq, Eq)]
pub struct FixedHash(pub [u8; 32]);

/// Identifies one component instance.
pub type ComponentId = FixedHash;

/// Identifies the contract a component belongs to.
pub type ContractAddress = FixedHash;

/// Identifies the package whose code backs a component.
pub type PackageId = FixedHash;

/// A component definition: the contract and package it belongs to, the
/// module implementing it, and its serialized state.
#[derive(Clone, Debug, PartialEq)]
pub struct Component {
    pub contract_address: ContractAddress,
    pub package_id: PackageId,
    pub module_name: String,
    pub state: Vec<u8>,
}

/// A component instantiated under a concrete id.
#[derive(Clone, Debug, PartialEq)]
pub struct ComponentInstance {
    pub component_id: ComponentId,
    pub contract_address: ContractAddress,
    pub package_id: PackageId,
    pub module_name: String,
    pub state: Vec<u8>,
}

impl ComponentInstance {
    /// Instantiates `component` under `component_id`, taking every field of
    /// the definition over unchanged.
    pub fn new(component_id: ComponentId, component: Component) -> (r: Self)
        ensures
            r.component_id == component_id,
            r.contract_address == component.contract_address,
            r.package_id == component.package_id,
            r.module_name == component.module_name,
            r.state == component.state,
    {
        ComponentInstance {
            component_id,
            contract_address: component.contract_address,
            package_id: component.package_id,
            module_name: component.module_name,
            state: component.state,
        }
    }

    /// The id this component was instantiated under.
    pub fn id(&self) -> (id: ComponentId)
        ensures
            id == self.component_id,
    {
        self.component_id
    }
}

} // verus!
