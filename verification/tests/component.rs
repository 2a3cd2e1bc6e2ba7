use hybrid_pow::component::{Component, ComponentInstance, FixedHash};

#[test]
fn instance_takes_over_every_definition_field() {
    let component = Component {
        contract_address: FixedHash([1u8; 32]),
        package_id: FixedHash([2u8; 32]),
        module_name: String::from("counter"),
        state: vec![7, 8, 9],
    };
    let instance = ComponentInstance::new(FixedHash([3u8; 32]), component);
    assert_eq!(instance.component_id, FixedHash([3u8; 32]));
    assert_eq!(instance.contract_address, FixedHash([1u8; 32]));
    assert_eq!(instance.package_id, FixedHash([2u8; 32]));
    assert_eq!(instance.module_name, "counter");
    assert_eq!(instance.state, vec![7, 8, 9]);
}

#[test]
fn id_returns_the_instantiation_id() {
    let component = Component {
        contract_address: FixedHash([0u8; 32]),
        package_id: FixedHash([0u8; 32]),
        module_name: String::new(),
        state: Vec::new(),
    };
    let instance = ComponentInstance::new(FixedHash([42u8; 32]), component);
    assert_eq!(instance.id(), FixedHash([42u8; 32]));
}
