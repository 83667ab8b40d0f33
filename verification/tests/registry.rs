use ibc_core::error::Error;
use ibc_core::module::Registry;
use ibc_core::transfer_module::DummyTransferModule;
use ibc_core::types::{Height, ModuleId, PortId};

#[test]
fn height_order_is_by_revision_first() {
    assert!(Height::new(0, 36).lt(&Height::new(1, 1)));
    assert!(Height::new(1, 1).lt(&Height::new(1, 2)));
    assert!(!Height::new(1, 2).lt(&Height::new(1, 2)));
    assert!(!Height::new(1, 2).lt(&Height::new(0, 9)));
    assert!(Height::new(1, 2).le(&Height::new(1, 2)));
    assert!(!Height::new(1, 3).le(&Height::new(1, 2)));
    assert!(Height::zero().is_zero());
    assert!(!Height::new(0, 1).is_zero());
    assert!(!Height::new(1, 0).is_zero());
}

#[test]
fn a_port_is_bound_once() {
    let mut registry: Registry<DummyTransferModule> = Registry::new();
    assert!(registry.lookup(&PortId::new("transfer")).is_none());
    assert_eq!(registry.bind(PortId::new("transfer"), ModuleId::new("bank")), Ok(()));
    assert_eq!(
        registry.bind(PortId::new("transfer"), ModuleId::new("other")),
        Err(Error::PortAlreadyBound)
    );
    assert_eq!(
        registry.bind(PortId::new("transfer"), ModuleId::new("bank")),
        Err(Error::PortAlreadyBound)
    );
    assert_eq!(registry.lookup(&PortId::new("transfer")).unwrap().name, "bank");
    assert_eq!(registry.bindings.len(), 1);
    assert_eq!(registry.bind(PortId::new("oracle"), ModuleId::new("other")), Ok(()));
    assert_eq!(registry.lookup(&PortId::new("oracle")).unwrap().name, "other");
    assert_eq!(registry.lookup(&PortId::new("transfer")).unwrap().name, "bank");
}

#[test]
fn a_module_answers_for_the_ports_bound_to_it() {
    let mut registry: Registry<DummyTransferModule> = Registry::new();
    assert!(registry.add_route(ModuleId::new("first"), DummyTransferModule::new()).is_none());
    assert!(registry.add_route(ModuleId::new("second"), DummyTransferModule::new()).is_none());
    assert!(registry.add_route(ModuleId::new("first"), DummyTransferModule::new()).is_some());
    assert_eq!(registry.modules.len(), 2);
    assert_eq!(registry.position(&ModuleId::new("second")), Some(1));
    assert_eq!(registry.position(&ModuleId::new("third")), None);
    assert_eq!(registry.route(&PortId::new("transfer")), None);
    assert_eq!(registry.bind(PortId::new("transfer"), ModuleId::new("second")), Ok(()));
    assert_eq!(registry.bind(PortId::new("oracle"), ModuleId::new("third")), Ok(()));
    assert_eq!(registry.route(&PortId::new("transfer")), Some(1));
    assert_eq!(registry.route(&PortId::new("oracle")), None);
    assert!(PortId::new("a").same(&PortId::new("a")));
    assert!(!PortId::new("a").same(&PortId::new("b")));
}
