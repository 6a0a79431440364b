use quickemu_manager::models::vm::VMId;
use quickemu_manager::services::process_registry::ProcessRegistry;

#[test]
fn registry_records_and_forgets() {
    let mut reg = ProcessRegistry::new();
    let a = VMId("a".to_string());
    let b = VMId("b".to_string());
    reg.register_vm_process(&a, 100);
    reg.register_vm_process(&b, 200);
    reg.register_vm_process(&a, 101);
    assert_eq!(reg.registered_pid(&a), Some(101));
    assert_eq!(reg.registered_pid(&b), Some(200));
    let mut all = reg.registered();
    all.sort();
    assert_eq!(all, vec![("a".to_string(), 101), ("b".to_string(), 200)]);
    reg.unregister_vm_process(&b);
    assert_eq!(reg.registered_pid(&b), None);
}

#[test]
fn stale_processes_are_dropped() {
    let mut reg = ProcessRegistry::new();
    reg.register_vm_process(&VMId("a".to_string()), 1);
    reg.register_vm_process(&VMId("b".to_string()), 2);
    reg.register_vm_process(&VMId("c".to_string()), 3);
    reg.cleanup_stale_processes(&vec![3, 1, 99]);
    assert_eq!(reg.registered_pid(&VMId("a".to_string())), Some(1));
    assert_eq!(reg.registered_pid(&VMId("b".to_string())), None);
    assert_eq!(reg.registered_pid(&VMId("c".to_string())), Some(3));
    assert_eq!(reg.registered().len(), 2);
}
