use alumet_core::codec::consumer_new_local_machine;
use alumet_core::codec::consumer_new_process;
use alumet_core::codec::resource_new_cpu_package;
use alumet_core::codec::resource_new_local_machine;
use alumet_core::codec::FfiConsumerId;
use alumet_core::codec::FfiResourceId;
use alumet_core::codec::ENCODED_ID_WIDTH;
use alumet_core::plugin::layout_compatible;
use alumet_core::resources::ResourceConsumerId;
use alumet_core::resources::ResourceId;

#[test]
fn test_memory_layout() {
    assert_eq!(56, core::mem::size_of::<FfiResourceId>());
    assert_eq!(56, core::mem::size_of::<FfiConsumerId>());
}

#[test]
fn encoded_width_is_the_declared_abi_width() {
    assert_eq!(ENCODED_ID_WIDTH, 56);
    assert_eq!(
        core::mem::size_of::<FfiResourceId>(),
        core::mem::size_of::<FfiConsumerId>()
    );
}

#[test]
fn resource_round_trip_local_machine() {
    let v = ResourceId::LocalMachine;
    assert_eq!(v.encode().decode(), v);
}

#[test]
fn resource_round_trip_cpu_package() {
    for id in [0u32, 1, 7, 1234, u32::MAX] {
        let v = ResourceId::CpuPackage { id };
        assert_eq!(v.encode().decode(), v);
    }
}

#[test]
fn consumer_round_trip_local_machine() {
    let v = ResourceConsumerId::LocalMachine;
    assert_eq!(v.encode().decode(), v);
}

#[test]
fn consumer_round_trip_process() {
    for pid in [0u32, 1, 4242, u32::MAX] {
        let v = ResourceConsumerId::Process { pid };
        assert_eq!(v.encode().decode(), v);
    }
}

#[test]
fn exported_constructors_encode_the_right_variant() {
    assert_eq!(
        resource_new_local_machine().decode(),
        ResourceId::LocalMachine
    );
    assert_eq!(
        resource_new_cpu_package(3).decode(),
        ResourceId::CpuPackage { id: 3 }
    );
    assert_eq!(
        consumer_new_local_machine().decode(),
        ResourceConsumerId::LocalMachine
    );
    assert_eq!(
        consumer_new_process(77).decode(),
        ResourceConsumerId::Process { pid: 77 }
    );
}

#[test]
fn layout_check_accepts_only_the_declared_width() {
    assert!(layout_compatible(56));
    assert!(!layout_compatible(55));
    assert!(!layout_compatible(0));
    assert!(!layout_compatible(57));
}

#[test]
fn resource_kind_and_id_strings() {
    assert_eq!(ResourceId::LocalMachine.kind(), "local_machine");
    assert_eq!(ResourceId::CpuPackage { id: 9 }.kind(), "cpu_package");
    assert_eq!(ResourceId::LocalMachine.id_string(), None);
    assert_eq!(
        ResourceId::CpuPackage { id: 9 }.id_string(),
        Some(String::from("9"))
    );
    assert_eq!(ResourceConsumerId::LocalMachine.kind(), "local_machine");
    assert_eq!(ResourceConsumerId::Process { pid: 10 }.kind(), "process");
    assert_eq!(ResourceConsumerId::LocalMachine.id_string(), None);
    assert_eq!(
        ResourceConsumerId::Process { pid: 10 }.id_string(),
        Some(String::from("10"))
    );
}
