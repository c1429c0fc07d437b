use cosmwasm_vm::errors::{CommunicationError, VmError};
use cosmwasm_vm::memory::Region;
use cosmwasm_vm::metering::Budget;
use cosmwasm_vm::wasm::{finish_call, Memory, Pages, WasmVM, WasmerInstance};
use std::sync::Arc;
use wasmer::sys::{BaseTunables, CompilerConfig, Cranelift, EngineBuilder, NativeEngineExt, Target};
use wasmer::wasmparser::Operator;
use wasmer::{
    wat2wasm, Engine, Function, Imports, Instance, Memory as GuestMemory, MemoryType, Module,
    Pages as WasmerPages, Store, Value,
};

const GUEST: &str = r#"(module
    (memory (export "memory") 2)
    (global (export "answer") i32 (i32.const 42))
    (func (export "add_one") (param i32) (result i32)
        local.get 0
        i32.const 1
        i32.add)
    (func (export "nothing"))
    (func (export "fail") unreachable)
    (func (export "spin") (loop $again br $again))
    (func (export "peek") (param i32) (result i32)
        local.get 0
        i32.load8_u)
    (func (export "poke") (param i32 i32)
        local.get 0
        local.get 1
        i32.store8)
    (func (export "grow") (result i32)
        i32.const 1
        memory.grow)
)"#;

const NO_MEMORY: &str = r#"(module
    (func (export "add_one") (param i32) (result i32)
        local.get 0
        i32.const 1
        i32.add)
)"#;

fn every_operator_costs_one(_operator: &Operator) -> u64 {
    1
}

/// An instance of `wat` with `limit` points to spend, in a store whose memories take
/// no more address space than they need.
fn instantiate(wat: &str, limit: u64) -> WasmerInstance {
    let metering = Arc::new(wasmer_middlewares::Metering::new(
        limit,
        every_operator_costs_one,
    ));
    let mut compiler = Cranelift::default();
    compiler.push_middleware(metering);
    let mut engine: Engine = EngineBuilder::new(compiler).into();
    let mut tunables = BaseTunables::for_target(&Target::default());
    tunables.static_memory_bound = WasmerPages(0);
    tunables.dynamic_memory_offset_guard_size = 0x1_0000;
    engine.set_tunables(tunables);
    let mut store = Store::new(engine);
    let module = Module::new(&store, wat2wasm(wat.as_bytes()).unwrap()).unwrap();
    let instance = Instance::new(&mut store, &module, &Imports::new()).unwrap();
    WasmerInstance::new(store, instance)
}

fn i32_of(values: &[Value]) -> Vec<i32> {
    values.iter().map(|value| value.unwrap_i32()).collect()
}

#[test]
fn the_budget_starts_with_what_the_engine_was_given() {
    let mut vm = instantiate(GUEST, 1234);
    assert_eq!(vm.get_gas_left(), 1234);
}

#[test]
fn a_budget_that_was_set_is_read_back() {
    let mut vm = instantiate(GUEST, 10);
    for points in [0, 1, 500_000, u64::MAX] {
        vm.set_gas_left(points);
        assert_eq!(vm.get_gas_left(), points);
        assert_eq!(vm.get_gas_left(), points);
    }
}

#[test]
fn call_function_hands_the_results_on() {
    let mut vm = instantiate(GUEST, 1000);
    let results = vm.call_function("add_one", &[Value::I32(41)]).unwrap();
    assert_eq!(i32_of(&results), vec![42]);
    let results = vm.call_function("add_one", &[Value::I32(-1)]).unwrap();
    assert_eq!(i32_of(&results), vec![0]);
    let results = vm.call_function("nothing", &[]).unwrap();
    assert!(results.is_empty());
}

#[test]
fn a_call_spends_points() {
    let mut vm = instantiate(GUEST, 1000);
    vm.call_function("add_one", &[Value::I32(1)]).unwrap();
    let left = vm.get_gas_left();
    assert!(left < 1000);
    vm.call_function("add_one", &[Value::I32(1)]).unwrap();
    assert_eq!(vm.get_gas_left(), left - (1000 - left));
}

#[test]
fn a_call_that_runs_out_of_points_is_gas_depletion() {
    let mut vm = instantiate(GUEST, 10_000);
    let result = vm.call_function("spin", &[]);
    assert_eq!(result.unwrap_err(), VmError::GasDepletion);
    assert_eq!(vm.get_gas_left(), 0);
}

#[test]
fn a_call_with_too_few_points_is_gas_depletion() {
    let mut vm = instantiate(GUEST, 1000);
    vm.set_gas_left(1);
    let result = vm.call_function("add_one", &[Value::I32(1)]);
    assert_eq!(result.unwrap_err(), VmError::GasDepletion);
    assert_eq!(vm.get_gas_left(), 0);
}

#[test]
fn a_new_budget_lets_the_guest_run_again() {
    let mut vm = instantiate(GUEST, 100);
    assert_eq!(
        vm.call_function("spin", &[]).unwrap_err(),
        VmError::GasDepletion
    );
    assert_eq!(vm.get_gas_left(), 0);

    vm.set_gas_left(500);
    assert_eq!(vm.get_gas_left(), 500);
    let results = vm.call_function("add_one", &[Value::I32(6)]).unwrap();
    assert_eq!(i32_of(&results), vec![7]);
}

#[test]
fn a_guest_trap_is_a_runtime_error() {
    let mut vm = instantiate(GUEST, 1000);
    match vm.call_function("fail", &[]).unwrap_err() {
        VmError::RuntimeError { msg } => assert!(msg.contains("unreachable"), "{}", msg),
        e => panic!("Got unexpected error: {:?}", e),
    }
    assert!(vm.get_gas_left() > 0);

    // reading outside the memory traps too
    match vm.call_function("peek", &[Value::I32(-1)]).unwrap_err() {
        VmError::RuntimeError { msg } => assert!(!msg.is_empty()),
        e => panic!("Got unexpected error: {:?}", e),
    }
}

#[test]
fn a_call_with_the_wrong_arguments_is_a_runtime_error() {
    let mut vm = instantiate(GUEST, 1000);
    match vm.call_function("add_one", &[]).unwrap_err() {
        VmError::RuntimeError { .. } => {}
        e => panic!("Got unexpected error: {:?}", e),
    }
    assert_eq!(vm.get_gas_left(), 1000);
}

#[test]
fn a_function_that_is_not_exported_is_not_found() {
    let mut vm = instantiate(GUEST, 1000);
    assert_eq!(
        vm.call_function("subtract_one", &[Value::I32(1)]).unwrap_err(),
        VmError::ResolveError {
            name: "subtract_one".to_string(),
        }
    );
    assert_eq!(
        vm.call_function("", &[]).unwrap_err(),
        VmError::ResolveError {
            name: String::new(),
        }
    );
    assert_eq!(vm.get_gas_left(), 1000);
}

#[test]
fn an_export_that_is_no_function_is_not_found() {
    let mut vm = instantiate(GUEST, 1000);
    for name in ["answer", "memory"] {
        assert_eq!(
            vm.call_function(name, &[]).unwrap_err(),
            VmError::ResolveError {
                name: name.to_string(),
            }
        );
    }
    assert_eq!(vm.get_gas_left(), 1000);
}

#[test]
fn an_exhausted_budget_does_not_hide_a_missing_function() {
    let mut vm = instantiate(GUEST, 10);
    assert_eq!(
        vm.call_function("spin", &[]).unwrap_err(),
        VmError::GasDepletion
    );
    assert_eq!(
        vm.call_function("subtract_one", &[]).unwrap_err(),
        VmError::ResolveError {
            name: "subtract_one".to_string(),
        }
    );
}

#[test]
fn module_is_the_one_the_instance_was_made_from() {
    let vm = instantiate(GUEST, 1000);
    let names: Vec<String> = vm
        .module()
        .exports()
        .functions()
        .map(|export| export.name().to_string())
        .collect();
    assert_eq!(
        names,
        vec!["add_one", "nothing", "fail", "spin", "peek", "poke", "grow"]
    );
}

#[test]
fn memory_is_the_memory_of_the_guest() {
    let mut vm = instantiate(GUEST, 100_000);
    {
        let mut memory = vm.memory().unwrap();
        assert_eq!(Memory::size(&memory).inner(), 2);
        memory
            .set_region(
                64,
                Region {
                    offset: 1000,
                    capacity: 8,
                    length: 0,
                },
            )
            .unwrap();
        memory.write_region(64, &[0xca, 0xfe]).unwrap();
    }

    // the guest sees what the host wrote: the data and the new length
    let seen = vm.call_function("peek", &[Value::I32(1001)]).unwrap();
    assert_eq!(i32_of(&seen), vec![0xfe]);
    let seen = vm.call_function("peek", &[Value::I32(72)]).unwrap();
    assert_eq!(i32_of(&seen), vec![2]);

    // the host sees what the guest wrote
    vm.call_function("poke", &[Value::I32(1000), Value::I32(0x11)])
        .unwrap();
    let memory = vm.memory().unwrap();
    assert_eq!(memory.read_region(64, 10), Ok(vec![0x11, 0xfe]));
}

#[test]
fn memory_is_looked_up_anew_after_the_guest_grew_it() {
    let mut vm = instantiate(GUEST, 100_000);
    let region = Region {
        offset: 2 * 65_536,
        capacity: 4,
        length: 0,
    };
    {
        let mut memory = vm.memory().unwrap();
        memory.set_region(64, region).unwrap();
        match memory.write_region(64, &[1, 2, 3]).unwrap_err() {
            VmError::Communication {
                source: CommunicationError::DerefError { pointer, .. },
            } => assert_eq!(pointer, 2 * 65_536),
            e => panic!("Got unexpected error: {:?}", e),
        }
    }

    let before = vm.call_function("grow", &[]).unwrap();
    assert_eq!(i32_of(&before), vec![2]);

    let mut memory = vm.memory().unwrap();
    assert_eq!(Memory::size(&memory).inner(), 3);
    assert_eq!(memory.write_region(64, &[1, 2, 3]), Ok(()));
    assert_eq!(memory.read_region(64, 3), Ok(vec![1, 2, 3]));
}

#[test]
fn an_instance_without_memory_is_reported() {
    let mut vm = instantiate(NO_MEMORY, 1000);
    match vm.memory() {
        Err(VmError::MissingMemory) => {}
        Err(e) => panic!("Got unexpected error: {:?}", e),
        Ok(_) => panic!("Got a memory from an instance that exports none"),
    }
    // the rest of the instance works
    let results = vm.call_function("add_one", &[Value::I32(1)]).unwrap();
    assert_eq!(i32_of(&results), vec![2]);
}

#[test]
fn module_stays_the_same_whatever_the_instance_does() {
    let mut vm = instantiate(GUEST, 1000);
    let before = vm.module().clone();
    assert_eq!(vm.module(), &before);

    vm.set_gas_left(1);
    vm.call_function("add_one", &[Value::I32(1)]).unwrap_err();
    vm.set_gas_left(700);
    vm.call_function("add_one", &[Value::I32(1)]).unwrap();
    assert_eq!(vm.module(), &before);

    let other = instantiate(NO_MEMORY, 1000);
    assert!(other.module() != &before);
    assert_eq!(other.module().exports().functions().count(), 1);
}

fn plain_store() -> Store {
    let mut engine: Engine = EngineBuilder::new(Cranelift::default()).into();
    let mut tunables = BaseTunables::for_target(&Target::default());
    tunables.static_memory_bound = WasmerPages(0);
    tunables.dynamic_memory_offset_guard_size = 0x1_0000;
    engine.set_tunables(tunables);
    Store::new(engine)
}

fn metered_store(limit: u64) -> Store {
    let metering = Arc::new(wasmer_middlewares::Metering::new(
        limit,
        every_operator_costs_one,
    ));
    let mut compiler = Cranelift::default();
    compiler.push_middleware(metering);
    let mut engine: Engine = EngineBuilder::new(compiler).into();
    let mut tunables = BaseTunables::for_target(&Target::default());
    tunables.static_memory_bound = WasmerPages(0);
    tunables.dynamic_memory_offset_guard_size = 0x1_0000;
    engine.set_tunables(tunables);
    Store::new(engine)
}

fn instance_in(store: &mut Store, wat: &str) -> Instance {
    let module = Module::new(store, wat2wasm(wat.as_bytes()).unwrap()).unwrap();
    Instance::new(store, &module, &Imports::new()).unwrap()
}

#[test]
fn try_new_takes_a_metered_instance_with_its_store() {
    let mut store = metered_store(321);
    let instance = instance_in(&mut store, GUEST);
    let mut vm = WasmerInstance::try_new(store, instance).unwrap();
    assert_eq!(vm.get_gas_left(), 321);
    vm.set_gas_left(5000);
    let results = vm.call_function("add_one", &[Value::I32(1)]).unwrap();
    assert_eq!(i32_of(&results), vec![2]);
    assert!(vm.memory().is_ok());
}

#[test]
fn try_new_turns_down_an_instance_that_is_not_metered() {
    let mut store = plain_store();
    let instance = instance_in(&mut store, GUEST);
    assert!(WasmerInstance::try_new(store, instance).is_none());
}

#[test]
fn try_new_turns_down_an_instance_of_another_store() {
    let mut home = metered_store(100);
    let instance = instance_in(&mut home, GUEST);
    let other = metered_store(100);
    assert!(WasmerInstance::try_new(other, instance.clone()).is_none());
    assert!(WasmerInstance::try_new(home, instance).is_some());
}

#[test]
fn try_new_turns_down_globals_that_only_bear_the_names() {
    // the right names, but the points cannot be set
    let constant = r#"(module
        (global (export "wasmer_metering_remaining_points") i64 (i64.const 10))
        (global (export "wasmer_metering_points_exhausted") (mut i32) (i32.const 0))
    )"#;
    // the right names, but the points are of the wrong kind
    let narrow = r#"(module
        (global (export "wasmer_metering_remaining_points") (mut i32) (i32.const 10))
        (global (export "wasmer_metering_points_exhausted") (mut i32) (i32.const 0))
    )"#;
    // the mark is of the wrong kind
    let wide_mark = r#"(module
        (global (export "wasmer_metering_remaining_points") (mut i64) (i64.const 10))
        (global (export "wasmer_metering_points_exhausted") (mut i64) (i64.const 0))
    )"#;
    // one of the two is missing
    let half = r#"(module
        (global (export "wasmer_metering_remaining_points") (mut i64) (i64.const 10))
    )"#;
    // a function bears the name
    let function = r#"(module
        (global (export "wasmer_metering_remaining_points") (mut i64) (i64.const 10))
        (func (export "wasmer_metering_points_exhausted"))
    )"#;
    for wat in [constant, narrow, wide_mark, half, function] {
        let mut store = plain_store();
        let instance = instance_in(&mut store, wat);
        assert!(WasmerInstance::try_new(store, instance).is_none(), "{}", wat);
    }
}

#[test]
fn try_new_takes_any_instance_that_holds_the_two_globals() {
    let wat = r#"(module
        (global (export "wasmer_metering_remaining_points") (mut i64) (i64.const 10))
        (global (export "wasmer_metering_points_exhausted") (mut i32) (i32.const 0))
        (func (export "nothing"))
    )"#;
    let mut store = plain_store();
    let instance = instance_in(&mut store, wat);
    let mut vm = WasmerInstance::try_new(store, instance).unwrap();
    assert_eq!(vm.get_gas_left(), 10);
    vm.set_gas_left(77);
    vm.call_function("nothing", &[]).unwrap();
    assert_eq!(vm.get_gas_left(), 77);
}

#[test]
fn finish_call_hands_a_normal_return_on_as_it_came() {
    let values: Box<[Value]> = vec![Value::I32(7), Value::I64(-1), Value::I32(0)].into();
    let result = finish_call(Ok(values)).unwrap();
    assert_eq!(result.len(), 3);
    assert_eq!(result[0].unwrap_i32(), 7);
    assert_eq!(result[1].unwrap_i64(), -1);
    assert_eq!(result[2].unwrap_i32(), 0);

    let nothing: Box<[Value]> = Vec::new().into();
    assert!(finish_call(Ok(nothing)).unwrap().is_empty());
}

#[test]
fn finish_call_tells_the_two_kinds_of_trap_apart() {
    assert_eq!(
        finish_call(Err((Budget::Exhausted, "unreachable".to_string()))).unwrap_err(),
        VmError::GasDepletion
    );
    assert_eq!(
        finish_call(Err((Budget::Remaining(0), "unreachable".to_string()))).unwrap_err(),
        VmError::RuntimeError {
            msg: "unreachable".to_string(),
        }
    );
    assert_eq!(
        finish_call(Err((Budget::Remaining(9), "out of bounds".to_string()))).unwrap_err(),
        VmError::RuntimeError {
            msg: "out of bounds".to_string(),
        }
    );
}

#[test]
fn a_normal_return_is_handed_on_even_when_no_points_are_left() {
    // the call uses up the budget to the last point and is not cut short
    let mut vm = instantiate(GUEST, 1000);
    vm.set_gas_left(1000);
    vm.call_function("add_one", &[Value::I32(1)]).unwrap();
    let cost = 1000 - vm.get_gas_left();
    vm.set_gas_left(cost);
    let results = vm.call_function("add_one", &[Value::I32(41)]).unwrap();
    assert_eq!(i32_of(&results), vec![42]);
    assert_eq!(vm.get_gas_left(), 0);
}

fn nothing_to_do() {}

#[test]
fn a_memory_of_another_store_is_reported() {
    let mut home = metered_store(1000);
    let mut instance = instance_in(&mut home, NO_MEMORY);
    let mut elsewhere = plain_store();
    let alien = GuestMemory::new(&mut elsewhere, MemoryType::new(1, None, false)).unwrap();
    instance.exports.insert("memory", alien);

    let mut vm = WasmerInstance::try_new(home, instance).unwrap();
    match vm.memory() {
        Err(VmError::ForeignExport) => {}
        Err(e) => panic!("Got unexpected error: {:?}", e),
        Ok(_) => panic!("Got a memory that the store does not hold"),
    }
    // the rest of the instance works, and the budget is as it was
    assert_eq!(vm.get_gas_left(), 1000);
    let results = vm.call_function("add_one", &[Value::I32(1)]).unwrap();
    assert_eq!(i32_of(&results), vec![2]);
}

#[test]
fn a_memory_that_was_added_from_the_same_store_is_handed_out() {
    let mut home = metered_store(1000);
    let mut instance = instance_in(&mut home, NO_MEMORY);
    let added = GuestMemory::new(&mut home, MemoryType::new(1, None, false)).unwrap();
    instance.exports.insert("memory", added);

    let mut vm = WasmerInstance::try_new(home, instance).unwrap();
    let mut memory = vm.memory().unwrap();
    assert_eq!(Memory::size(&memory).inner(), 1);
    memory
        .set_region(
            8,
            Region {
                offset: 100,
                capacity: 4,
                length: 0,
            },
        )
        .unwrap();
    memory.write_region(8, &[1, 2]).unwrap();
    assert_eq!(memory.read_region(8, 4), Ok(vec![1, 2]));
}

#[test]
fn a_function_of_another_store_is_reported() {
    let mut home = metered_store(1000);
    let mut instance = instance_in(&mut home, GUEST);
    let mut elsewhere = plain_store();
    let alien = Function::new_typed(&mut elsewhere, nothing_to_do);
    instance.exports.insert("alien", alien);

    let mut vm = WasmerInstance::try_new(home, instance).unwrap();
    assert_eq!(
        vm.call_function("alien", &[]).unwrap_err(),
        VmError::ForeignExport
    );
    assert_eq!(vm.get_gas_left(), 1000);
    // a name that is not there at all is still not found
    assert_eq!(
        vm.call_function("stranger", &[]).unwrap_err(),
        VmError::ResolveError {
            name: "stranger".to_string(),
        }
    );
    let results = vm.call_function("add_one", &[Value::I32(1)]).unwrap();
    assert_eq!(i32_of(&results), vec![2]);
}

#[test]
fn a_function_that_was_added_from_the_same_store_is_called() {
    let mut home = metered_store(1000);
    let mut instance = instance_in(&mut home, GUEST);
    let added = Function::new_typed(&mut home, nothing_to_do);
    instance.exports.insert("added", added);

    let mut vm = WasmerInstance::try_new(home, instance).unwrap();
    assert!(vm.call_function("added", &[]).unwrap().is_empty());
}
