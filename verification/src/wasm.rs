use crate::engine::{
    call_in_store, exported_function, exported_functions, exported_global, exports_memory,
    first_memory, function_is_from_store, functions_at_home, global_is_from_store, global_type,
    guest_bytes, holds_global, instance_memory, instance_module, memory_at_home,
    memory_is_from_store, memory_view, metered_in_store, metering_budget, module_of,
    remaining_points, reset_points, same_handles, trap_message, view_read, view_size,
    view_write,
};
use crate::errors::{
    CommunicationError, CommunicationResult, DerefContext, VmError, VmResult,
};
use crate::layout::{decode_region, encode_region, lemma_record_round_trip, REGION_SIZE};
use crate::memory::{
    region_at, region_maybe_read, region_read, region_set, region_written, validate_region,
    Region, PAGE_SIZE,
};
use crate::metering::{classify_trap, trap_outcome, Budget};
use vstd::prelude::*;
use wasmer::Pages as WasmerPages;
use wasmer::{Instance, MemoryView, Module, Store, Value};
use wasmer::{Mutability, Type};

verus! {

/// A size in pages of linear memory.
pub trait Pages {
    /// The number of pages.
    spec fn count(&self) -> u32;

    /// The number of pages as a plain number.
    fn inner(&self) -> (pages: u32)
        ensures
            pages == self.count(),
    ;
}

/// The linear memory of a guest, reached only through offsets that are checked
/// against its current size.
pub trait Memory {
    type Pages: Pages;

    /// The bytes of the memory, from address zero up to its current size.
    spec fn bytes(&self) -> Seq<u8>;

    /// The current size of the memory.
    fn size(&self) -> (pages: Self::Pages)
        ensures
            pages.count() * PAGE_SIZE == self.bytes().len(),
    ;

    /// Copies the region record at `ptr` out of the memory and validates it.
    fn get_region(&self, ptr: u32) -> (result: CommunicationResult<Region>)
        ensures
            result == region_at(self.bytes(), ptr),
    ;

    /// Writes `data` into the region whose record is at `ptr` and sets the length in
    /// that record to the number of bytes written. On failure the memory is left as
    /// it was.
    fn write_region(&mut self, ptr: u32, data: &[u8]) -> (result: VmResult<()>)
        ensures
            match region_written(old(self).bytes(), ptr, data@) {
                Ok(after) => result is Ok && final(self).bytes() == after,
                Err(error) => {
                    &&& result == Err::<(), VmError>(error)
                    &&& final(self).bytes() == old(self).bytes()
                },
            },
    ;

    /// Overwrites the region record at `ptr`. On failure the memory is left as it
    /// was.
    fn set_region(&mut self, ptr: u32, data: Region) -> (result: CommunicationResult<()>)
        ensures
            match region_set(old(self).bytes(), ptr, data) {
                Ok(after) => result is Ok && final(self).bytes() == after,
                Err(error) => {
                    &&& result == Err::<(), CommunicationError>(error)
                    &&& final(self).bytes() == old(self).bytes()
                },
            },
    ;

    /// Copies the bytes in use of the region whose record is at `ptr` into a buffer
    /// of the host, unless there are more than `max_length` of them.
    fn read_region(&self, ptr: u32, max_length: usize) -> (result: VmResult<Vec<u8>>)
        ensures
            match region_read(self.bytes(), ptr, max_length) {
                Ok(data) => result matches Ok(buffer) && buffer@ == data,
                Err(error) => result == Err::<Vec<u8>, VmError>(error),
            },
    ;

    /// Like `read_region`, but takes a null pointer for an argument that was left
    /// out and returns `None` for it.
    fn maybe_read_region(&self, ptr: u32, max_length: usize) -> (result: VmResult<
        Option<Vec<u8>>,
    >)
        ensures
            match region_maybe_read(self.bytes(), ptr, max_length) {
                Ok(Some(data)) => result matches Ok(Some(buffer)) && buffer@ == data,
                Ok(None) => result == Ok::<Option<Vec<u8>>, VmError>(None),
                Err(error) => result == Err::<Option<Vec<u8>>, VmError>(error),
            },
    ;
}

impl Pages for WasmerPages {
    open spec fn count(&self) -> u32 {
        self.0
    }

    fn inner(&self) -> (pages: u32) {
        self.0
    }
}

/// The failure to reach the bytes of `region` in a memory of `pages` pages.
fn data_deref_error(region: Region, pages: u32) -> (error: VmError)
    ensures
        error == (VmError::Communication {
            source: CommunicationError::DerefError {
                pointer: region.offset,
                context: DerefContext::RegionData {
                    region,
                    memory_size: (pages * PAGE_SIZE) as u64,
                },
            },
        }),
{
    VmError::Communication {
        source: CommunicationError::DerefError {
            pointer: region.offset,
            context: DerefContext::RegionData { region, memory_size: pages as u64 * PAGE_SIZE },
        },
    }
}

/// The linear memory of a guest instance on the Wasmer engine. It is handed out by
/// `WasmerInstance::memory` and keeps the instance borrowed: as long as it lives it
/// is the only way to the memory, and no guest code runs.
pub struct WasmerMemory<'a> {
    view: MemoryView<'a>,
}

impl<'a> Memory for WasmerMemory<'a> {
    type Pages = WasmerPages;

    closed spec fn bytes(&self) -> Seq<u8> {
        guest_bytes(self.view)
    }

    fn size(&self) -> (pages: Self::Pages) {
        view_size(&self.view)
    }

    fn get_region(&self, ptr: u32) -> (result: CommunicationResult<Region>) {
        let deref_error = CommunicationError::DerefError {
            pointer: ptr,
            context: DerefContext::RegionRecord,
        };
        let mut record = vec![0u8; 12];
        match view_read(&self.view, ptr, &mut record) {
            Ok(_) => match decode_region(record.as_slice()) {
                Some(region) => match validate_region(&region) {
                    Ok(_) => Ok(region),
                    Err(source) => Err(source.into_communication_error()),
                },
                None => Err(deref_error),
            },
            Err(_) => Err(deref_error),
        }
    }

    fn write_region(&mut self, ptr: u32, data: &[u8]) -> (result: VmResult<()>) {
        let mut region = match self.get_region(ptr) {
            Ok(region) => region,
            Err(error) => {
                return Err(error.into_vm_error());
            },
        };
        let region_capacity = region.capacity as usize;
        if data.len() > region_capacity {
            return Err(
                CommunicationError::RegionTooSmall {
                    capacity: region_capacity,
                    requested: data.len(),
                }.into_vm_error(),
            );
        }
        // the whole capacity must be there, not only the part that is written now
        let pages = view_size(&self.view).inner();
        if region.offset as u64 + region.capacity as u64 > pages as u64 * PAGE_SIZE {
            return Err(data_deref_error(region, pages));
        }
        if view_write(&mut self.view, region.offset, data).is_err() {
            return Err(data_deref_error(region, pages));
        }
        region.length = data.len() as u32;
        match self.set_region(ptr, region) {
            Ok(_) => Ok(()),
            Err(error) => Err(error.into_vm_error()),
        }
    }

    fn set_region(&mut self, ptr: u32, data: Region) -> (result: CommunicationResult<()>) {
        let record = encode_region(&data);
        proof {
            lemma_record_round_trip(data);
        }
        match view_write(&mut self.view, ptr, record.as_slice()) {
            Ok(_) => Ok(()),
            Err(_) => Err(
                CommunicationError::DerefError { pointer: ptr, context: DerefContext::RegionRecord },
            ),
        }
    }

    fn read_region(&self, ptr: u32, max_length: usize) -> (result: VmResult<Vec<u8>>) {
        let region = match self.get_region(ptr) {
            Ok(region) => region,
            Err(error) => {
                return Err(error.into_vm_error());
            },
        };
        if region.length as usize > max_length {
            return Err(
                CommunicationError::RegionTooBig {
                    actual: region.length as usize,
                    max: max_length,
                }.into_vm_error(),
            );
        }
        let mut buffer = vec![0u8; region.length as usize];
        match view_read(&self.view, region.offset, &mut buffer) {
            Ok(_) => Ok(buffer),
            Err(_) => Err(data_deref_error(region, view_size(&self.view).inner())),
        }
    }

    fn maybe_read_region(&self, ptr: u32, max_length: usize) -> (result: VmResult<
        Option<Vec<u8>>,
    >) {
        if ptr == 0 {
            Ok(None)
        } else {
            match self.read_region(ptr, max_length) {
                Ok(buffer) => Ok(Some(buffer)),
                Err(error) => Err(error),
            }
        }
    }
}

/// What the engine made of a call: the values that the guest function returned, or,
/// for a trap, the budget found right after it and the engine's words.
pub type EngineResult = Result<Box<[Value]>, (Budget, String)>;

/// What is reported of a call that the engine ran: the values of a normal return
/// exactly as they came, whatever the budget, and for a trap the error that
/// `trap_outcome` makes of it.
pub open spec fn call_outcome(returned: EngineResult) -> VmResult<Box<[Value]>> {
    match returned {
        Ok(values) => Ok(values),
        Err((budget, message)) => Err(trap_outcome(budget, message)),
    }
}

/// Turns what the engine made of a call into what the caller is told.
pub fn finish_call(returned: EngineResult) -> (result: VmResult<Box<[Value]>>)
    ensures
        result == call_outcome(returned),
{
    match returned {
        Ok(values) => Ok(values),
        Err((budget, message)) => Err(classify_trap(budget, message)),
    }
}

/// One guest instance on some execution engine: its memory, its metering gate and
/// its exported functions. Each engine gets an adapter of its own.
pub trait WasmVM {
    /// What the engine can tell of the module's exports and imports.
    type ExportInfo;

    /// The memory of the instance as the host reaches it. It borrows the instance
    /// exclusively: while it is held no call runs and nothing else reads or writes
    /// the memory.
    type Memory<'a>: Memory where Self: 'a;

    /// The static description of the module that the instance was made from. It
    /// is settled when the instance is made: no call and no change of the budget
    /// touches it.
    spec fn export_info(&self) -> Self::ExportInfo;

    /// Whether the instance exports a linear memory.
    spec fn has_memory(&self) -> bool;

    /// Whether the memory that the instance exports is its own: the engine holds it
    /// together with the rest of the instance, so that it can be reached.
    spec fn memory_is_own(&self) -> bool;

    /// The names under which the instance exports functions.
    spec fn functions(&self) -> Set<Seq<char>>;

    /// The names under which the instance exports functions of its own: functions
    /// that the engine holds together with the rest of the instance, so that they
    /// can be called.
    spec fn own_functions(&self) -> Set<Seq<char>>;

    /// Whether the engine holds the state of this instance and meters it. Only then
    /// is there a memory to look into, a budget to ask for and a function to call.
    spec fn is_metered(&self) -> bool;

    /// The state of the metering gate.
    spec fn budget(&self) -> Budget;

    /// The bytes of the linear memory that the instance exports.
    spec fn memory_bytes(&self) -> Seq<u8>;

    /// The static description of the module that the instance was made from.
    fn module(&self) -> (module: &Self::ExportInfo)
        ensures
            *module == self.export_info(),
    ;

    /// The linear memory that the instance exports. A module of the expected shape
    /// exports exactly one; an instance without any is reported, not assumed away,
    /// and so is an instance whose memory is not its own. What is handed out shows
    /// the memory of this very instance, so what is written through it is what the
    /// guest finds. Asking for the memory runs no guest code and leaves the budget
    /// as it is.
    fn memory<'a>(&'a mut self) -> (result: VmResult<Self::Memory<'a>>)
        requires
            old(self).is_metered(),
        ensures
            result is Ok <==> old(self).has_memory() && old(self).memory_is_own(),
            result matches Err(error) ==> error == if old(self).has_memory() {
                VmError::ForeignExport
            } else {
                VmError::MissingMemory
            },
            result matches Ok(memory) ==> memory.bytes() == old(self).memory_bytes(),
            result is Err ==> final(self).memory_bytes() == old(self).memory_bytes(),
            final(self).is_metered(),
            final(self).budget() == old(self).budget(),
            final(self).export_info() == old(self).export_info(),
            final(self).has_memory() == old(self).has_memory(),
            final(self).memory_is_own() == old(self).memory_is_own(),
            final(self).functions() == old(self).functions(),
            final(self).own_functions() == old(self).own_functions(),
    ;

    /// The points that are left of the budget, zero once it ran out.
    fn get_gas_left(&mut self) -> (left: u64)
        requires
            old(self).is_metered(),
        ensures
            final(self).is_metered(),
            left == old(self).budget().gas_left(),
            final(self).budget() == old(self).budget(),
            final(self).memory_bytes() == old(self).memory_bytes(),
            final(self).export_info() == old(self).export_info(),
            final(self).has_memory() == old(self).has_memory(),
            final(self).memory_is_own() == old(self).memory_is_own(),
            final(self).functions() == old(self).functions(),
            final(self).own_functions() == old(self).own_functions(),
    ;

    /// Sets the budget to `new` points and forgets that it may have run out before.
    fn set_gas_left(&mut self, new: u64)
        requires
            old(self).is_metered(),
        ensures
            final(self).is_metered(),
            final(self).budget() == Budget::Remaining(new),
            final(self).memory_bytes() == old(self).memory_bytes(),
            final(self).export_info() == old(self).export_info(),
            final(self).has_memory() == old(self).has_memory(),
            final(self).memory_is_own() == old(self).memory_is_own(),
            final(self).functions() == old(self).functions(),
            final(self).own_functions() == old(self).own_functions(),
    ;

    /// Calls the function that the instance exports under `name`. What the function
    /// returns is handed on as it is. If it traps, the budget is looked at once,
    /// right after the call, to tell a depleted budget from any other trap. A name
    /// that is not exported, or that stands for a function which is not the
    /// instance's own, is reported and nothing runs.
    fn call_function(&mut self, name: &str, args: &[Value]) -> (result: VmResult<Box<[Value]>>)
        requires
            old(self).is_metered(),
        ensures
            final(self).is_metered(),
            final(self).export_info() == old(self).export_info(),
            final(self).has_memory() == old(self).has_memory(),
            final(self).memory_is_own() == old(self).memory_is_own(),
            final(self).functions() == old(self).functions(),
            final(self).own_functions() == old(self).own_functions(),
            !old(self).functions().contains(name@) ==> {
                &&& result matches Err(VmError::ResolveError { name: missing })
                &&& missing@ == name@
            },
            old(self).functions().contains(name@) && !old(self).own_functions().contains(name@)
                ==> result == Err::<Box<[Value]>, VmError>(VmError::ForeignExport),
            !old(self).own_functions().contains(name@) ==> {
                &&& final(self).budget() == old(self).budget()
                &&& final(self).memory_bytes() == old(self).memory_bytes()
            },
            old(self).own_functions().contains(name@) ==> exists|returned: EngineResult|
                {
                    &&& result == call_outcome(returned)
                    &&& returned matches Err((budget, _)) ==> budget == final(self).budget()
                },
    ;
}

/// A guest instance on the Wasmer engine, together with the store that holds its
/// state.
pub struct WasmerInstance {
    store: Store,
    instance: Instance,
}

/// A step that moves no handle from one store to another leaves an instance with
/// what it had: its budget is still held, and its memory and its functions are its
/// own after the step exactly if they were before.
proof fn lemma_same_handles(before: Store, instance: Instance)
    ensures
        forall|after: Store| #[trigger]
            same_handles(before, after) ==> {
                &&& metered_in_store(after, instance) == metered_in_store(before, instance)
                &&& memory_at_home(after, instance) == memory_at_home(before, instance)
                &&& functions_at_home(after, instance) == functions_at_home(before, instance)
            },
{
    assert forall|after: Store| #[trigger] same_handles(before, after) implies {
        &&& metered_in_store(after, instance) == metered_in_store(before, instance)
        &&& memory_at_home(after, instance) == memory_at_home(before, instance)
        &&& functions_at_home(after, instance) == functions_at_home(before, instance)
    } by {
        assert(functions_at_home(after, instance) =~= functions_at_home(before, instance));
    }
}

/// Tells whether the instance exports, under `name`, a global of the store that can
/// be set and that holds 64-bit integers if `wide`, 32-bit integers if not.
fn has_counter(store: &Store, instance: &Instance, name: &str, wide: bool) -> (held: bool)
    ensures
        held == holds_global(
            *store,
            *instance,
            name@,
            if wide {
                Type::I64
            } else {
                Type::I32
            },
        ),
{
    match exported_global(instance, name) {
        Err(_) => false,
        Ok(global) => {
            if !global_is_from_store(global, store) {
                return false;
            }
            let shape = global_type(global, store);
            match shape.mutability {
                Mutability::Const => false,
                Mutability::Var => match shape.ty {
                    Type::I64 => wide,
                    Type::I32 => !wide,
                    _ => false,
                },
            }
        },
    }
}

impl WasmerInstance {
    /// Takes over an instance and the store it was made in, if the store holds the
    /// budget of the instance. It does so if the instance was made in this store
    /// from a module that was compiled with Wasmer's metering middleware. Any other
    /// pair is turned down: without the two globals of the middleware there is no
    /// budget to ask for.
    ///
    /// Only the budget is looked at here. Whether the memory and the functions that
    /// the instance exports live in the store too is looked at when they are asked
    /// for: `memory` and `call_function` report one that does not.
    pub fn try_new(store: Store, instance: Instance) -> (vm: Option<WasmerInstance>)
        ensures
            vm is Some <==> metered_in_store(store, instance),
            vm matches Some(vm) ==> {
                &&& vm.is_metered()
                &&& vm.export_info() == module_of(instance)
                &&& vm.has_memory() == exports_memory(instance)
                &&& vm.memory_is_own() == memory_at_home(store, instance)
                &&& vm.functions() == exported_functions(instance)
                &&& vm.own_functions() == functions_at_home(store, instance)
                &&& vm.budget() == metering_budget(store, instance)
                &&& vm.memory_bytes() == instance_memory(store, instance)
            },
    {
        if has_counter(&store, &instance, "wasmer_metering_remaining_points", true)
            && has_counter(&store, &instance, "wasmer_metering_points_exhausted", false) {
            Some(WasmerInstance::new(store, instance))
        } else {
            None
        }
    }

    /// Takes over an instance and the store it was made in. The module of the
    /// instance must have been compiled with Wasmer's metering middleware: without
    /// it there is no budget to ask for. `try_new` finds out whether it was.
    pub fn new(store: Store, instance: Instance) -> (vm: WasmerInstance)
        requires
            metered_in_store(store, instance),
        ensures
            vm.is_metered(),
            vm.export_info() == module_of(instance),
            vm.has_memory() == exports_memory(instance),
            vm.memory_is_own() == memory_at_home(store, instance),
            vm.functions() == exported_functions(instance),
            vm.own_functions() == functions_at_home(store, instance),
            vm.budget() == metering_budget(store, instance),
            vm.memory_bytes() == instance_memory(store, instance),
    {
        WasmerInstance { store, instance }
    }
}

impl WasmVM for WasmerInstance {
    type ExportInfo = Module;

    type Memory<'a> = WasmerMemory<'a>;

    closed spec fn export_info(&self) -> Module {
        module_of(self.instance)
    }

    closed spec fn has_memory(&self) -> bool {
        exports_memory(self.instance)
    }

    closed spec fn memory_is_own(&self) -> bool {
        memory_at_home(self.store, self.instance)
    }

    closed spec fn functions(&self) -> Set<Seq<char>> {
        exported_functions(self.instance)
    }

    closed spec fn own_functions(&self) -> Set<Seq<char>> {
        functions_at_home(self.store, self.instance)
    }

    closed spec fn is_metered(&self) -> bool {
        metered_in_store(self.store, self.instance)
    }

    closed spec fn budget(&self) -> Budget {
        metering_budget(self.store, self.instance)
    }

    closed spec fn memory_bytes(&self) -> Seq<u8> {
        instance_memory(self.store, self.instance)
    }

    fn module(&self) -> (module: &Self::ExportInfo) {
        instance_module(&self.instance)
    }

    fn memory<'a>(&'a mut self) -> (result: VmResult<Self::Memory<'a>>) {
        let memory = match first_memory(&self.instance) {
            Some(memory) => memory,
            None => {
                return Err(VmError::MissingMemory);
            },
        };
        if !memory_is_from_store(memory, &self.store) {
            return Err(VmError::ForeignExport);
        }
        proof {
            lemma_same_handles(self.store, self.instance);
        }
        let view = memory_view(&mut self.store, memory);
        Ok(WasmerMemory { view })
    }

    fn get_gas_left(&mut self) -> (left: u64) {
        proof {
            lemma_same_handles(self.store, self.instance);
        }
        let budget = remaining_points(&mut self.store, &self.instance);
        budget.gas_left()
    }

    fn set_gas_left(&mut self, new: u64) {
        proof {
            lemma_same_handles(self.store, self.instance);
        }
        reset_points(&mut self.store, &self.instance, new);
    }

    fn call_function(&mut self, name: &str, args: &[Value]) -> (result: VmResult<Box<[Value]>>) {
        let function = match exported_function(&self.instance, name) {
            Ok(function) => function,
            Err(_) => {
                return Err(VmError::ResolveError { name: name.to_owned() });
            },
        };
        if !function_is_from_store(function, &self.store) {
            return Err(VmError::ForeignExport);
        }
        proof {
            lemma_same_handles(self.store, self.instance);
        }
        let returned = call_in_store(&mut self.store, function, args);
        match returned {
            Ok(results) => finish_call(Ok(results)),
            Err(trap) => {
                let message = trap_message(&trap);
                proof {
                    lemma_same_handles(self.store, self.instance);
                }
                let budget = remaining_points(&mut self.store, &self.instance);
                finish_call(Err((budget, message)))
            },
        }
    }
}

} // verus!
