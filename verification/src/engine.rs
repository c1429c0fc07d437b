//! What this library takes on trust from the Wasmer engine: the types it carries
//! through, names for what a store, an instance and a view of its memory hold, and
//! one small function around each call into the engine. Nothing here is proved; each
//! contract says what the engine's source shows.

use crate::memory::{overwritten, PAGE_SIZE};
use crate::metering::Budget;
use vstd::prelude::*;
use wasmer::Function as GuestFunction;
use wasmer::Memory as GuestMemory;
use wasmer::Pages as WasmerPages;
use wasmer::{
    ExportError, Global, Instance, MemoryAccessError, MemoryView, Module, RuntimeError, Store,
    Value,
};
use wasmer_middlewares::metering::{get_remaining_points, set_remaining_points, MeteringPoints};
use wasmer::{GlobalType, Mutability, Type};

verus! {

/// Wasmer's view of a linear memory, through which the host reads and writes it.
#[verifier::external_type_specification]
#[verifier::external_body]
pub struct ExMemoryView<'a>(MemoryView<'a>);

/// Wasmer's count of memory pages: one public 32-bit number.
#[verifier::external_type_specification]
pub struct ExPages(WasmerPages);

/// Wasmer's store, which owns the state of the instances made in it.
#[verifier::external_type_specification]
#[verifier::external_body]
pub struct ExStore(Store);

/// Wasmer's handle to an instantiated module.
#[verifier::external_type_specification]
#[verifier::external_body]
pub struct ExInstance(Instance);

/// Wasmer's handle to a linear memory.
#[verifier::external_type_specification]
#[verifier::external_body]
pub struct ExMemory(GuestMemory);

/// Wasmer's handle to a function.
#[verifier::external_type_specification]
#[verifier::external_body]
pub struct ExFunction(GuestFunction);

/// Wasmer's handle to a global of an instance.
#[verifier::external_type_specification]
#[verifier::external_body]
pub struct ExGlobal(Global);

/// The kinds of WebAssembly values, as Wasmer names them.
#[verifier::external_type_specification]
pub struct ExType(Type);

/// Whether a global can be set.
#[verifier::external_type_specification]
pub struct ExMutability(Mutability);

/// What kind of value a global holds and whether it can be set: two public fields.
#[verifier::external_type_specification]
pub struct ExGlobalType(GlobalType);

/// Wasmer's compiled module.
#[verifier::external_type_specification]
#[verifier::external_body]
pub struct ExModule(Module);

/// A WebAssembly value.
#[verifier::external_type_specification]
#[verifier::external_body]
pub struct ExValue(Value);

/// Wasmer's account of a memory access that failed.
#[verifier::external_type_specification]
#[verifier::external_body]
pub struct ExMemoryAccessError(MemoryAccessError);

/// Wasmer's account of a lookup among the exports that failed.
#[verifier::external_type_specification]
#[verifier::external_body]
pub struct ExExportError(ExportError);

/// Wasmer's account of a trap.
#[verifier::external_type_specification]
#[verifier::external_body]
pub struct ExRuntimeError(RuntimeError);

/// The first memory among the exports of the instance, if it exports one.
pub uninterp spec fn first_memory_export(instance: Instance) -> Option<GuestMemory>;

/// Whether the memory lives in the store.
pub uninterp spec fn memory_in_store(store: Store, memory: GuestMemory) -> bool;

/// The bytes of a memory as the store holds them, from address zero up to the
/// current size of the memory. The store owns the memory: nothing reads or writes
/// it without a borrow of the store, unless the guest declared the memory as shared
/// and the host shared it with another store.
pub uninterp spec fn memory_content(store: Store, memory: GuestMemory) -> Seq<u8>;

/// The bytes that a view shows which was taken under an exclusive borrow of its
/// store, as `memory_view` takes it.
///
/// A view by itself is a pointer into a memory that any other view of the same
/// store can write. Under the exclusive borrow there is no other view and no guest
/// code runs, so what the view shows changes through this one view only. This
/// library makes no view in another way and hands none out.
pub uninterp spec fn guest_bytes(view: MemoryView) -> Seq<u8>;

/// The function that the instance exports under a name, if it exports one.
pub uninterp spec fn function_export(instance: Instance, name: Seq<char>) -> Option<
    GuestFunction,
>;

/// Whether the function lives in the store.
pub uninterp spec fn function_in_store(store: Store, function: GuestFunction) -> bool;

/// The global that the instance exports under a name, if it exports one.
pub uninterp spec fn global_export(instance: Instance, name: Seq<char>) -> Option<Global>;

/// Whether the global lives in the store.
pub uninterp spec fn global_in_store(store: Store, global: Global) -> bool;

/// The kind of value that a global of the store holds, and whether it can be set.
pub uninterp spec fn global_shape(store: Store, global: Global) -> GlobalType;

/// The module that the instance was made from. It is fixed when the instance is
/// made and is the same however often it is asked for.
pub uninterp spec fn module_of(instance: Instance) -> Module;

/// What the metering globals of the instance hold in the store.
pub uninterp spec fn metering_budget(store: Store, instance: Instance) -> Budget;

/// Whether the instance exports, under `name`, a global that lives in the store,
/// holds values of the kind `ty` and can be set.
pub open spec fn holds_global(store: Store, instance: Instance, name: Seq<char>, ty: Type) -> bool {
    global_export(instance, name) matches Some(global) && global_in_store(store, global)
        && global_shape(store, global) == (GlobalType { ty, mutability: Mutability::Var })
}

/// Whether the store holds the two globals in which Wasmer's metering middleware
/// keeps the budget of the instance: the points that remain, and the mark that the
/// budget ran out. An instance has them if it was made in this store from a module
/// that was compiled with the middleware. This says nothing of what else the
/// instance exports: its list of exports can be added to, also with a memory or a
/// function of another store.
pub open spec fn metered_in_store(store: Store, instance: Instance) -> bool {
    &&& holds_global(store, instance, "wasmer_metering_remaining_points"@, Type::I64)
    &&& holds_global(store, instance, "wasmer_metering_points_exhausted"@, Type::I32)
}

/// Whether the instance exports at least one linear memory.
pub open spec fn exports_memory(instance: Instance) -> bool {
    first_memory_export(instance) is Some
}

/// Whether the first memory that the instance exports lives in the store.
pub open spec fn memory_at_home(store: Store, instance: Instance) -> bool {
    first_memory_export(instance) matches Some(memory) && memory_in_store(store, memory)
}

/// The bytes of the first memory that the instance exports, as the store holds
/// them; nothing for an instance that exports no memory.
pub open spec fn instance_memory(store: Store, instance: Instance) -> Seq<u8> {
    match first_memory_export(instance) {
        Some(memory) => memory_content(store, memory),
        None => Seq::empty(),
    }
}

/// The names under which the instance exports functions.
pub open spec fn exported_functions(instance: Instance) -> Set<Seq<char>> {
    Set::new(|name: Seq<char>| function_export(instance, name) is Some)
}

/// The names under which the instance exports functions that live in the store.
pub open spec fn functions_at_home(store: Store, instance: Instance) -> Set<Seq<char>> {
    Set::new(
        |name: Seq<char>|
            function_export(instance, name) matches Some(function) && function_in_store(
                store,
                function,
            ),
    )
}

/// Whether every handle lives in the store after some step exactly if it did
/// before, and every global is of the kind it was: a step moves nothing from one
/// store to another.
pub open spec fn same_handles(before: Store, after: Store) -> bool {
    &&& forall|memory: GuestMemory| #[trigger]
        memory_in_store(after, memory) == memory_in_store(before, memory)
    &&& forall|function: GuestFunction| #[trigger]
        function_in_store(after, function) == function_in_store(before, function)
    &&& forall|global: Global| #[trigger]
        global_in_store(after, global) == global_in_store(before, global)
    &&& forall|global: Global| #[trigger]
        global_shape(after, global) == global_shape(before, global)
}

/// Whether the budget of every instance is after some step what it was before.
pub open spec fn same_budgets(before: Store, after: Store) -> bool {
    forall|instance: Instance| #[trigger]
        metering_budget(after, instance) == metering_budget(before, instance)
}

/// Whether every memory holds after some step what it held before.
pub open spec fn same_memories(before: Store, after: Store) -> bool {
    forall|memory: GuestMemory| #[trigger]
        memory_content(after, memory) == memory_content(before, memory)
}

/// `MemoryView::size`: the size of the memory in pages, each of `PAGE_SIZE` bytes.
#[verifier::external_body]
pub(crate) fn view_size(view: &MemoryView) -> (pages: WasmerPages)
    ensures
        pages.0 * PAGE_SIZE == guest_bytes(*view).len(),
{
    view.size()
}

/// `MemoryView::read`: fills the whole buffer with the bytes from `offset` on, or
/// fails if not all of them lie inside the memory and leaves the buffer as it was.
#[verifier::external_body]
pub(crate) fn view_read(view: &MemoryView, offset: u32, buffer: &mut Vec<u8>) -> (read: Result<
    (),
    MemoryAccessError,
>)
    ensures
        read is Ok <==> offset + old(buffer)@.len() <= guest_bytes(*view).len(),
        final(buffer)@ == if read is Ok {
            guest_bytes(*view).subrange(offset as int, offset + old(buffer)@.len())
        } else {
            old(buffer)@
        },
{
    view.read(offset as u64, buffer)
}

/// `MemoryView::write`: writes all of `data` from `offset` on, or fails if not all
/// of it would lie inside the memory and writes nothing. The size of the memory
/// stays as it is.
#[verifier::external_body]
pub(crate) fn view_write(view: &mut MemoryView, offset: u32, data: &[u8]) -> (written: Result<
    (),
    MemoryAccessError,
>)
    ensures
        written is Ok <==> offset + data@.len() <= guest_bytes(*old(view)).len(),
        guest_bytes(*final(view)) == if written is Ok {
            overwritten(guest_bytes(*old(view)), offset, data@)
        } else {
            guest_bytes(*old(view))
        },
{
    view.write(offset as u64, data)
}

/// `Exports::get_global`: the global that the instance exports under `name`. It
/// fails if there is no export of that name or if the export is not a global.
#[verifier::external_body]
pub(crate) fn exported_global<'a>(instance: &'a Instance, name: &str) -> (found: Result<
    &'a Global,
    ExportError,
>)
    ensures
        match found {
            Ok(global) => global_export(*instance, name@) == Some(*global),
            Err(_) => global_export(*instance, name@) is None,
        },
{
    instance.exports.get_global(name)
}

/// `Global::is_from_store`: whether the global lives in the store.
#[verifier::external_body]
pub(crate) fn global_is_from_store(global: &Global, store: &Store) -> (held: bool)
    ensures
        held == global_in_store(*store, *global),
{
    global.is_from_store(store)
}

/// `Global::ty`: the kind of value that the global holds and whether it can be set.
/// It panics for a global that lives in another store.
#[verifier::external_body]
pub(crate) fn global_type(global: &Global, store: &Store) -> (shape: GlobalType)
    requires
        global_in_store(*store, *global),
    ensures
        shape == global_shape(*store, *global),
{
    global.ty(store)
}

/// `Instance::module`: a reference to the module that the instance keeps from the
/// time it was made.
#[verifier::external_body]
pub(crate) fn instance_module(instance: &Instance) -> (module: &Module)
    ensures
        *module == module_of(*instance),
{
    instance.module()
}

/// The first memory among `Instance::exports`, if there is one.
#[verifier::external_body]
pub(crate) fn first_memory<'a>(instance: &'a Instance) -> (found: Option<&'a GuestMemory>)
    ensures
        match found {
            Some(memory) => first_memory_export(*instance) == Some(*memory),
            None => first_memory_export(*instance) is None,
        },
{
    instance.exports.iter().memories().next().map(|pair| pair.1)
}

/// `Memory::is_from_store`: whether the memory lives in the store.
#[verifier::external_body]
pub(crate) fn memory_is_from_store(memory: &GuestMemory, store: &Store) -> (held: bool)
    ensures
        held == memory_in_store(*store, *memory),
{
    memory.is_from_store(store)
}

/// `Memory::view`: a view of the memory as the store holds it now. The store stays
/// borrowed for as long as the view lives, and exclusively, so that the view is the
/// only way to the memory. Taking a view changes nothing in the store; what is
/// written through the view later is written to this memory alone. The view panics
/// for a memory that lives in another store.
#[verifier::external_body]
pub(crate) fn memory_view<'a>(store: &'a mut Store, memory: &GuestMemory) -> (view: MemoryView<
    'a,
>)
    requires
        memory_in_store(*old(store), *memory),
    ensures
        guest_bytes(view) == memory_content(*old(store), *memory),
        same_handles(*old(store), *final(store)),
        same_budgets(*old(store), *final(store)),
{
    let shared: &'a Store = store;
    memory.view(shared)
}

/// `Exports::get_function`: the function that the instance exports under `name`.
/// It fails if there is no export of that name or if the export is not a function.
#[verifier::external_body]
pub(crate) fn exported_function<'a>(instance: &'a Instance, name: &str) -> (found: Result<
    &'a GuestFunction,
    ExportError,
>)
    ensures
        match found {
            Ok(function) => function_export(*instance, name@) == Some(*function),
            Err(_) => function_export(*instance, name@) is None,
        },
{
    instance.exports.get_function(name)
}

/// `Function::is_from_store`: whether the function lives in the store.
#[verifier::external_body]
pub(crate) fn function_is_from_store(function: &GuestFunction, store: &Store) -> (held: bool)
    ensures
        held == function_in_store(*store, *function),
{
    function.is_from_store(store)
}

/// `Function::call`: runs the function. Whatever guest code does to the state of
/// its instance is done to the store: memories and budgets may be anything after
/// the call. The call panics for a function that lives in another store.
#[verifier::external_body]
pub(crate) fn call_in_store(store: &mut Store, function: &GuestFunction, args: &[Value]) -> (returned:
    Result<Box<[Value]>, RuntimeError>)
    requires
        function_in_store(*old(store), *function),
    ensures
        same_handles(*old(store), *final(store)),
{
    function.call(store, args)
}

/// `RuntimeError::message`: the engine's description of a trap.
#[verifier::external_body]
pub(crate) fn trap_message(trap: &RuntimeError) -> (message: String) {
    trap.message()
}

/// `get_remaining_points` of the metering middleware. It panics unless the instance
/// exports the two globals of the middleware and they live in the store. It only
/// reads those two globals.
#[verifier::external_body]
pub(crate) fn remaining_points(store: &mut Store, instance: &Instance) -> (budget: Budget)
    requires
        metered_in_store(*old(store), *instance),
    ensures
        budget == metering_budget(*old(store), *instance),
        same_handles(*old(store), *final(store)),
        same_budgets(*old(store), *final(store)),
        same_memories(*old(store), *final(store)),
{
    match get_remaining_points(store, instance) {
        MeteringPoints::Remaining(points) => Budget::Remaining(points),
        MeteringPoints::Exhausted => Budget::Exhausted,
    }
}

/// `set_remaining_points` of the metering middleware. It panics unless the instance
/// exports the two globals of the middleware, they live in the store and can be set.
/// It stores the points and clears the mark that the budget ran out, in those two
/// globals, and leaves every memory alone.
#[verifier::external_body]
pub(crate) fn reset_points(store: &mut Store, instance: &Instance, points: u64)
    requires
        metered_in_store(*old(store), *instance),
    ensures
        metering_budget(*final(store), *instance) == Budget::Remaining(points),
        same_handles(*old(store), *final(store)),
        same_memories(*old(store), *final(store)),
{
    set_remaining_points(store, instance, points)
}

} // verus!
